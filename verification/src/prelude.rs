//! The prelude: the commonly-used items under a single import surface.
//!
//! Importing the prelude brings both extension traits into scope at once;
//! everything here is also available through its regular path. This is
//! purely a namespace convenience with no behavioral effect.

pub use crate::OptionOrPanic;
pub use crate::ResultOrPanic;
