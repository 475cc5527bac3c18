//! Unwrap-or-terminate extensions for `Option` and `Result`.
//!
//! The two traits here attach an `or_panic` capability to the built-in
//! containers: extract the contained value, or stop the program with a
//! caller-supplied diagnostic message. In verified code the terminating
//! path is unreachable by contract — a caller must show that the value is
//! present — so `or_panic` is proved to return exactly the contained value.
//!
//! The shape of the diagnostic text is fixed here as well, by the verified
//! builders [`absent_diagnostic`] and [`error_diagnostic`]: an absent value
//! reports the rendered message alone, and an error value reports the
//! message, a period, a newline, and `Caused by: ` followed by the error's
//! debug rendering. Unverified front ends that render arbitrary displayable
//! messages and actually abort build their text through these, so the text
//! they emit is the text proved here.

use vstd::prelude::*;
use vstd::string::StringExecFns;

pub mod prelude;

verus! {

/// The text reported when an optional container is empty: the rendered
/// message itself, with no prefix or suffix.
pub fn absent_diagnostic(msg: &str) -> (text: String)
    ensures
        text@ == msg@,
{
    msg.to_owned()
}

/// The two-line text reported when a result container holds an error:
/// the rendered message, a literal period, a newline, and `Caused by: `
/// followed by the error's debug rendering.
pub open spec fn error_diagnostic_text(msg: Seq<char>, err_debug: Seq<char>) -> Seq<char> {
    msg + ".\nCaused by: "@ + err_debug
}

/// Builds the error diagnostic from the rendered message and the error's
/// debug rendering, in exactly the shape of [`error_diagnostic_text`].
pub fn error_diagnostic(msg: &str, err_debug: &str) -> (text: String)
    ensures
        text@ == error_diagnostic_text(msg@, err_debug@),
{
    let mut text = msg.to_owned();
    text.append(".\nCaused by: ");
    text.append(err_debug);
    text
}

/// Extracting the value of an optional container, terminating with a
/// message where there is none.
pub trait OptionOrPanic<T>: Sized {
    /// Whether the container holds a value.
    spec fn spec_has_value(&self) -> bool;

    /// The contained value, meaningful only when one is held.
    spec fn spec_value(&self) -> T;

    /// Returns the contained value unchanged, with no side effect.
    ///
    /// The message parameter accepts any type, so call sites may hand over
    /// prose, numeric codes, or pre-formatted text alike; a verified caller
    /// proves the value is present, so the message is never rendered and
    /// the terminating path is never reached.
    fn or_panic<M>(self, msg: M) -> (value: T)
        requires
            self.spec_has_value(),
        ensures
            value == self.spec_value(),
    ;
}

impl<T> OptionOrPanic<T> for Option<T> {
    open spec fn spec_has_value(&self) -> bool {
        self is Some
    }

    open spec fn spec_value(&self) -> T {
        self->0
    }

    fn or_panic<M>(self, msg: M) -> (value: T) {
        self.unwrap()
    }
}

/// Extracting the success value of a result container, terminating with a
/// message and the error's debug rendering where it holds an error.
pub trait ResultOrPanic<T>: Sized {
    /// Whether the container holds a success value.
    spec fn spec_is_success(&self) -> bool;

    /// The success value, meaningful only when one is held.
    spec fn spec_success(&self) -> T;

    /// Returns the success value unchanged, with no side effect.
    ///
    /// As with [`OptionOrPanic::or_panic`], the message may be of any type,
    /// and a verified caller proves success, so neither the message nor the
    /// error is ever rendered here.
    fn or_panic<M>(self, msg: M) -> (value: T)
        requires
            self.spec_is_success(),
        ensures
            value == self.spec_success(),
    ;
}

impl<T, E> ResultOrPanic<T> for Result<T, E> {
    open spec fn spec_is_success(&self) -> bool {
        self is Ok
    }

    open spec fn spec_success(&self) -> T {
        self->Ok_0
    }

    fn or_panic<M>(self, msg: M) -> (value: T) {
        match self {
            Ok(value) => value,
            Err(_) => vstd::pervasive::unreached(),
        }
    }
}

} // verus!
