use or_panic::{absent_diagnostic, error_diagnostic};

#[test]
fn absent_diagnostic_is_the_message_alone() {
    let text: String = absent_diagnostic("option is missing");
    assert_eq!(text, "option is missing");
}

#[test]
fn absent_diagnostic_keeps_formatted_messages() {
    let code: i32 = 123;
    let text: String = absent_diagnostic(&format!("error {code}"));
    assert_eq!(text, "error 123");
}

#[test]
fn error_diagnostic_joins_message_and_detail() {
    let text: String = error_diagnostic("explicit failure", "\"boom\"");
    assert_eq!(text, "explicit failure.\nCaused by: \"boom\"");
}

#[test]
fn error_diagnostic_with_numeric_detail() {
    let text: String = error_diagnostic("Bad stuff", "404");
    assert_eq!(text, "Bad stuff.\nCaused by: 404");
}

#[test]
fn error_diagnostic_with_empty_parts() {
    let text: String = error_diagnostic("", "");
    assert_eq!(text, ".\nCaused by: ");
}

#[test]
fn error_diagnostic_matches_debug_rendering() {
    let err: Result<i32, &str> = Err("boom");
    let detail: String = format!("{:?}", err.unwrap_err());
    let text: String = error_diagnostic("explicit failure", &detail);
    assert_eq!(text, "explicit failure.\nCaused by: \"boom\"");
}
