use worker::d1::{
    cast_to_d1_error, cause_text, check_d1_binding_type, indent_continuations, is_d1_message,
};
use worker::Error;

#[test]
fn d1_messages_start_with_d1() {
    assert!(is_d1_message("D1_ERROR: no such table: users"));
    assert!(is_d1_message("D1"));
    assert!(!is_d1_message("D"));
    assert!(!is_d1_message(""));
    assert!(!is_d1_message("d1 lowercase"));
    assert!(!is_d1_message("Error: D1 later"));
}

#[test]
fn cause_text_falls_back_to_unknown_error() {
    assert_eq!(cause_text(Some("no such column".to_string())), "no such column");
    assert_eq!(cause_text(None), "unknown error");
}

#[test]
fn successful_d1_results_pass_through() {
    let r: Result<u32, Error> = cast_to_d1_error(Ok(5u32));
    assert_eq!(r.ok(), Some(5));
}

#[test]
fn d1_binding_accepts_both_constructor_names() {
    assert!(check_d1_binding_type("D1Database").is_ok());
    assert!(check_d1_binding_type("BetaDatabase").is_ok());
    match check_d1_binding_type("KvNamespace") {
        Err(Error::RustError(m)) => {
            assert_eq!(m, "Binding cannot be cast to the type D1Database from KvNamespace")
        }
        _ => panic!("expected a cast error"),
    }
}

#[test]
fn continuation_lines_are_indented() {
    assert_eq!(indent_continuations("JsValue(Error: x\n    at f)"), "JsValue(Error: x\n        at f)");
    assert_eq!(indent_continuations("one line"), "one line");
    assert_eq!(indent_continuations("a\n\nb"), "a\n    \n    b");
}
