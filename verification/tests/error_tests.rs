use wasm_bindgen::JsValue;
use worker::error::{format_with_chain, Error, KvError, MAX_CAUSE_DEPTH};

#[test]
fn error_display_leaf_variants() {
    assert_eq!(Error::BadEncoding.to_string(), "content-type mismatch");
    assert_eq!(Error::BodyUsed.to_string(), "body has already been read");
    assert_eq!(Error::Infallible.to_string(), "infallible");
    assert_eq!(Error::RouteNoDataError.to_string(), "route has no corresponding shared data");
    assert_eq!(Error::TimezoneError.to_string(), "invalid timezone");
    assert_eq!(Error::RustError("oops".into()).to_string(), "oops");
    assert_eq!(Error::JsError("thrown".into()).to_string(), "thrown");
}

#[test]
fn error_display_formatted_variants() {
    assert_eq!(
        Error::BindingError("KV".into()).to_string(),
        "no binding found for `KV`"
    );
    assert_eq!(
        Error::Json(("bad body".into(), 400)).to_string(),
        "bad body (status: 400)"
    );
    assert_eq!(Error::Json(("x".into(), 0)).to_string(), "x (status: 0)");
    assert_eq!(
        Error::Json(("x".into(), u16::MAX)).to_string(),
        "x (status: 65535)"
    );
    assert_eq!(
        Error::KvError(KvError::InvalidKvStore("NS".into())).to_string(),
        "invalid kv store: NS"
    );
    assert_eq!(
        Error::KvError(KvError::Serialization("eof".into())).to_string(),
        "unable to serialize/deserialize: eof"
    );
    assert_eq!(
        Error::KvError(KvError::JavaScript("JsValue(1)".into())).to_string(),
        "js error: JsValue(1)"
    );
}

#[test]
fn error_display_wrapped_categories() {
    assert_eq!(Error::Io("disk".into()).to_string(), "I/O error");
    assert_eq!(Error::Utf8Error("bad".into()).to_string(), "UTF-8 decoding error");
    assert_eq!(Error::SerdeJsonError("j".into()).to_string(), "JSON serialization error");
    assert_eq!(
        Error::SerdeWasmBindgenError("w".into()).to_string(),
        "wasm-bindgen serialization error"
    );
    assert_eq!(Error::RouteInsertError("r".into()).to_string(), "failed to insert route");
    assert_eq!(Error::Http("h".into()).to_string(), "HTTP error");
    assert_eq!(Error::StatusCode("s".into()).to_string(), "invalid HTTP status code");
}

#[test]
fn error_display_coded_variants() {
    assert_eq!(
        Error::EmailRecipientSuppressed("bounced".into()).to_string(),
        "EmailRecipientSuppressed: bounced"
    );
    assert_eq!(
        Error::EmailRecipientNotAllowed("no".into()).to_string(),
        "EmailRecipientNotAllowed: no"
    );
    assert_eq!(Error::RateLimitExceeded("slow".into()).to_string(), "RateLimitExceeded: slow");
    assert_eq!(Error::DailyLimitExceeded("d".into()).to_string(), "DailyLimitExceeded: d");
    assert_eq!(Error::InternalError("i".into()).to_string(), "InternalError: i");
}

fn unknown(name: Option<&str>, message: &str, code: Option<&str>, cause: Option<Error>) -> Error {
    Error::from_js_parts(
        JsValue::NULL,
        name.map(|s| s.to_string()),
        message.to_string(),
        code.map(|s| s.to_string()),
        cause,
    )
}

#[test]
fn error_display_unknown_js_error() {
    assert_eq!(unknown(Some("TypeError"), "bad", None, None).to_string(), "TypeError: bad");
    assert_eq!(unknown(None, "bad", None, None).to_string(), "Error: bad");
    assert_eq!(
        unknown(Some("RangeError"), "too far", Some("E_X"), None).to_string(),
        "RangeError [E_X]: too far"
    );
    assert_eq!(unknown(None, "m", Some("C"), None).to_string(), "Error [C]: m");
}

#[test]
fn from_js_parts_selects_coded_variants() {
    match unknown(Some("Error"), "gone", Some("E_RECIPIENT_SUPPRESSED"), None) {
        Error::EmailRecipientSuppressed(m) => assert_eq!(m, "gone"),
        other => panic!("unexpected {:?}", other.to_string()),
    }
    match unknown(None, "m", Some("RCPT_NOT_ALLOWED"), None) {
        Error::EmailRecipientNotAllowed(m) => assert_eq!(m, "m"),
        other => panic!("unexpected {:?}", other.to_string()),
    }
    match unknown(None, "m", Some("E_RATE_LIMIT_EXCEEDED"), None) {
        Error::RateLimitExceeded(m) => assert_eq!(m, "m"),
        other => panic!("unexpected {:?}", other.to_string()),
    }
    match unknown(None, "m", Some("E_DAILY_LIMIT_EXCEEDED"), Some(Error::BodyUsed)) {
        Error::DailyLimitExceeded(m) => assert_eq!(m, "m"),
        other => panic!("unexpected {:?}", other.to_string()),
    }
    match unknown(None, "m", Some("E_INTERNAL_SERVER_ERROR"), None) {
        Error::InternalError(m) => assert_eq!(m, "m"),
        other => panic!("unexpected {:?}", other.to_string()),
    }
}

#[test]
fn from_js_parts_keeps_unknown_codes() {
    match unknown(Some("N"), "msg", Some("e_rate_limit_exceeded"), Some(Error::BodyUsed)) {
        Error::UnknownJsError { name, message, code, cause, .. } => {
            assert_eq!(name.as_deref(), Some("N"));
            assert_eq!(message, "msg");
            assert_eq!(code.as_deref(), Some("e_rate_limit_exceeded"));
            assert!(matches!(cause.as_deref(), Some(Error::BodyUsed)));
        }
        other => panic!("unexpected {:?}", other.to_string()),
    }
}

#[test]
fn js_code_round_trip() {
    let errors = vec![
        Error::EmailRecipientSuppressed("a".into()),
        Error::EmailRecipientNotAllowed("b".into()),
        Error::RateLimitExceeded("c".into()),
        Error::DailyLimitExceeded("d".into()),
        Error::InternalError("e".into()),
    ];
    for e in errors {
        let code = e.js_code().expect("coded");
        let text = e.to_string();
        let back = unknown(None, &text, Some(code), None);
        assert_eq!(back.js_code(), Some(code));
    }
    assert_eq!(Error::BodyUsed.js_code(), None);
    assert_eq!(Error::JsError("x".into()).js_code(), None);
    assert_eq!(Error::InternalError("e".into()).js_code(), Some("E_INTERNAL_SERVER_ERROR"));
}

#[test]
fn chain_and_format_with_chain() {
    assert_eq!(format_with_chain(&Error::BodyUsed), "body has already been read");
    assert_eq!(
        format_with_chain(&Error::Io("disk full".into())),
        "I/O error\nCaused by:\n    disk full"
    );
    let inner = unknown(Some("TypeError"), "inner", None, None);
    let outer = unknown(None, "outer", Some("X"), Some(inner));
    assert_eq!(
        format_with_chain(&outer),
        "Error [X]: outer\nCaused by:\n    TypeError: inner"
    );
    let nested = unknown(None, "top", None, Some(Error::Utf8Error("byte 3".into())));
    assert_eq!(nested.chain(), vec!["Error: top", "UTF-8 decoding error", "byte 3"]);
}

#[test]
fn error_from_strings() {
    match Error::from("text") {
        Error::RustError(s) => assert_eq!(s, "text"),
        _ => panic!("expected RustError"),
    }
    match Error::from(String::from("owned")) {
        Error::RustError(s) => assert_eq!(s, "owned"),
        _ => panic!("expected RustError"),
    }
    assert_eq!(MAX_CAUSE_DEPTH, 16);
}

#[test]
fn error_from_io_and_utf8() {
    let io = std::io::Error::new(std::io::ErrorKind::Other, "boom");
    match Error::from(io) {
        Error::Io(s) => assert_eq!(s, "boom"),
        _ => panic!("expected Io"),
    }
    let bytes = vec![0xffu8];
    let utf8 = std::str::from_utf8(&bytes).unwrap_err();
    assert!(matches!(Error::from(utf8), Error::Utf8Error(_)));
}

#[test]
fn coded_errors_travel_with_their_code() {
    match Error::RateLimitExceeded("slow down".to_string()).js_form() {
        worker::error::JsForm::Coded(m, c) => {
            assert_eq!(m, "slow down");
            assert_eq!(c, "E_RATE_LIMIT_EXCEEDED");
        }
        other => panic!("unexpected {other:?}"),
    }
    match Error::DailyLimitExceeded("tomorrow".to_string()).js_form() {
        worker::error::JsForm::Coded(_, c) => assert_eq!(c, "E_DAILY_LIMIT_EXCEEDED"),
        other => panic!("unexpected {other:?}"),
    }
    match Error::JsError("thrown".to_string()).js_form() {
        worker::error::JsForm::Text(t) => assert_eq!(t, "thrown"),
        other => panic!("unexpected {other:?}"),
    }
    match Error::BodyUsed.js_form() {
        worker::error::JsForm::Message(m) => assert_eq!(m, "body has already been read"),
        other => panic!("unexpected {other:?}"),
    }
    match Error::Io("disk gone".to_string()).js_form() {
        worker::error::JsForm::Message(m) => {
            assert_eq!(m, "I/O error\nCaused by:\n    disk gone")
        }
        other => panic!("unexpected {other:?}"),
    }
}
