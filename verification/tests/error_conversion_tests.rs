use worker::Error;

#[test]
fn invalid_status_code_becomes_status_code_error() {
    let e = http::StatusCode::from_u16(42).unwrap_err();
    match Error::from(e) {
        Error::StatusCode(m) => assert_eq!(m, "invalid status code"),
        other => panic!("unexpected {other:?}"),
    }
}

#[test]
fn invalid_header_name_becomes_rust_error() {
    let e = http::header::HeaderName::from_bytes(b"bad name").unwrap_err();
    match Error::from(e) {
        Error::RustError(m) => assert_eq!(m, "Invalid header name: InvalidHeaderName"),
        other => panic!("unexpected {other:?}"),
    }
}

#[test]
fn invalid_header_value_becomes_rust_error() {
    let e = http::header::HeaderValue::from_str("line\nbreak").unwrap_err();
    match Error::from(e) {
        Error::RustError(m) => assert_eq!(m, "Invalid header value: InvalidHeaderValue"),
        other => panic!("unexpected {other:?}"),
    }
}

#[test]
fn timezone_parse_error_becomes_rust_error() {
    let e = "Nowhere/Atlantis".parse::<chrono_tz::Tz>().unwrap_err();
    match Error::from(e) {
        Error::RustError(m) => assert_eq!(m, "Invalid timezone"),
        other => panic!("unexpected {other:?}"),
    }
}

#[test]
fn url_parse_error_keeps_its_description() {
    let e = url::Url::parse("no scheme here").unwrap_err();
    match Error::from(e) {
        Error::RustError(m) => assert_eq!(m, "relative URL without a base"),
        other => panic!("unexpected {other:?}"),
    }
}

#[test]
fn json_error_keeps_its_description() {
    let e = serde_json::from_str::<u32>("true").unwrap_err();
    let text = e.to_string();
    match Error::from(e) {
        Error::SerdeJsonError(m) => {
            assert_eq!(m, text);
            assert!(m.contains("invalid type"));
        }
        other => panic!("unexpected {other:?}"),
    }
}

#[test]
fn route_conflict_keeps_its_description() {
    let mut router = matchit::Router::new();
    router.insert("/users/{id}", 1).unwrap();
    let e = router.insert("/users/{id}", 2).unwrap_err();
    let text = e.to_string();
    match Error::from(e) {
        Error::RouteInsertError(m) => {
            assert_eq!(m, text);
            assert!(!m.is_empty());
        }
        other => panic!("unexpected {other:?}"),
    }
}

#[test]
fn urlencoded_error_keeps_its_description() {
    let e = serde_urlencoded::from_str::<Vec<(String, u32)>>("a=x").unwrap_err();
    let text = e.to_string();
    match Error::from(e) {
        Error::RustError(m) => assert_eq!(m, text),
        other => panic!("unexpected {other:?}"),
    }
}

#[test]
fn http_error_keeps_its_description() {
    let e = http::Request::builder().uri("not a uri with spaces").body(()).unwrap_err();
    let text = e.to_string();
    match Error::from(e) {
        Error::Http(m) => assert_eq!(m, text),
        other => panic!("unexpected {other:?}"),
    }
}
