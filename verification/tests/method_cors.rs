use worker::cors::Cors;
use worker::method::Method;

#[test]
fn method_all_lists_every_method_once() {
    let all = Method::all();
    assert_eq!(all.len(), 9);
    assert_eq!(all[0], Method::Head);
    assert_eq!(all[1], Method::Get);
    assert_eq!(all[8], Method::Trace);
    for i in 0..all.len() {
        for j in (i + 1)..all.len() {
            assert_ne!(all[i], all[j]);
        }
    }
}

#[test]
fn method_names_round_trip() {
    for m in Method::all() {
        assert_eq!(Method::from_name(m.as_str()), m);
        assert_eq!(Method::from(m.to_string()), m);
    }
}

#[test]
fn method_from_ignores_case() {
    assert_eq!(Method::from("post".to_string()), Method::Post);
    assert_eq!(Method::from("PaTcH".to_string()), Method::Patch);
    assert_eq!(Method::from_name("delete"), Method::Delete);
}

#[test]
fn method_from_unknown_is_get() {
    assert_eq!(Method::from("FETCH".to_string()), Method::Get);
    assert_eq!(Method::from(String::new()), Method::Get);
    assert_eq!(Method::default(), Method::Get);
}

#[test]
fn method_as_str_values() {
    assert_eq!(Method::Head.as_str(), "HEAD");
    assert_eq!(Method::Options.as_str(), "OPTIONS");
    assert_eq!(Method::Connect.to_string(), "CONNECT");
}

#[test]
fn cors_default_sets_nothing() {
    assert!(Cors::new().headers().is_empty());
    assert!(Cors::default().headers().is_empty());
}

#[test]
fn cors_full_configuration() {
    let cors = Cors::new()
        .with_credentials(true)
        .with_max_age(86400)
        .with_origins(vec!["https://a.example", "https://b.example"])
        .with_methods(vec![Method::Get, Method::Post])
        .with_allowed_headers(vec!["content-type"])
        .with_exposed_headers(vec!["x-one", "x-two"]);
    let headers = cors.headers();
    let expected = vec![
        ("Access-Control-Allow-Credentials", "true"),
        ("Access-Control-Max-Age", "86400"),
        ("Access-Control-Allow-Origin", "https://a.example,https://b.example"),
        ("Access-Control-Allow-Methods", "GET,POST"),
        ("Access-Control-Allow-Headers", "content-type"),
        ("Access-Control-Expose-headers", "x-one,x-two"),
    ];
    assert_eq!(headers.len(), expected.len());
    for (got, want) in headers.iter().zip(expected.iter()) {
        assert_eq!(got.0, want.0);
        assert_eq!(got.1, want.1);
    }
}

#[test]
fn cors_credentials_false_and_zero_max_age() {
    let headers = Cors::new().with_credentials(false).with_max_age(0).headers();
    assert_eq!(headers.len(), 1);
    assert_eq!(headers[0].0, "Access-Control-Max-Age");
    assert_eq!(headers[0].1, "0");
}

#[test]
fn cors_max_age_decimal_rendering() {
    let headers = Cors::new().with_max_age(u32::MAX).headers();
    assert_eq!(headers[0].1, "4294967295");
    let headers = Cors::new().with_max_age(1000).headers();
    assert_eq!(headers[0].1, "1000");
}

#[test]
fn cors_later_setting_replaces_earlier() {
    let headers = Cors::new()
        .with_origins(vec!["a"])
        .with_origins(vec!["b", "c"])
        .with_origins(Vec::new())
        .with_methods(vec![Method::Put])
        .headers();
    assert_eq!(headers.len(), 1);
    assert_eq!(headers[0].0, "Access-Control-Allow-Methods");
    assert_eq!(headers[0].1, "PUT");
}

#[test]
fn cors_header_names_distinct() {
    let headers = Cors::new()
        .with_credentials(true)
        .with_max_age(5)
        .with_origins(vec!["*"])
        .with_methods(Method::all())
        .with_allowed_headers(vec!["a"])
        .with_exposed_headers(vec!["b"])
        .headers();
    assert_eq!(headers.len(), 6);
    for i in 0..headers.len() {
        for j in (i + 1)..headers.len() {
            assert_ne!(headers[i].0, headers[j].0);
        }
    }
    assert_eq!(headers[3].1, "HEAD,GET,POST,PUT,PATCH,DELETE,OPTIONS,CONNECT,TRACE");
}

#[test]
fn cors_empty_origin_kept() {
    let headers = Cors::new().with_origins(vec![""]).headers();
    assert_eq!(headers.len(), 1);
    assert_eq!(headers[0].1, "");
}

#[test]
fn headers_render_for_debugging() {
    let entries = vec![
        ("content-type".to_string(), "text/plain".to_string()),
        ("x-id".to_string(), "7".to_string()),
    ];
    assert_eq!(
        worker::headers::render_headers(&entries),
        "Headers {\ncontent-type = text/plain\nx-id = 7\n}\n"
    );
    assert_eq!(worker::headers::render_headers(&Vec::new()), "Headers {\n}\n");
}

#[test]
fn method_into_string() {
    assert_eq!(String::from(Method::Options), "OPTIONS");
    let s: String = Method::Get.into();
    assert_eq!(s, "GET");
}
