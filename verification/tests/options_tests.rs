use std::collections::HashMap;

use worker::ai::{assistant, binary_output, system, tool, user, Llama4Scout17b16eInstruct, Role, RoleScopedChatInput};
use worker::bindings::{check_binding_type, missing_binding_error, undefined_binding_error};
use worker::properties::{CfProperties, MinifyConfig, PolishConfig};
use worker::redirect::{is_version, version_from_string, RequestRedirect, Version};
use worker::{BlobType, CacheDeletionOutcome, DigestStreamAlgorithm, Error};

#[test]
fn cf_properties_defaults_resolve() {
    let r = CfProperties::new().resolved();
    assert!(r.apps);
    assert!(!r.cache_everything);
    assert_eq!(r.cache_key, "");
    assert_eq!(r.cache_ttl, 0);
    assert!(r.cache_ttl_by_status.is_empty());
    assert_eq!(r.minify, MinifyConfig { js: false, html: false, css: false });
    assert!(r.mirage);
    assert_eq!(r.polish, "off");
    assert_eq!(r.resolve_override, "");
    assert!(r.scrape_shield);
}

#[test]
fn cf_properties_set_values_win() {
    let mut by_status = HashMap::new();
    by_status.insert("200-299".to_string(), 86400);
    by_status.insert("404".to_string(), 1);
    let props = CfProperties {
        apps: Some(false),
        cache_everything: Some(true),
        cache_key: Some("key".into()),
        cache_ttl: Some(60),
        cache_ttl_by_status: Some(by_status),
        minify: Some(MinifyConfig { js: true, html: false, css: true }),
        mirage: Some(false),
        polish: Some(PolishConfig::Lossless),
        resolve_override: Some("origin.example".into()),
        scrape_shield: Some(false),
    };
    let r = props.resolved();
    assert!(!r.apps);
    assert!(r.cache_everything);
    assert_eq!(r.cache_key, "key");
    assert_eq!(r.cache_ttl, 60);
    assert_eq!(r.cache_ttl_by_status.get("404"), Some(&1));
    assert_eq!(r.cache_ttl_by_status.len(), 2);
    assert!(r.minify.js && !r.minify.html && r.minify.css);
    assert!(!r.mirage);
    assert_eq!(r.polish, "lossless");
    assert_eq!(r.resolve_override, "origin.example");
    assert!(!r.scrape_shield);
}

#[test]
fn cf_properties_unset_fields_fall_back() {
    let props = CfProperties {
        apps: None,
        cache_everything: None,
        cache_key: None,
        cache_ttl: None,
        cache_ttl_by_status: None,
        minify: None,
        mirage: None,
        polish: None,
        resolve_override: None,
        scrape_shield: None,
    };
    let r = props.resolved();
    assert!(r.apps && !r.cache_everything && r.mirage && r.scrape_shield);
    assert_eq!(r.polish, "off");
}

#[test]
fn polish_and_redirect_names() {
    assert_eq!(PolishConfig::Off.as_str(), "off");
    assert_eq!(PolishConfig::Lossy.as_str(), "lossy");
    assert_eq!(PolishConfig::default(), PolishConfig::Off);
    assert_eq!(RequestRedirect::Error.as_str(), "error");
    assert_eq!(RequestRedirect::Follow.as_str(), "follow");
    assert_eq!(RequestRedirect::Manual.as_str(), "manual");
    assert_eq!(RequestRedirect::default(), RequestRedirect::Follow);
}

#[test]
fn versions_from_names() {
    assert_eq!(version_from_string("HTTP/0.9"), Version::Http09);
    assert_eq!(version_from_string("HTTP/1.0"), Version::Http10);
    assert_eq!(version_from_string("HTTP/1.1"), Version::Http11);
    assert_eq!(version_from_string("HTTP/2"), Version::Http2);
    assert_eq!(version_from_string("HTTP/3"), Version::Http3);
}

#[test]
fn chat_inputs() {
    let m = user("hi");
    assert!(matches!(m.role, Role::User));
    assert_eq!(m.content, "hi");
    assert!(m.name.is_none());
    assert!(matches!(assistant("a").role, Role::Assistant));
    assert!(matches!(system("s").role, Role::System));
    assert!(matches!(tool("t").role, Role::Tool));
    let d = RoleScopedChatInput::default();
    assert!(matches!(d.role, Role::User));
    assert_eq!(d.content, "");
    assert_eq!(
        Llama4Scout17b16eInstruct::MODEL_NAME,
        "@cf/meta/llama-4-scout-17b-16e-instruct"
    );
}

#[test]
fn blob_conversions() {
    assert!(matches!(BlobType::from("x"), BlobType::String(s) if s == "x"));
    assert!(matches!(BlobType::from(String::from("y")), BlobType::String(s) if s == "y"));
    assert!(matches!(BlobType::from(vec![1u8, 2]), BlobType::Blob(v) if v == vec![1, 2]));
    let bytes: &[u8] = &[3, 4, 5];
    assert!(matches!(BlobType::from(bytes), BlobType::Blob(v) if v == vec![3, 4, 5]));
}

#[test]
fn cache_outcome_and_digest_names() {
    assert_eq!(CacheDeletionOutcome::from_deleted(true), CacheDeletionOutcome::Success);
    assert_eq!(
        CacheDeletionOutcome::from_deleted(false),
        CacheDeletionOutcome::ResponseNotFound
    );
    assert_eq!(DigestStreamAlgorithm::Sha1.as_str(), "SHA-1");
    assert_eq!(DigestStreamAlgorithm::Sha256.as_str(), "SHA-256");
    assert_eq!(DigestStreamAlgorithm::Sha384.as_str(), "SHA-384");
    assert_eq!(DigestStreamAlgorithm::Sha512.as_str(), "SHA-512");
}

#[test]
fn binding_errors() {
    assert!(check_binding_type("Ai", "Ai").is_ok());
    match check_binding_type("Ai", "Object") {
        Err(Error::RustError(m)) => {
            assert_eq!(m, "Binding cannot be cast to the type Ai from Object")
        }
        _ => panic!("expected a type error"),
    }
    match missing_binding_error("KV") {
        Error::JsError(m) => assert_eq!(m, "Env does not contain binding `KV`"),
        _ => panic!("expected JsError"),
    }
    match undefined_binding_error("KV") {
        Error::RustError(m) => assert_eq!(m, "Binding `KV` is undefined."),
        _ => panic!("expected RustError"),
    }
}

#[test]
fn version_names_are_recognised() {
    for name in ["HTTP/0.9", "HTTP/1.0", "HTTP/1.1", "HTTP/2", "HTTP/3"] {
        assert!(is_version(name));
    }
    assert!(!is_version("HTTP/4"));
    assert!(!is_version("http/1.1"));
    assert_eq!(version_from_string("HTTP/2"), Version::Http2);
}

#[test]
fn binary_output_needs_a_stream() {
    assert_eq!(binary_output(Some(7u8)).ok(), Some(7));
    match binary_output::<u8>(None) {
        Err(worker::Error::RustError(m)) => assert_eq!(
            m,
            "AI model did not return binary data. Use run() for non-binary responses."
        ),
        _ => panic!("expected the binary-output error"),
    }
}
