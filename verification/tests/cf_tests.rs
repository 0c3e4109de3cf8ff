use worker::cf::{parse_request_priority, Cf, RequestPriority, TlsClientAuth};

fn sample_cf(priority: Option<&str>, eu: Option<&str>, timezone: &str) -> Cf {
    Cf {
        colo: "ATX".into(),
        asn: 395747,
        as_organization: "Cloudflare, Inc.".into(),
        country: Some("US".into()),
        http_protocol: "HTTP/2".into(),
        request_priority: priority.map(|s| s.to_string()),
        tls_cipher: "AEAD-AES128-GCM-SHA256".into(),
        tls_client_auth: None,
        tls_version: "TLSv1.3".into(),
        city: Some("Austin".into()),
        continent: Some("NA".into()),
        latitude: Some("30.27130".into()),
        longitude: Some("-97.74260".into()),
        postal_code: Some("78701".into()),
        metro_code: Some("635".into()),
        region: Some("Texas".into()),
        region_code: Some("TX".into()),
        timezone: timezone.into(),
        is_eu_country: eu.map(|s| s.to_string()),
    }
}

#[test]
fn priority_full_string() {
    let p = parse_request_priority("weight=192;exclusive=0;group=3;group-weight=127");
    assert_eq!(
        p,
        RequestPriority { weight: 192, exclusive: false, group: 3, group_weight: 127 }
    );
}

#[test]
fn priority_defaults_for_missing_keys() {
    let p = parse_request_priority("exclusive=1");
    assert_eq!(p, RequestPriority { weight: 1, exclusive: true, group: 0, group_weight: 0 });
    let p = parse_request_priority("weight=256");
    assert_eq!(p, RequestPriority { weight: 256, exclusive: false, group: 0, group_weight: 0 });
}

#[test]
fn priority_later_piece_wins_and_plus_sign() {
    let p = parse_request_priority("weight=5;weight=+7;exclusive=1;exclusive=2");
    assert_eq!(p.weight, 7);
    assert!(!p.exclusive);
}

#[test]
fn priority_value_stops_at_second_equals() {
    let p = parse_request_priority("group=12=99");
    assert_eq!(p.group, 12);
}

#[test]
fn cf_request_priority_and_flags() {
    let cf = sample_cf(Some("weight=220;exclusive=1"), Some("1"), "America/Chicago");
    let p = cf.request_priority().unwrap();
    assert_eq!(p.weight, 220);
    assert!(p.exclusive);
    assert!(cf.is_eu_country());
    assert!(sample_cf(None, None, "UTC").request_priority().is_none());
    assert!(!sample_cf(None, Some("0"), "UTC").is_eu_country());
    assert!(!sample_cf(None, None, "UTC").is_eu_country());
}

#[test]
fn cf_getters() {
    let cf = sample_cf(None, None, "America/Chicago");
    assert_eq!(cf.colo(), "ATX");
    assert_eq!(cf.asn(), 395747);
    assert_eq!(cf.as_organization(), "Cloudflare, Inc.");
    assert_eq!(cf.country().as_deref(), Some("US"));
    assert_eq!(cf.http_protocol(), "HTTP/2");
    assert_eq!(cf.tls_cipher(), "AEAD-AES128-GCM-SHA256");
    assert_eq!(cf.tls_version(), "TLSv1.3");
    assert_eq!(cf.city().as_deref(), Some("Austin"));
    assert_eq!(cf.continent().as_deref(), Some("NA"));
    assert_eq!(cf.postal_code().as_deref(), Some("78701"));
    assert_eq!(cf.metro_code().as_deref(), Some("635"));
    assert_eq!(cf.region().as_deref(), Some("Texas"));
    assert_eq!(cf.region_code().as_deref(), Some("TX"));
    assert_eq!(cf.timezone_name(), "America/Chicago");
    let (lat, lon) = cf.coordinates_text().unwrap();
    assert_eq!(lat, "30.27130");
    assert_eq!(lon, "-97.74260");
    assert!(cf.tls_client_auth().is_none());
}

#[test]
fn cf_coordinates_need_both() {
    let mut cf = sample_cf(None, None, "UTC");
    cf.longitude = None;
    assert!(cf.coordinates_text().is_none());
}

#[test]
fn cf_timezone_lookup() {
    let cf = sample_cf(None, None, "America/Chicago");
    assert_eq!(cf.timezone().unwrap(), chrono_tz::Tz::America__Chicago);
    let bad = sample_cf(None, None, "Mars/Olympus");
    match bad.timezone() {
        Err(worker::Error::RustError(m)) => assert_eq!(m, "Invalid timezone"),
        _ => panic!("expected the invalid timezone error"),
    }
}

#[test]
fn tls_client_auth_getters() {
    let auth = TlsClientAuth {
        cert_issuer_dn_legacy: "a".into(),
        cert_issuer_dn: "b".into(),
        cert_issuer_dn_rfc2253: "c".into(),
        cert_subject_dn_legacy: "d".into(),
        cert_verified: "SUCCESS".into(),
        cert_not_after: "e".into(),
        cert_subject_dn: "f".into(),
        cert_fingerprint_sha1: "g".into(),
        cert_not_before: "h".into(),
        cert_serial: "i".into(),
        cert_presented: "1".into(),
        cert_subject_dn_rfc2253: "j".into(),
    };
    let mut cf = sample_cf(None, None, "UTC");
    cf.tls_client_auth = Some(auth);
    let a = cf.tls_client_auth().unwrap();
    assert_eq!(a.cert_issuer_dn_legacy(), "a");
    assert_eq!(a.cert_issuer_dn(), "b");
    assert_eq!(a.cert_issuer_dn_rfc2253(), "c");
    assert_eq!(a.cert_subject_dn_legacy(), "d");
    assert_eq!(a.cert_verified(), "SUCCESS");
    assert_eq!(a.cert_not_after(), "e");
    assert_eq!(a.cert_subject_dn(), "f");
    assert_eq!(a.cert_fingerprint_sha1(), "g");
    assert_eq!(a.cert_not_before(), "h");
    assert_eq!(a.cert_serial(), "i");
    assert_eq!(a.cert_presented(), "1");
    assert_eq!(a.cert_subject_dn_rfc2253(), "j");
}

#[test]
fn priority_strings_are_checked() {
    assert!(worker::cf::is_valid_priority("weight=192;exclusive=0;group=3;group-weight=127"));
    assert!(worker::cf::is_valid_priority("exclusive=1"));
    assert!(!worker::cf::is_valid_priority("weight=heavy"));
    assert!(!worker::cf::is_valid_priority("weight=1;colour=3"));
    assert!(!worker::cf::is_valid_priority("weight"));
    assert!(!worker::cf::is_valid_priority(""));
}
