//! Field, percentage, key and numeral behaviour on concrete values.

use kosync::handlers::healthcheck;
use kosync::default_redis;
use kosync::dto::CreateUserRequest;
use kosync::dto::Progress;
use kosync::error::Error;
use kosync::keys::doc_key;
use kosync::keys::user_key;
use kosync::numerals::parse_u64_dec;
use kosync::numerals::u64_to_dec;
use kosync::percent::is_valid_percentage;
use kosync::validate::is_valid_field;
use kosync::validate::is_valid_key_field;

fn draft(document: &str, progress: &str, percentage: &str, device: &str) -> Progress {
    Progress {
        document: document.to_string(),
        progress: progress.to_string(),
        percentage: percentage.to_string(),
        device: device.to_string(),
        device_id: "d1".to_string(),
        timestamp: None,
    }
}

#[test]
fn field_validity() {
    assert!(is_valid_field("x"));
    assert!(is_valid_field("has:colon"));
    assert!(!is_valid_field(""));
}

#[test]
fn key_field_validity() {
    assert!(is_valid_key_field("alice"));
    assert!(!is_valid_key_field(""));
    assert!(!is_valid_key_field("a:b"));
    assert!(!is_valid_key_field(":"));
    assert!(!is_valid_key_field("alice:"));
}

#[test]
fn percentage_boundaries() {
    // the exact boundary values, in the renderings a float-typed client sends
    assert!(is_valid_percentage("0"));
    assert!(is_valid_percentage("0.0"));
    assert!(is_valid_percentage("100"));
    assert!(is_valid_percentage("100.0"));
    assert!(!is_valid_percentage("-0.0001"));
    assert!(!is_valid_percentage("100.0001"));
}

#[test]
fn percentage_general() {
    assert!(is_valid_percentage("37.5"));
    assert!(is_valid_percentage("99.999999"));
    assert!(is_valid_percentage("100.000"));
    assert!(is_valid_percentage("0100.0"));
    assert!(is_valid_percentage("-0"));
    assert!(is_valid_percentage("-0.000"));
    assert!(!is_valid_percentage(""));
    assert!(!is_valid_percentage("-"));
    assert!(!is_valid_percentage("-1"));
    assert!(!is_valid_percentage("100."));
    assert!(!is_valid_percentage(".5"));
    assert!(!is_valid_percentage("1.2.3"));
    assert!(!is_valid_percentage("101"));
    assert!(!is_valid_percentage("1000"));
    assert!(!is_valid_percentage("12a"));
    assert!(!is_valid_percentage("NaN"));
    assert!(!is_valid_percentage("inf"));
    assert!(!is_valid_percentage("-inf"));
    assert!(!is_valid_percentage("1e2"));
    assert!(!is_valid_percentage(" 50"));
}

#[test]
fn derived_keys() {
    assert_eq!(user_key("alice"), "user:alice:key");
    assert_eq!(doc_key("alice", "bookA"), "user:alice:document:bookA");
}

#[test]
fn numeral_rendering() {
    assert_eq!(u64_to_dec(0), "0");
    assert_eq!(u64_to_dec(7), "7");
    assert_eq!(u64_to_dec(1700000000), "1700000000");
    assert_eq!(u64_to_dec(u64::MAX), "18446744073709551615");
}

#[test]
fn numeral_parsing() {
    assert_eq!(parse_u64_dec("0"), Some(0));
    assert_eq!(parse_u64_dec("007"), Some(7));
    assert_eq!(parse_u64_dec("1700000000"), Some(1700000000));
    assert_eq!(parse_u64_dec("18446744073709551615"), Some(u64::MAX));
    assert_eq!(parse_u64_dec("18446744073709551616"), None);
    assert_eq!(parse_u64_dec(""), None);
    assert_eq!(parse_u64_dec("1a"), None);
    assert_eq!(parse_u64_dec("-1"), None);
}

#[test]
fn numeral_round_trip() {
    for n in [0u64, 1, 9, 10, 99, 12345, 1700000000, u64::MAX] {
        assert_eq!(parse_u64_dec(&u64_to_dec(n)), Some(n));
    }
}

#[test]
fn create_user_request_validation() {
    let ok = CreateUserRequest { username: "alice".to_string(), password: "pw".to_string() };
    assert!(ok.validate().is_ok());
    let bad_user = CreateUserRequest { username: "a:b".to_string(), password: "pw".to_string() };
    match bad_user.validate() {
        Err(Error::InvalidField(f)) => assert_eq!(f, "username"),
        _ => panic!("expected InvalidField(username)"),
    }
    let empty_user = CreateUserRequest { username: String::new(), password: "pw".to_string() };
    assert!(matches!(empty_user.validate(), Err(Error::InvalidField(_))));
    let empty_pw = CreateUserRequest { username: "alice".to_string(), password: String::new() };
    match empty_pw.validate() {
        Err(Error::InvalidField(f)) => assert_eq!(f, "password"),
        _ => panic!("expected InvalidField(password)"),
    }
}

#[test]
fn progress_validation_order() {
    // first offending field in the documented order
    match draft("a:b", "", "200", "").validate() {
        Err(Error::InvalidField(f)) => assert_eq!(f, "document"),
        _ => panic!("expected InvalidField(document)"),
    }
    match draft("bookA", "p42", "100.0001", "phone").validate() {
        Err(Error::InvalidField(f)) => assert_eq!(f, "percentage"),
        _ => panic!("expected InvalidField(percentage)"),
    }
    match draft("bookA", "", "37.5", "phone").validate() {
        Err(Error::InvalidField(f)) => assert_eq!(f, "progress"),
        _ => panic!("expected InvalidField(progress)"),
    }
    match draft("bookA", "p42", "37.5", "").validate() {
        Err(Error::InvalidField(f)) => assert_eq!(f, "device"),
        _ => panic!("expected InvalidField(device)"),
    }
    assert!(draft("bookA", "p42", "37.5", "phone").validate().is_ok());
    // the device id may be empty
    let mut p = draft("bookA", "p42", "37.5", "phone");
    p.device_id = String::new();
    assert!(p.validate().is_ok());
}

#[test]
fn progress_hash_pairs() {
    let mut p = draft("bookA", "p42", "37.5", "phone");
    p.timestamp = Some(123);
    let pairs = p.to_vec();
    assert_eq!(
        pairs,
        vec![
            ("document".to_string(), "bookA".to_string()),
            ("progress".to_string(), "p42".to_string()),
            ("percentage".to_string(), "37.5".to_string()),
            ("device".to_string(), "phone".to_string()),
            ("device_id".to_string(), "d1".to_string()),
            ("timestamp".to_string(), "123".to_string()),
        ]
    );
    // an unassigned timestamp serializes as zero
    let q = draft("bookA", "p42", "37.5", "phone");
    assert_eq!(q.to_vec()[5], ("timestamp".to_string(), "0".to_string()));
}

#[test]
fn record_from_pairs() {
    let pairs = vec![
        ("document".to_string(), "bookA".to_string()),
        ("progress".to_string(), "p42".to_string()),
        ("percentage".to_string(), "37.5".to_string()),
        ("device".to_string(), "phone".to_string()),
        ("device_id".to_string(), "d1".to_string()),
        ("timestamp".to_string(), "123".to_string()),
    ];
    let p = Progress::from_pairs(&pairs);
    assert_eq!(p.document, "bookA");
    assert_eq!(p.progress, "p42");
    assert_eq!(p.percentage, "37.5");
    assert_eq!(p.device, "phone");
    assert_eq!(p.device_id, "d1");
    assert_eq!(p.timestamp, Some(123));
}

#[test]
fn record_from_pairs_defaults() {
    // absent fields default to empty, a malformed timestamp to zero
    let p = Progress::from_pairs(&vec![]);
    assert_eq!(p.document, "");
    assert_eq!(p.progress, "");
    assert_eq!(p.percentage, "");
    assert_eq!(p.device, "");
    assert_eq!(p.device_id, "");
    assert_eq!(p.timestamp, Some(0));
    let q = Progress::from_pairs(&vec![
        ("timestamp".to_string(), "not-a-number".to_string()),
        ("unknown".to_string(), "ignored".to_string()),
        ("device".to_string(), "phone".to_string()),
    ]);
    assert_eq!(q.timestamp, Some(0));
    assert_eq!(q.device, "phone");
    assert_eq!(q.document, "");
}

#[test]
fn record_from_pairs_keeps_last_duplicate() {
    let p = Progress::from_pairs(&vec![
        ("progress".to_string(), "first".to_string()),
        ("progress".to_string(), "second".to_string()),
    ]);
    assert_eq!(p.progress, "second");
}

#[test]
fn record_pairs_round_trip() {
    let mut p = draft("bookA", "p42", "37.5", "phone");
    p.timestamp = Some(456);
    let back = Progress::from_pairs(&p.to_vec());
    assert_eq!(back.document, p.document);
    assert_eq!(back.progress, p.progress);
    assert_eq!(back.percentage, p.percentage);
    assert_eq!(back.device, p.device);
    assert_eq!(back.device_id, p.device_id);
    assert_eq!(back.timestamp, p.timestamp);
}

#[test]
fn error_responses() {
    assert_eq!(
        Error::InvalidField("document".to_string()).response(),
        ("INVALID_FIELD: document".to_string(), 400)
    );
    assert_eq!(
        Error::UserExists("alice".to_string()).response(),
        ("USER_EXISTS: alice".to_string(), 409)
    );
    assert_eq!(Error::Unauthorized.response(), ("UNAUTHORIZED".to_string(), 401));
    assert_eq!(Error::StoreFailure.response(), ("INTERNAL_SERVER_ERROR".to_string(), 500));
    // server-side detail never reaches the client
    assert_eq!(
        Error::Unknown("redis gone".to_string()).response(),
        ("INTERNAL_SERVER_ERROR".to_string(), 500)
    );
}

#[test]
fn service_constants() {
    assert_eq!(healthcheck(), "ok");
    assert_eq!(default_redis(), "redis://127.0.0.1:6379/0");
}
