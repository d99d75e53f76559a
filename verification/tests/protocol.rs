//! End-to-end endpoint behaviour over the store model.

use kosync::dto::CreateUserRequest;
use kosync::dto::Progress;
use kosync::error::Error;
use kosync::handlers::ack_create;
use kosync::handlers::ack_update;
use kosync::handlers::authorize;
use kosync::handlers::check_credentials;
use kosync::handlers::check_secret;
use kosync::handlers::check_user_absent;
use kosync::handlers::create_user;
use kosync::handlers::get_progress;
use kosync::handlers::update_progress;
use kosync::handlers::update_progress_at;
use kosync::store::Store;

fn req(username: &str, password: &str) -> CreateUserRequest {
    CreateUserRequest { username: username.to_string(), password: password.to_string() }
}

fn draft(document: &str, progress: &str, percentage: &str, device: &str) -> Progress {
    Progress {
        document: document.to_string(),
        progress: progress.to_string(),
        percentage: percentage.to_string(),
        device: device.to_string(),
        device_id: "d1".to_string(),
        timestamp: None,
    }
}

#[test]
fn scenario_create_then_conflict() {
    let mut store = Store::new();
    let r = create_user(&mut store, &req("alice", "secret1"));
    assert_eq!(r.unwrap(), "alice");
    // the identical repeated call conflicts
    match create_user(&mut store, &req("alice", "secret1")) {
        Err(e) => {
            match &e {
                Error::UserExists(u) => assert_eq!(u, "alice"),
                _ => panic!("expected UserExists"),
            }
            assert_eq!(e.response(), ("USER_EXISTS: alice".to_string(), 409));
        },
        Ok(_) => panic!("expected conflict"),
    }
}

#[test]
fn scenario_wrong_key_unauthorized() {
    let mut store = Store::new();
    create_user(&mut store, &req("alice", "secret1")).unwrap();
    let r = authorize(&store, Some("alice".to_string()), Some("wrong".to_string()));
    match r {
        Err(e) => assert_eq!(e.response().1, 401),
        Ok(_) => panic!("expected Unauthorized"),
    }
}

#[test]
fn authorize_success_and_failures() {
    let mut store = Store::new();
    create_user(&mut store, &req("alice", "secret1")).unwrap();
    let ok = authorize(&store, Some("alice".to_string()), Some("secret1".to_string()));
    assert_eq!(ok.unwrap(), "alice");
    // absent headers
    assert!(authorize(&store, None, Some("secret1".to_string())).is_err());
    assert!(authorize(&store, Some("alice".to_string()), None).is_err());
    // unknown account
    assert!(authorize(&store, Some("bob".to_string()), Some("secret1".to_string())).is_err());
    // malformed username is indistinguishable from a wrong one
    let r = authorize(&store, Some("a:b".to_string()), Some("secret1".to_string()));
    match r {
        Err(e) => assert!(matches!(e, Error::Unauthorized)),
        Ok(_) => panic!("expected Unauthorized"),
    }
}

#[test]
fn scenario_update_then_read_back() {
    let mut store = Store::new();
    create_user(&mut store, &req("alice", "secret1")).unwrap();
    let d = draft("bookA", "p42", "37.5", "phone");
    let stored = update_progress_at(&mut store, "alice", &d, 1700000000).unwrap();
    assert_eq!(stored.timestamp, Some(1700000000));
    assert!(stored.timestamp.unwrap() > 0);
    let back = get_progress(&store, "alice", "bookA").unwrap();
    assert_eq!(back.document, "bookA");
    assert_eq!(back.progress, "p42");
    assert_eq!(back.percentage, "37.5");
    assert_eq!(back.device, "phone");
    assert_eq!(back.device_id, "d1");
    assert_eq!(back.timestamp, Some(1700000000));
}

#[test]
fn scenario_never_synced_reads_zero() {
    let mut store = Store::new();
    create_user(&mut store, &req("alice", "secret1")).unwrap();
    let p = get_progress(&store, "alice", "bookB").unwrap();
    assert_eq!(p.document, "");
    assert_eq!(p.progress, "");
    assert_eq!(p.percentage, "");
    assert_eq!(p.device, "");
    assert_eq!(p.device_id, "");
    assert_eq!(p.timestamp, Some(0));
    // the empty numeral renders as the zero percentage a client reads
    assert_eq!(p.percentage.parse::<f64>().unwrap_or(0.0), 0.0);
}

#[test]
fn scenario_separator_in_document_rejected() {
    let mut store = Store::new();
    create_user(&mut store, &req("alice", "secret1")).unwrap();
    let d = draft("a:b", "p42", "37.5", "phone");
    match update_progress_at(&mut store, "alice", &d, 1) {
        Err(e) => {
            match &e {
                Error::InvalidField(f) => assert_eq!(f, "document"),
                _ => panic!("expected InvalidField"),
            }
            assert_eq!(e.response(), ("INVALID_FIELD: document".to_string(), 400));
        },
        Ok(_) => panic!("expected rejection"),
    }
    // and the same on the read side
    match get_progress(&store, "alice", "a:b") {
        Err(Error::InvalidField(f)) => assert_eq!(f, "document"),
        _ => panic!("expected InvalidField(document)"),
    }
}

#[test]
fn separator_in_username_never_reaches_the_store() {
    let mut store = Store::new();
    match create_user(&mut store, &req("a:b", "pw")) {
        Err(Error::InvalidField(f)) => assert_eq!(f, "username"),
        _ => panic!("expected InvalidField(username)"),
    }
    // nothing was written for any spelling of that name
    assert!(authorize(&store, Some("a:b".to_string()), Some("pw".to_string())).is_err());
}

#[test]
fn never_synced_read_is_idempotent() {
    let mut store = Store::new();
    create_user(&mut store, &req("alice", "secret1")).unwrap();
    let first = get_progress(&store, "alice", "ghost").unwrap();
    let second = get_progress(&store, "alice", "ghost").unwrap();
    assert_eq!(first.document, second.document);
    assert_eq!(first.progress, second.progress);
    assert_eq!(first.percentage, second.percentage);
    assert_eq!(first.device, second.device);
    assert_eq!(first.device_id, second.device_id);
    assert_eq!(first.timestamp, second.timestamp);
}

#[test]
fn client_timestamp_is_discarded() {
    let mut store = Store::new();
    create_user(&mut store, &req("alice", "secret1")).unwrap();
    let mut d = draft("bookA", "p42", "37.5", "phone");
    d.timestamp = Some(999);
    let stored = update_progress_at(&mut store, "alice", &d, 42).unwrap();
    assert_eq!(stored.timestamp, Some(42));
    assert_ne!(stored.timestamp, Some(999));
    let back = get_progress(&store, "alice", "bookA").unwrap();
    assert_eq!(back.timestamp, Some(42));
}

#[test]
fn wall_clock_update_assigns_positive_timestamp() {
    let mut store = Store::new();
    create_user(&mut store, &req("alice", "secret1")).unwrap();
    let mut d = draft("bookA", "p42", "37.5", "phone");
    d.timestamp = Some(7);
    let stored = update_progress(&mut store, "alice", &d).unwrap();
    assert!(stored.timestamp.unwrap() > 7);
    let back = get_progress(&store, "alice", "bookA").unwrap();
    assert_eq!(back.timestamp, stored.timestamp);
}

#[test]
fn update_overwrites_wholesale() {
    let mut store = Store::new();
    create_user(&mut store, &req("alice", "secret1")).unwrap();
    update_progress_at(&mut store, "alice", &draft("bookA", "p1", "10", "phone"), 1).unwrap();
    update_progress_at(&mut store, "alice", &draft("bookA", "p2", "20.5", "tablet"), 2).unwrap();
    let back = get_progress(&store, "alice", "bookA").unwrap();
    assert_eq!(back.progress, "p2");
    assert_eq!(back.percentage, "20.5");
    assert_eq!(back.device, "tablet");
    assert_eq!(back.timestamp, Some(2));
}

#[test]
fn records_are_per_user_and_per_document() {
    let mut store = Store::new();
    create_user(&mut store, &req("alice", "secret1")).unwrap();
    create_user(&mut store, &req("bob", "secret2")).unwrap();
    update_progress_at(&mut store, "alice", &draft("bookA", "pa", "10", "phone"), 1).unwrap();
    update_progress_at(&mut store, "bob", &draft("bookA", "pb", "90", "tablet"), 2).unwrap();
    assert_eq!(get_progress(&store, "alice", "bookA").unwrap().progress, "pa");
    assert_eq!(get_progress(&store, "bob", "bookA").unwrap().progress, "pb");
    assert_eq!(get_progress(&store, "alice", "bookB").unwrap().progress, "");
}

#[test]
fn boundary_percentages_through_update() {
    let mut store = Store::new();
    create_user(&mut store, &req("alice", "secret1")).unwrap();
    assert!(update_progress_at(&mut store, "alice", &draft("b", "p", "0.0", "d"), 1).is_ok());
    assert!(update_progress_at(&mut store, "alice", &draft("b", "p", "100.0", "d"), 1).is_ok());
    match update_progress_at(&mut store, "alice", &draft("b", "p", "-0.0001", "d"), 1) {
        Err(Error::InvalidField(f)) => assert_eq!(f, "percentage"),
        _ => panic!("expected InvalidField(percentage)"),
    }
    match update_progress_at(&mut store, "alice", &draft("b", "p", "100.0001", "d"), 1) {
        Err(Error::InvalidField(f)) => assert_eq!(f, "percentage"),
        _ => panic!("expected InvalidField(percentage)"),
    }
}

#[test]
fn secret_is_immutable_via_creation() {
    let mut store = Store::new();
    create_user(&mut store, &req("alice", "secret1")).unwrap();
    // a second creation conflicts and must not overwrite the secret
    assert!(create_user(&mut store, &req("alice", "other")).is_err());
    assert!(authorize(&store, Some("alice".to_string()), Some("secret1".to_string())).is_ok());
    assert!(authorize(&store, Some("alice".to_string()), Some("other".to_string())).is_err());
}

#[test]
fn creating_one_account_leaves_others_alone() {
    let mut store = Store::new();
    create_user(&mut store, &req("alice", "secret1")).unwrap();
    create_user(&mut store, &req("bob", "secret2")).unwrap();
    assert!(authorize(&store, Some("alice".to_string()), Some("secret1".to_string())).is_ok());
    assert!(authorize(&store, Some("bob".to_string()), Some("secret2".to_string())).is_ok());
    assert!(authorize(&store, Some("alice".to_string()), Some("secret2".to_string())).is_err());
}

#[test]
fn store_loop_decisions() {
    // the decision functions a network store loop drives
    let ok = check_credentials(Some("alice".to_string()), Some("pw".to_string())).unwrap();
    assert_eq!(ok, ("alice".to_string(), "pw".to_string()));
    assert!(check_credentials(None, Some("pw".to_string())).is_err());
    assert!(check_credentials(Some("a:b".to_string()), Some("pw".to_string())).is_err());
    assert!(check_credentials(Some("alice".to_string()), Some(String::new())).is_err());

    let supplied = "pw".to_string();
    assert_eq!(
        check_secret("alice".to_string(), &supplied, Some("pw".to_string())).unwrap(),
        "alice"
    );
    assert!(check_secret("alice".to_string(), &supplied, Some("other".to_string())).is_err());
    assert!(check_secret("alice".to_string(), &supplied, None).is_err());

    assert!(check_user_absent("alice", false).is_ok());
    match check_user_absent("alice", true) {
        Err(Error::UserExists(u)) => assert_eq!(u, "alice"),
        _ => panic!("expected UserExists"),
    }

    assert_eq!(ack_create("alice".to_string(), true).unwrap(), "alice");
    match ack_create("alice".to_string(), false) {
        Err(e) => assert_eq!(e.response(), ("INTERNAL_SERVER_ERROR".to_string(), 500)),
        Ok(_) => panic!("expected Unknown"),
    }
    let stamped = draft("bookA", "p42", "37.5", "phone");
    assert_eq!(ack_update(stamped, true).unwrap().document, "bookA");
    let stamped = draft("bookA", "p42", "37.5", "phone");
    assert!(ack_update(stamped, false).is_err());
}
