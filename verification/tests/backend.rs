use auth_backend::backend::{authenticate_record, check_username, MemoryBackend};
use auth_backend::error::AppError;
use auth_backend::user::SqlUser;

fn registered_backend(pairs: &[(&str, &str)]) -> MemoryBackend {
    let mut b = MemoryBackend::new();
    for (name, pass) in pairs {
        let u = b
            .add_user(name.to_string(), pass.to_string())
            .expect("registration must not error")
            .expect("registration must yield a user");
        assert_eq!(u.username, *name);
    }
    b
}

#[test]
fn register_then_authenticate_same_credentials() {
    let mut b = MemoryBackend::new();
    let u = b
        .add_user("ab".to_string(), "cd".to_string())
        .expect("no error")
        .expect("a user");
    assert_eq!(u.username, "ab");
    assert_eq!(u.id, 1);

    let u2 = b
        .authenticate(("ab".to_string(), "cd".to_string()))
        .expect("no error")
        .expect("the registered credentials must authenticate");
    assert_eq!(u2.username, "ab");
    assert_eq!(u2.id, u.id);
    assert_eq!(u2.session_auth_hash, u.session_auth_hash);
}

#[test]
fn wrong_password_is_none_not_error() {
    let b = registered_backend(&[("alice", "correct horse")]);
    let r = b
        .authenticate(("alice".to_string(), "battery staple".to_string()))
        .expect("a wrong password is not an error");
    assert!(r.is_none());
}

#[test]
fn unknown_username_is_none_not_error() {
    let b = registered_backend(&[("alice", "correct horse")]);
    let r = b
        .authenticate(("nobody".to_string(), "anything".to_string()))
        .expect("an unknown username is not an error");
    assert!(r.is_none());
}

#[test]
fn get_user_twice_yields_identical_session_hash() {
    let b = registered_backend(&[("carol", "pw-zero")]);
    let id = "carol".to_string();
    let first = b.get_user(&id).expect("no error").expect("carol exists");
    let second = b.get_user(&id).expect("no error").expect("carol exists");
    assert_eq!(first.session_auth_hash, second.session_auth_hash);
    assert_eq!(first, second);
}

#[test]
fn authenticate_and_get_user_agree_on_session_hash() {
    let b = registered_backend(&[("dave", "pw-one")]);
    let authed = b
        .authenticate(("dave".to_string(), "pw-one".to_string()))
        .expect("no error")
        .expect("authenticates");
    let fetched = b
        .get_user(&"dave".to_string())
        .expect("no error")
        .expect("exists");
    assert_eq!(authed.session_auth_hash, fetched.session_auth_hash);
    assert_eq!(authed.id, fetched.id);
}

#[test]
fn credential_change_invalidates_cached_session_hash() {
    let mut b = registered_backend(&[("alice", "pw1")]);
    let cached = b
        .get_user(&"alice".to_string())
        .expect("no error")
        .expect("exists")
        .session_auth_hash;

    // An out-of-band credential update: the stored hash now corresponds to
    // the password "pw2" (hashed elsewhere, spliced into the record).
    let mut other = MemoryBackend::new();
    other
        .add_user("alice".to_string(), "pw2".to_string())
        .expect("no error")
        .expect("a user");
    b.users[0].pass_hash = other.users[0].pass_hash.clone();

    let fresh = b
        .get_user(&"alice".to_string())
        .expect("no error")
        .expect("exists")
        .session_auth_hash;
    assert_ne!(cached, fresh, "a password change must change the session auth hash");

    // The freshly derived hash matches the new credential state, and the old
    // password no longer authenticates while the new one does.
    let expected = other
        .get_user(&"alice".to_string())
        .expect("no error")
        .expect("exists")
        .session_auth_hash;
    assert_eq!(fresh, expected);
    assert!(b
        .authenticate(("alice".to_string(), "pw1".to_string()))
        .expect("no error")
        .is_none());
    assert!(b
        .authenticate(("alice".to_string(), "pw2".to_string()))
        .expect("no error")
        .is_some());
}

#[test]
fn duplicate_registration_fails_without_overwriting() {
    let mut b = MemoryBackend::new();
    b.add_user("bob".to_string(), "first pw".to_string())
        .expect("no error")
        .expect("a user");
    let second = b.add_user("bob".to_string(), "second pw".to_string());
    match second {
        Err(AppError::Internal(_)) => {}
        other => panic!("a duplicate registration must be a store conflict, got {other:?}"),
    }
    assert_eq!(b.users.len(), 1, "the store must be unchanged");
    // The first record still authenticates; the second password never took.
    assert!(b
        .authenticate(("bob".to_string(), "first pw".to_string()))
        .expect("no error")
        .is_some());
    assert!(b
        .authenticate(("bob".to_string(), "second pw".to_string()))
        .expect("no error")
        .is_none());
}

#[test]
fn one_character_username_is_invalid_two_succeeds() {
    let mut b = MemoryBackend::new();
    match b.add_user("a".to_string(), "password".to_string()) {
        Err(AppError::Invalid(_)) => {}
        other => panic!("a 1-character username must be invalid input, got {other:?}"),
    }
    assert_eq!(b.users.len(), 0);
    let u = b
        .add_user("ab".to_string(), "password".to_string())
        .expect("no error")
        .expect("a 2-character username must succeed");
    assert_eq!(u.username, "ab");
}

#[test]
fn one_character_password_is_invalid_two_succeeds() {
    let mut b = MemoryBackend::new();
    match b.add_user("user".to_string(), "p".to_string()) {
        Err(AppError::Invalid(_)) => {}
        other => panic!("a 1-character password must be invalid input, got {other:?}"),
    }
    let u = b
        .add_user("user".to_string(), "pw".to_string())
        .expect("no error")
        .expect("a 2-character password must succeed");
    assert_eq!(u.username, "user");
}

#[test]
fn corrupt_stored_hash_is_an_internal_error() {
    let mut b = registered_backend(&[("erin", "pw-two")]);
    b.users[0].pass_hash = "not a phc string".to_string();
    match b.get_user(&"erin".to_string()) {
        Err(AppError::Internal(_)) => {}
        other => panic!("a corrupt stored hash must be internal, got {other:?}"),
    }
    match b.authenticate(("erin".to_string(), "pw-two".to_string())) {
        Err(AppError::Internal(_)) => {}
        other => panic!("a corrupt stored hash must be internal, got {other:?}"),
    }
}

#[test]
fn ids_are_assigned_sequentially() {
    let b = registered_backend(&[("u-one", "pw-one"), ("u-two", "pw-two"), ("u-three", "pw-three")]);
    assert_eq!(b.users[0].id, 1);
    assert_eq!(b.users[1].id, 2);
    assert_eq!(b.users[2].id, 3);
    let u = b
        .get_user(&"u-three".to_string())
        .expect("no error")
        .expect("exists");
    assert_eq!(u.id, 3);
}

#[test]
fn stored_hash_is_phc_encoded_and_session_hash_is_the_digest() {
    let b = registered_backend(&[("frank", "pw-three")]);
    let rec = &b.users[0];
    assert!(
        rec.pass_hash.starts_with("$argon2id$"),
        "the stored hash must be a self-describing PHC string, got {}",
        rec.pass_hash
    );
    let u = b
        .get_user(&"frank".to_string())
        .expect("no error")
        .expect("exists");
    // The session auth hash is the raw Argon2 digest (32 bytes under default
    // parameters), not the encoded string.
    assert_eq!(u.session_auth_hash.len(), 32);
    assert_ne!(u.session_auth_hash, rec.pass_hash.clone().into_bytes());
}

#[test]
fn to_user_converts_a_record_and_rejects_a_corrupt_one() {
    let b = registered_backend(&[("grace", "pw-four")]);
    let good = b.users[0].clone();
    let u = good.to_user().expect("an intact record converts");
    assert_eq!(u.username, "grace");
    assert_eq!(u.id, 1);
    assert_eq!(u.session_auth_hash.len(), 32);

    let bad = SqlUser {
        id: 7,
        username: "mallory".to_string(),
        pass_hash: "$argon2id$truncated".to_string(),
    };
    match bad.to_user() {
        Err(AppError::Internal(_)) => {}
        other => panic!("a corrupt record must not convert, got {other:?}"),
    }
}

#[test]
fn authenticate_record_decides_from_the_fetched_row() {
    let b = registered_backend(&[("heidi", "pw-five")]);
    let rec = b.users[0].clone();

    let accepted = authenticate_record(Some(rec.clone()), "pw-five")
        .expect("no error")
        .expect("the right password is accepted");
    assert_eq!(accepted.username, "heidi");
    assert_eq!(accepted.id, rec.id);

    let rejected = authenticate_record(Some(rec.clone()), "pw-wrong").expect("no error");
    assert!(rejected.is_none());

    let missing = authenticate_record(None, "pw-five").expect("no error");
    assert!(missing.is_none());

    let mut corrupt = rec;
    corrupt.pass_hash = "garbage".to_string();
    match authenticate_record(Some(corrupt), "pw-five") {
        Err(AppError::Internal(_)) => {}
        other => panic!("a corrupt row must be internal, got {other:?}"),
    }
}

#[test]
fn check_username_bans_taken_names_and_the_placeholder() {
    assert!(check_username(&"fresh-name".to_string(), false));
    assert!(!check_username(&"fresh-name".to_string(), true));
    assert!(!check_username(&"asdf".to_string(), false));
    assert!(!check_username(&"asdf".to_string(), true));
}
