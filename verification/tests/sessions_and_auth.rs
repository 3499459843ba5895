use sentinel::auth::{
    generate_session_token, login_user, register_user, user_has_role, validate_session,
    SessionStore, User,
};
use sentinel::crypto::{hash_sha256, verify_argon2id};
use sentinel::work::Work;

#[test]
fn issued_token_validates_immediately() {
    let mut store = SessionStore::new();
    let token = store.issue("alice");
    assert!(store.validate(&token));
    assert!(validate_session(&store, &token));
}

#[test]
fn unissued_token_does_not_validate() {
    let mut store = SessionStore::new();
    let _ = store.issue("alice");
    assert!(!store.validate("random-unissued-token"));
}

#[test]
fn tokens_are_48_characters() {
    let token = generate_session_token();
    assert_eq!(token.chars().count(), 48);
    let mut store = SessionStore::new();
    let issued = store.issue("bob");
    assert_eq!(issued.chars().count(), 48);
}

#[test]
fn tokens_are_alphanumeric() {
    let token = generate_session_token();
    assert!(token.chars().all(|c| c.is_ascii_alphanumeric()));
    let mut store = SessionStore::new();
    let issued = store.issue("bob");
    assert!(issued.chars().all(|c| c.is_ascii_alphanumeric()));
}

#[test]
fn register_with_sha256_hashes_the_password() {
    let user = register_user("carol", "secret", "editor", "saltsalt", false).unwrap();
    assert_eq!(user.username, "carol");
    assert_eq!(user.role, "editor");
    assert_eq!(user.password_hash, hash_sha256("secret"));
}

#[test]
fn sha256_matches_known_digest() {
    assert_eq!(
        hash_sha256("abc"),
        "ba7816bf8f01cfea414140de5dae2223b00361a396177a9cb410ff61f20015ad"
    );
    assert_eq!(hash_sha256("abc"), hash_sha256("abc"));
    assert_ne!(hash_sha256("abc"), hash_sha256("abd"));
}

#[test]
fn register_with_argon2_verifies_roundtrip() {
    let user = register_user("dave", "hunter2", "admin", "saltsalt", true).unwrap();
    assert!(verify_argon2id("hunter2", &user.password_hash));
    assert!(!verify_argon2id("wrong", &user.password_hash));
}

#[test]
fn argon2_hash_is_deterministic_in_password_and_salt() {
    let a = sentinel::crypto::hash_argon2id("pw", "somesalt").unwrap();
    let b = sentinel::crypto::hash_argon2id("pw", "somesalt").unwrap();
    assert_eq!(a, b);
    let c = sentinel::crypto::hash_argon2id("pw", "othersalt").unwrap();
    assert_ne!(a, c);
}

#[test]
fn login_success_records_a_session() {
    let mut store = SessionStore::new();
    let user = register_user("erin", "pw", "user", "saltsalt", false).unwrap();
    let token = login_user(&user, "pw", "saltsalt", false, &mut store).unwrap();
    assert!(store.validate(&token));
    assert_eq!(token.chars().count(), 48);
    assert!(token.chars().all(|c| c.is_ascii_alphanumeric()));
}

#[test]
fn login_failure_leaves_the_store_alone() {
    let mut store = SessionStore::new();
    let user = register_user("frank", "pw", "user", "saltsalt", false).unwrap();
    assert!(login_user(&user, "wrong", "saltsalt", false, &mut store).is_none());
    assert!(!store.validate("anything"));
}

#[test]
fn login_with_argon2_verifies_against_stored_hash() {
    let mut store = SessionStore::new();
    let user = register_user("gabi", "pw", "user", "saltsalt", true).unwrap();
    let token = login_user(&user, "pw", "saltsalt", true, &mut store).unwrap();
    assert!(store.validate(&token));
    assert!(login_user(&user, "nope", "saltsalt", true, &mut store).is_none());
}

#[test]
fn role_check_is_exact_equality() {
    let user = User {
        username: "u".to_string(),
        password_hash: "h".to_string(),
        role: "admin".to_string(),
    };
    assert!(user_has_role(&user, "admin"));
    assert!(!user_has_role(&user, "Admin"));
    assert!(!user_has_role(&user, "user"));
}

#[test]
fn work_orchestrates_registration_login_and_validation() {
    let mut work = Work::new();
    let user = work.register_user("henry", "pw", "staff", "saltsalt", false).unwrap();
    assert!(work.user_has_role(&user, "staff"));
    let token = work.login_user(&user, "pw", "saltsalt", false).unwrap();
    assert!(work.validate_session(&token));
    assert!(!work.validate_session("not-a-token"));
    assert!(work.login_user(&user, "bad", "saltsalt", false).is_none());
}
