use budgetman_auth::errors::AuthError;
use budgetman_auth::models::{LoginRequest, UserIdent, UserRow};
use budgetman_auth::password::hash_password;
use budgetman_auth::service::{check_token, login, resolve};
use budgetman_auth::store::CredentialStore;
use budgetman_auth::token::SigningKey;

const NOW: u64 = 1_700_000_000;

fn store_with_alice() -> CredentialStore {
    let mut store = CredentialStore::new();
    let added = store.add_user(UserRow {
        id: "u1".to_owned(),
        username: "alice".to_owned(),
        password_hash: hash_password("swordfish").expect("hashing failed"),
        admin: false,
    });
    assert!(added);
    store
}

fn request(username: &str, password: &str) -> LoginRequest {
    LoginRequest { username: username.to_owned(), password: password.to_owned() }
}

#[test]
fn login_then_resolve_round_trip() {
    let store = store_with_alice();
    let key = SigningKey::from_secret("a-long-enough-test-secret");
    let token = login(&store, &key, &request("alice", "swordfish"), NOW).expect("login failed");
    let user = resolve(&store, &key, &token, NOW).expect("resolve failed");
    assert_eq!(user.id, "u1");
    assert_eq!(user.username, "alice");
    assert!(!user.admin);
}

#[test]
fn wrong_password_and_unknown_user_yield_the_same_error() {
    let store = store_with_alice();
    let key = SigningKey::from_secret("a-long-enough-test-secret");
    let wrong_password = login(&store, &key, &request("alice", "wrong"), NOW).unwrap_err();
    let unknown_user = login(&store, &key, &request("bob", "x"), NOW).unwrap_err();
    assert_eq!(wrong_password, AuthError::WrongCredentials);
    assert_eq!(unknown_user, AuthError::WrongCredentials);
    assert_eq!(wrong_password, unknown_user);
}

#[test]
fn corrupt_stored_hash_is_reported_loudly() {
    let mut store = CredentialStore::new();
    assert!(store.add_user(UserRow {
        id: "u9".to_owned(),
        username: "mallory".to_owned(),
        password_hash: "garbage".to_owned(),
        admin: false,
    }));
    let key = SigningKey::from_secret("a-long-enough-test-secret");
    assert_eq!(
        login(&store, &key, &request("mallory", "anything"), NOW),
        Err(AuthError::CorruptCredentialStore)
    );
}

#[test]
fn resolve_collapses_token_failures_into_one_signal() {
    let store = store_with_alice();
    let key = SigningKey::from_secret("a-long-enough-test-secret");
    let other = SigningKey::from_secret("second-signing-key-987654321");
    let token = login(&store, &key, &request("alice", "swordfish"), NOW).expect("login failed");
    // Malformed, wrong key, and expired all look alike to the caller.
    assert_eq!(resolve(&store, &key, "junk", NOW).unwrap_err(), AuthError::InvalidCredentials);
    assert_eq!(resolve(&store, &other, &token, NOW).unwrap_err(), AuthError::InvalidCredentials);
    assert_eq!(
        resolve(&store, &key, &token, NOW + 8000).unwrap_err(),
        AuthError::InvalidCredentials
    );
}

#[test]
fn resolve_of_deleted_user_is_wrong_credentials() {
    let store = store_with_alice();
    let key = SigningKey::from_secret("a-long-enough-test-secret");
    let token = login(&store, &key, &request("alice", "swordfish"), NOW).expect("login failed");
    let empty = CredentialStore::new();
    assert_eq!(resolve(&empty, &key, &token, NOW).unwrap_err(), AuthError::WrongCredentials);
}

#[test]
fn check_token_without_credential_is_missing() {
    let store = store_with_alice();
    let key = SigningKey::from_secret("a-long-enough-test-secret");
    assert_eq!(check_token(&store, &key, None, NOW).unwrap_err(), AuthError::MissingCredentials);
}

#[test]
fn check_token_strips_the_bearer_tag() {
    let store = store_with_alice();
    let key = SigningKey::from_secret("a-long-enough-test-secret");
    let token = login(&store, &key, &request("alice", "swordfish"), NOW).expect("login failed");
    let user = check_token(&store, &key, Some(format!("Bearer {}", token)), NOW)
        .expect("bearer credential refused");
    assert_eq!(user.id, "u1");
    let user = check_token(&store, &key, Some(token), NOW).expect("bare credential refused");
    assert_eq!(user.id, "u1");
}

#[test]
fn too_short_a_secret_cannot_sign() {
    // The token primitive refuses keys shorter than 12 bytes, so good
    // credentials still cannot produce a token: the failure is reported,
    // not panicked on.
    let store = store_with_alice();
    let key = SigningKey::from_secret("short");
    assert_eq!(
        login(&store, &key, &request("alice", "swordfish"), NOW),
        Err(AuthError::SigningFailure)
    );
}

#[test]
fn claims_fetch_user_finds_the_subject() {
    let store = store_with_alice();
    let key = SigningKey::from_secret("a-long-enough-test-secret");
    let token = login(&store, &key, &request("alice", "swordfish"), NOW).expect("login failed");
    let claims = budgetman_auth::token::validate_jwt(&key, &token, NOW).expect("verify failed");
    let user = claims.fetch_user(&store).expect("subject not found");
    assert_eq!(user.username, "alice");
    let empty = CredentialStore::new();
    assert_eq!(claims.fetch_user(&empty).unwrap_err(), AuthError::WrongCredentials);
}

#[test]
fn fetch_user_from_both_identities() {
    let store = store_with_alice();
    let by_name = store
        .fetch_user_from(&UserIdent::Username("alice".to_owned()))
        .expect("missing by username");
    assert_eq!(by_name.id, "u1");
    let by_id = store.fetch_user_from(&UserIdent::Id("u1".to_owned())).expect("missing by id");
    assert_eq!(by_id.username, "alice");
    assert!(store.fetch_user_from(&UserIdent::Username("bob".to_owned())).is_none());
    assert!(store.fetch_user_from(&UserIdent::Id("u2".to_owned())).is_none());
}
