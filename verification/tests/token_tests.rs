use budgetman_auth::errors::TokenError;
use budgetman_auth::models::UserRow;
use budgetman_auth::token::{create_jwt, validate_jwt, SigningKey};
use budgetman_auth::TOKEN_LIFETIME_SECS;

fn sample_user() -> UserRow {
    UserRow {
        id: "u1".to_owned(),
        username: "alice".to_owned(),
        password_hash: "unused-here".to_owned(),
        admin: false,
    }
}

#[test]
fn issued_token_verifies_within_window() {
    let key = SigningKey::from_secret("a-long-enough-test-secret");
    let now: u64 = 1_700_000_000;
    let token = create_jwt(&key, &sample_user(), now).expect("signing failed");
    let claims = validate_jwt(&key, &token, now).expect("fresh token refused");
    assert_eq!(claims.id, "u1");
    let later = now + TOKEN_LIFETIME_SECS;
    let claims = validate_jwt(&key, &token, later).expect("token refused at expiry instant");
    assert_eq!(claims.id, "u1");
}

#[test]
fn token_after_expiry_is_expired_never_accepted() {
    let key = SigningKey::from_secret("a-long-enough-test-secret");
    let now: u64 = 1_700_000_000;
    let token = create_jwt(&key, &sample_user(), now).expect("signing failed");
    let after = now + TOKEN_LIFETIME_SECS + 1;
    assert_eq!(validate_jwt(&key, &token, after).err(), Some(TokenError::ExpiredToken));
    let much_later = now + 10 * TOKEN_LIFETIME_SECS;
    assert_eq!(validate_jwt(&key, &token, much_later).err(), Some(TokenError::ExpiredToken));
}

#[test]
fn token_fails_under_another_key() {
    let key1 = SigningKey::from_secret("first-signing-key-0123456789");
    let key2 = SigningKey::from_secret("second-signing-key-987654321");
    let now: u64 = 1_700_000_000;
    let token = create_jwt(&key1, &sample_user(), now).expect("signing failed");
    assert_eq!(validate_jwt(&key2, &token, now).err(), Some(TokenError::InvalidToken));
}

#[test]
fn garbage_token_is_malformed() {
    let key = SigningKey::from_secret("a-long-enough-test-secret");
    let now: u64 = 1_700_000_000;
    assert_eq!(validate_jwt(&key, "", now).err(), Some(TokenError::MalformedToken));
    assert_eq!(
        validate_jwt(&key, "neither.a.token", now).err(),
        Some(TokenError::MalformedToken)
    );
}

#[test]
fn tampered_token_is_refused() {
    let key = SigningKey::from_secret("a-long-enough-test-secret");
    let now: u64 = 1_700_000_000;
    let token = create_jwt(&key, &sample_user(), now).expect("signing failed");
    let mut tampered = token.clone();
    tampered.pop();
    assert!(validate_jwt(&key, &tampered, now).is_err());
}
