use budgetman_auth::errors::AuthError;
use budgetman_auth::password::{hash_password, validate_password};

#[test]
fn hash_verifies_same_password() {
    let stored = hash_password("swordfish").expect("hashing failed");
    assert_eq!(validate_password(&stored, "swordfish"), Ok(true));
}

#[test]
fn hash_rejects_other_password() {
    let stored = hash_password("swordfish").expect("hashing failed");
    assert_eq!(validate_password(&stored, "sw0rdfish"), Ok(false));
    assert_eq!(validate_password(&stored, ""), Ok(false));
}

#[test]
fn empty_password_round_trips() {
    let stored = hash_password("").expect("hashing failed");
    assert_eq!(validate_password(&stored, ""), Ok(true));
    assert_eq!(validate_password(&stored, "x"), Ok(false));
}

#[test]
fn two_hashes_of_one_password_differ_yet_both_verify() {
    let first = hash_password("swordfish").expect("hashing failed");
    let second = hash_password("swordfish").expect("hashing failed");
    assert_ne!(first, second);
    assert_eq!(validate_password(&first, "swordfish"), Ok(true));
    assert_eq!(validate_password(&second, "swordfish"), Ok(true));
}

#[test]
fn malformed_stored_hash_is_a_corrupt_store_fault() {
    assert_eq!(
        validate_password("not-a-phc-string", "swordfish"),
        Err(AuthError::CorruptCredentialStore)
    );
    assert_eq!(validate_password("", "swordfish"), Err(AuthError::CorruptCredentialStore));
}
