//! Password hashing and checking.
//!
//! A plaintext password is hashed with a memory-hard function (Argon2id) under
//! a fresh random salt, and stored as one self-describing PHC-format string.
//! Checking an attempt re-derives the hash from the parameters and salt
//! embedded in the stored string. A stored string that does not parse is a
//! data-integrity fault, reported as `AuthError::CorruptCredentialStore` and
//! never passed off as a wrong password.

use vstd::prelude::*;

use argon2::PasswordHasher;
use argon2::PasswordVerifier;

use crate::errors::{AuthError, HashingError};

verus! {

/// Whether a stored string parses as a PHC-format password hash
/// (`phc::PasswordHash::new` succeeds on it).
pub uninterp spec fn argon2_parses(stored: Seq<char>) -> bool;

/// Whether Argon2, run with the parameters and salt embedded in the stored
/// PHC string, accepts the attempt: the outcome of
/// `Argon2::verify_password`, a function of the two strings alone.
pub uninterp spec fn argon2_accepts(stored: Seq<char>, attempt: Seq<char>) -> bool;

/// What the password hasher guarantees of a stored string it produced for
/// `password`: the string parses back, and verification accepts the same
/// password.
pub open spec fn hash_matches(stored: Seq<char>, password: Seq<char>) -> bool {
    argon2_parses(stored) && argon2_accepts(stored, password)
}

/// The outcome of checking `attempt` against the stored string: a parse
/// failure is a corrupt-store fault, anything else is the hash comparison.
pub open spec fn spec_validate_password(stored: Seq<char>, attempt: Seq<char>) -> Result<
    bool,
    AuthError,
> {
    if argon2_parses(stored) {
        Ok(argon2_accepts(stored, attempt))
    } else {
        Err(AuthError::CorruptCredentialStore)
    }
}

/// Relies on `argon2::Argon2::hash_password` (salted from the system entropy
/// source): on success the returned PHC string parses back with
/// `phc::PasswordHash::new`, and `Argon2::verify_password` accepts the hashed
/// password against it. The salt is random, so nothing more is claimed of
/// the string itself.
#[verifier::external_body]
fn argon2_hash(password: &str) -> (r: Result<String, HashingError>)
    ensures
        r matches Ok(h) ==> hash_matches(h@, password@),
{
    match argon2::Argon2::default().hash_password(password.as_bytes()) {
        Ok(h) => Ok(h.to_string()),
        Err(_) => Err(HashingError::EntropyFailure),
    }
}

/// Relies on `argon2::password_hash::phc::PasswordHash::new` to parse the
/// stored string, and on `argon2::Argon2::verify_password` to recompute the
/// hash over the attempt with the embedded parameters and salt and compare in
/// constant time; both outcomes are functions of the two strings alone.
#[verifier::external_body]
fn argon2_check(stored: &str, attempt: &str) -> (r: Option<bool>)
    ensures
        r is Some <==> argon2_parses(stored@),
        r matches Some(b) ==> b == argon2_accepts(stored@, attempt@),
{
    match argon2::PasswordHash::new(stored) {
        Ok(parsed) => Some(
            argon2::Argon2::default().verify_password(attempt.as_bytes(), &parsed).is_ok(),
        ),
        Err(_) => None,
    }
}

/// Hash a plaintext password under a fresh random salt into one storable
/// PHC-format string. Fails only if the entropy source or the hashing
/// primitive fails.
pub fn hash_password(password: &str) -> (r: Result<String, HashingError>)
    ensures
        r matches Ok(h) ==> hash_matches(h@, password@),
{
    argon2_hash(password)
}

/// Check a plaintext attempt against a stored hash string. A stored string
/// that does not parse yields `AuthError::CorruptCredentialStore`; otherwise
/// the result says whether the attempt matches.
pub fn validate_password(hash: &str, password: &str) -> (r: Result<bool, AuthError>)
    ensures
        r == spec_validate_password(hash@, password@),
{
    match argon2_check(hash, password) {
        Some(b) => Ok(b),
        None => Err(AuthError::CorruptCredentialStore),
    }
}

} // verus!
