//! Error kinds of the authentication core.

use vstd::prelude::*;

verus! {

/// Failure of the password hasher itself: the platform entropy source
/// could not supply a salt, or the hashing primitive rejected its input.
#[derive(Clone, Copy, Debug, PartialEq, Eq, Structural)]
pub enum HashingError {
    EntropyFailure,
}

/// Failure while signing a fresh token. Unreachable once a signing key
/// is held, but kept explicit rather than panicking.
#[derive(Clone, Copy, Debug, PartialEq, Eq, Structural)]
pub enum SigningError {
    SigningFailure,
}

/// Why a presented token was refused. The distinction is internal: at the
/// service boundary all three collapse into `AuthError::InvalidCredentials`
/// so a caller cannot learn which check failed.
#[derive(Clone, Copy, Debug, PartialEq, Eq, Structural)]
pub enum TokenError {
    /// The signature does not verify under the current signing key.
    InvalidToken,
    /// The signature verifies but the expiry timestamp has passed.
    ExpiredToken,
    /// The string does not parse as a token at all.
    MalformedToken,
}

/// Outward error of the authentication service and the extraction boundary.
#[derive(Clone, Copy, Debug, PartialEq, Eq, Structural)]
pub enum AuthError {
    /// Unknown username or wrong password: deliberately one kind, so that a
    /// caller cannot enumerate usernames.
    WrongCredentials,
    /// No token was presented at all.
    MissingCredentials,
    /// A token was presented but failed verification (bad signature,
    /// expired, or malformed; the distinction is never surfaced).
    InvalidCredentials,
    /// A stored password hash does not parse: data corruption, never to be
    /// passed off as a wrong password.
    CorruptCredentialStore,
    /// The credential store cannot be reached.
    StoreUnavailable,
    /// A fresh token could not be signed.
    SigningFailure,
}

impl AuthError {
    /// A short human-readable description, in place of `Display`.
    pub fn message(&self) -> (r: String)
        ensures
            r@ == self.spec_message(),
    {
        match self {
            AuthError::WrongCredentials => "Wrong credentials provided".to_owned(),
            AuthError::MissingCredentials => "Missing access token".to_owned(),
            AuthError::InvalidCredentials => "Invalid access token".to_owned(),
            AuthError::CorruptCredentialStore => "Corrupt credential store".to_owned(),
            AuthError::StoreUnavailable => "Credential store unavailable".to_owned(),
            AuthError::SigningFailure => "Failed to sign token".to_owned(),
        }
    }

    /// The description that `message` returns.
    pub open spec fn spec_message(self) -> Seq<char> {
        match self {
            AuthError::WrongCredentials => "Wrong credentials provided"@,
            AuthError::MissingCredentials => "Missing access token"@,
            AuthError::InvalidCredentials => "Invalid access token"@,
            AuthError::CorruptCredentialStore => "Corrupt credential store"@,
            AuthError::StoreUnavailable => "Credential store unavailable"@,
            AuthError::SigningFailure => "Failed to sign token"@,
        }
    }
}

} // verus!
