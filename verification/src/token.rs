//! Token issue and verification.
//!
//! A token is a signed, time-bounded claims object carrying a subject
//! identifier: signed with a process-wide symmetric key (HMAC-SHA256) at
//! issue time, checked for signature and expiry at verification time.
//!
//! What a token string decodes to under a given key is a function of the key
//! and the string alone; only the comparison of its time window against the
//! current time varies. The current time is therefore an explicit argument
//! everywhere, never read from a clock inside the library.

use vstd::prelude::*;
use vstd::string::StringSliceAdditionalSpecFns;

use jwt_simple::algorithms::MACLike;
use jwt_simple::JWTError;

use crate::errors::{SigningError, TokenError};
use crate::models::{UserClaims, UserRow};
use crate::TOKEN_LIFETIME_SECS;

verus! {

/// Timestamps are held by the token library in a 32.32 fixed-point form, so
/// seconds values at or beyond `1 << 32` saturate; every time handed to it
/// must stay below this bound.
pub const MAX_TIMESTAMP_SECS: u64 = 0x1_0000_0000;

/// What a token string decodes to under a key: `Some((subject, start,
/// expiry))` when the string is a well-formed token whose authentication tag
/// verifies under the key and whose claims carry a subject, where `start` is
/// the instant from which the token counts as issued (its issued-at /
/// not-before instant) and `expiry` the instant up to which it is accepted;
/// `None` otherwise. A function of the key and the string alone.
pub uninterp spec fn jwt_payload(key: Seq<u8>, token: Seq<char>) -> Option<(Seq<char>, int, int)>;

/// Whether a decoded payload exists and its window contains the instant
/// `now`: such a token is accepted at `now`. The window is inclusive at
/// both ends: a token is still accepted at the very second of its expiry,
/// as the token library compares.
pub open spec fn payload_active(p: Option<(Seq<char>, int, int)>, now: int) -> bool {
    p matches Some(t) && t.1 <= now <= t.2
}

/// Whether a decoded payload exists and its window has lapsed by the
/// instant `now`: such a token is reported as expired at `now`.
pub open spec fn payload_lapsed(p: Option<(Seq<char>, int, int)>, now: int) -> bool {
    p matches Some(t) && t.1 <= now && t.2 < now
}

/// The subject a decoded payload carries (meaningful only when the payload
/// exists).
pub open spec fn payload_subject(p: Option<(Seq<char>, int, int)>) -> Seq<char> {
    match p {
        Some(t) => t.0,
        None => Seq::empty(),
    }
}

/// Whether a string has the outer shape of a token: three dot-separated
/// parts, that is, at least two dots. A string without it cannot decode.
pub open spec fn has_jwt_shape(s: Seq<char>) -> bool {
    exists|i: int, j: int| 0 <= i < j < s.len() && s[i] == '.' && s[j] == '.'
}

/// The process-wide signing key: loaded once at startup, immutable
/// afterwards, used for both issuing and verifying tokens.
pub struct SigningKey {
    bytes: Vec<u8>,
}

impl View for SigningKey {
    type V = Seq<u8>;

    closed spec fn view(&self) -> Seq<u8> {
        self.bytes@
    }
}

impl SigningKey {
    /// Build the key from a secret configuration string.
    pub fn from_secret(secret: &str) -> (r: SigningKey)
        ensures
            r@ == secret.spec_bytes(),
    {
        SigningKey { bytes: vstd::slice::slice_to_vec(secret.as_bytes()) }
    }
}

/// Relies on `jwt_simple::algorithms::HS256Key::authenticate`: the returned
/// token carries the given subject and time window in its claims, and its
/// HMAC-SHA256 tag, computed with this key, verifies under the same key.
/// For a key of at least 12 bytes it succeeds: below that floor the
/// primitive refuses the key as too weak, and that refusal is its one
/// failure on these representable claims.
#[verifier::external_body]
fn hs256_sign(key: &SigningKey, subject: &String, now_secs: u64, expires_secs: u64) -> (r: Result<
    String,
    SigningError,
>)
    requires
        now_secs < MAX_TIMESTAMP_SECS,
        expires_secs < MAX_TIMESTAMP_SECS,
    ensures
        r matches Ok(t) ==> jwt_payload(key@, t@) == Some(
            (subject@, now_secs as int, expires_secs as int),
        ),
        r matches Err(e) ==> key@.len() < 12,
{
    let issued = jwt_simple::reexports::coarsetime::Duration::from_secs(now_secs);
    let mut claims = jwt_simple::claims::Claims::create(
        jwt_simple::reexports::coarsetime::Duration::from_secs(0),
    ).with_subject(subject);
    claims.issued_at = Some(issued);
    claims.invalid_before = Some(issued);
    claims.expires_at = Some(jwt_simple::reexports::coarsetime::Duration::from_secs(expires_secs));
    match jwt_simple::algorithms::HS256Key::from_bytes(&key.bytes).authenticate(claims) {
        Ok(t) => Ok(t),
        Err(_) => Err(SigningError::SigningFailure),
    }
}

/// Relies on `jwt_simple::algorithms::HS256Key::verify_token`, run with an
/// artificial verification time and no clock tolerance: it accepts the token
/// and returns its subject exactly when the token decodes under this key and
/// the supplied time lies in the token's window, and reports a lapsed window
/// as expiry. A string without the three-part token shape never decodes and
/// is always reported as malformed.
#[verifier::external_body]
fn hs256_verify(key: &SigningKey, token: &str, now_secs: u64) -> (r: Result<String, TokenError>)
    requires
        now_secs < MAX_TIMESTAMP_SECS,
    ensures
        r matches Ok(id) ==> payload_active(jwt_payload(key@, token@), now_secs as int) && id@
            == payload_subject(jwt_payload(key@, token@)),
        r matches Err(e) ==> !payload_active(jwt_payload(key@, token@), now_secs as int),
        r matches Err(e) && e != TokenError::ExpiredToken ==> !payload_lapsed(
            jwt_payload(key@, token@),
            now_secs as int,
        ),
        r matches Ok(id) ==> has_jwt_shape(token@),
        r matches Err(e) && e != TokenError::MalformedToken ==> has_jwt_shape(token@),
{
    let mut opts = jwt_simple::common::VerificationOptions::default();
    opts.artificial_time = Some(jwt_simple::reexports::coarsetime::Duration::from_secs(now_secs));
    opts.time_tolerance = None;
    opts.max_token_length = None;
    let k = jwt_simple::algorithms::HS256Key::from_bytes(&key.bytes);
    match k.verify_token::<jwt_simple::claims::NoCustomClaims>(token, Some(opts)) {
        Ok(c) => c.subject.ok_or(TokenError::MalformedToken),
        Err(e) => Err(match e.downcast_ref::<JWTError>() {
            Some(JWTError::TokenHasExpired) => TokenError::ExpiredToken,
            Some(JWTError::InvalidAuthenticationTag | JWTError::ClockDrift
                | JWTError::TokenNotValidYet) => TokenError::InvalidToken,
            _ => TokenError::MalformedToken,
        }),
    }
}

/// Issue a token for `user`, valid from `now_secs` for the fixed token
/// lifetime, signed with `key`. Fails only below the signing primitive's
/// 12-byte key floor; with an adequate key it succeeds.
pub fn create_jwt(key: &SigningKey, user: &UserRow, now_secs: u64) -> (r: Result<
    String,
    SigningError,
>)
    requires
        now_secs + TOKEN_LIFETIME_SECS < MAX_TIMESTAMP_SECS,
    ensures
        r matches Ok(t) ==> jwt_payload(key@, t@) == Some(
            (user.id@, now_secs as int, now_secs + TOKEN_LIFETIME_SECS),
        ),
        key@.len() >= 12 ==> r is Ok,
{
    let expires_secs = now_secs + TOKEN_LIFETIME_SECS;
    hs256_sign(key, &user.id, now_secs, expires_secs)
}

/// Verify a token string at the given time under `key`: on success the
/// claims carry exactly the subject embedded in the token, and the time lies
/// in the token's window. A token whose window has lapsed yields
/// `ExpiredToken`; a string without the token shape yields
/// `MalformedToken`; anything else that does not decode under `key` yields
/// another `TokenError`, never success.
pub fn validate_jwt(key: &SigningKey, token: &str, now_secs: u64) -> (r: Result<
    UserClaims,
    TokenError,
>)
    requires
        now_secs < MAX_TIMESTAMP_SECS,
    ensures
        r matches Ok(c) ==> payload_active(jwt_payload(key@, token@), now_secs as int) && c.id@
            == payload_subject(jwt_payload(key@, token@)),
        r is Err ==> !payload_active(jwt_payload(key@, token@), now_secs as int),
        payload_lapsed(jwt_payload(key@, token@), now_secs as int) ==> r == Err::<
            UserClaims,
            TokenError,
        >(TokenError::ExpiredToken),
        !has_jwt_shape(token@) ==> r == Err::<UserClaims, TokenError>(TokenError::MalformedToken),
{
    match hs256_verify(key, token, now_secs) {
        Ok(id) => Ok(UserClaims { id }),
        Err(e) => Err(e),
    }
}

} // verus!
