//! The authentication service: the login flow (look up by username, check
//! the password, issue a token) and the request-authorization flow (verify
//! a presented token, resolve its subject to a stored user).
//!
//! The two flows are deliberately enumeration-resistant: an unknown
//! username and a wrong password yield one and the same error, and the
//! internal token-error kinds collapse into one outward signal.

use vstd::prelude::*;

use crate::boundary::{spec_strip_bearer, strip_bearer};
use crate::errors::AuthError;
use crate::models::{LoginRequest, UserClaims, UserRow};
use crate::password::{spec_validate_password, validate_password};
use crate::store::{spec_find_by_id, spec_find_by_username, CredentialStore};
use crate::token::{
    create_jwt, jwt_payload, payload_active, payload_subject, validate_jwt, SigningKey,
    MAX_TIMESTAMP_SECS,
};
use crate::TOKEN_LIFETIME_SECS;

verus! {

/// Why a login attempt is refused before any token is signed: an unknown
/// username and a wrong password are deliberately the same refusal, and a
/// stored hash that does not parse is a distinct, loud fault. `None` means
/// the credentials are good and only the signing step remains.
pub open spec fn spec_login_refusal(
    s: Seq<UserRow>,
    username: Seq<char>,
    password: Seq<char>,
) -> Option<AuthError> {
    match spec_find_by_username(s, username) {
        None => Some(AuthError::WrongCredentials),
        Some(u) => match spec_validate_password(u.password_hash@, password) {
            Err(e) => Some(e),
            Ok(false) => Some(AuthError::WrongCredentials),
            Ok(true) => None,
        },
    }
}

/// What resolving a presented token against a store comes to: a token that
/// is not accepted at `now` (bad signature, malformed, outside its window)
/// is one outward `InvalidCredentials`; an accepted token whose subject is
/// no longer stored is `WrongCredentials`; otherwise the stored row.
pub open spec fn spec_resolve(
    s: Seq<UserRow>,
    key: Seq<u8>,
    token: Seq<char>,
    now: int,
) -> Result<UserRow, AuthError> {
    if payload_active(jwt_payload(key, token), now) {
        match spec_find_by_id(s, payload_subject(jwt_payload(key, token))) {
            Some(u) => Ok(u),
            None => Err(AuthError::WrongCredentials),
        }
    } else {
        Err(AuthError::InvalidCredentials)
    }
}

impl UserClaims {
    /// The stored user these claims refer to: the subject looked up in the
    /// store, `WrongCredentials` when the user is gone (deleted after the
    /// token was issued).
    pub fn fetch_user(&self, store: &CredentialStore) -> (r: Result<UserRow, AuthError>)
        requires
            store.wf(),
        ensures
            match r {
                Ok(u) => spec_find_by_id(store@, self.id@) matches Some(su) && u@ == su@,
                Err(e) => spec_find_by_id(store@, self.id@) is None && e
                    == AuthError::WrongCredentials,
            },
    {
        match store.find_by_id(&self.id) {
            Some(u) => Ok(u.clone()),
            None => Err(AuthError::WrongCredentials),
        }
    }
}

/// Try to log in: look up the user by username, check the password against
/// the stored hash, and issue a token on success.
///
/// An unknown username and a mismatched password yield the identical
/// `WrongCredentials`; a stored hash that does not parse yields
/// `CorruptCredentialStore`; a signing failure yields `SigningFailure`
/// rather than a panic, and is unreachable with a key of at least 12
/// bytes: good credentials under such a key always get a token.
pub fn login(store: &CredentialStore, key: &SigningKey, req: &LoginRequest, now_secs: u64) -> (r:
    Result<String, AuthError>)
    requires
        store.wf(),
        now_secs + TOKEN_LIFETIME_SECS < MAX_TIMESTAMP_SECS,
    ensures
        r matches Ok(t) ==> spec_login_refusal(store@, req.username@, req.password@) is None && (
        spec_find_by_username(store@, req.username@) matches Some(u) && jwt_payload(key@, t@)
            == Some((u.id@, now_secs as int, now_secs + TOKEN_LIFETIME_SECS))),
        spec_login_refusal(store@, req.username@, req.password@) matches Some(e) ==> r == Err::<
            String,
            AuthError,
        >(e),
        r matches Err(e) ==> spec_login_refusal(store@, req.username@, req.password@) == Some(e)
            || (spec_login_refusal(store@, req.username@, req.password@) is None && e
            == AuthError::SigningFailure),
        key@.len() >= 12 && spec_login_refusal(store@, req.username@, req.password@) is None
            ==> r is Ok,
{
    let user = match store.find_by_username(&req.username) {
        Some(u) => u,
        None => { return Err(AuthError::WrongCredentials) },
    };
    match validate_password(&user.password_hash, &req.password) {
        Err(e) => Err(e),
        Ok(false) => Err(AuthError::WrongCredentials),
        Ok(true) => match create_jwt(key, user, now_secs) {
            Ok(t) => Ok(t),
            Err(_) => Err(AuthError::SigningFailure),
        },
    }
}

/// Resolve a presented token to the stored user it identifies: verify the
/// token at `now_secs`, collapse any token failure into one outward
/// `InvalidCredentials`, and look the subject up in the store.
pub fn resolve(store: &CredentialStore, key: &SigningKey, token: &str, now_secs: u64) -> (r: Result<
    UserRow,
    AuthError,
>)
    requires
        store.wf(),
        now_secs < MAX_TIMESTAMP_SECS,
    ensures
        r matches Ok(u) ==> spec_resolve(store@, key@, token@, now_secs as int) matches Ok(su)
            && u@ == su@,
        r matches Err(e) ==> spec_resolve(store@, key@, token@, now_secs as int) == Err::<
            UserRow,
            AuthError,
        >(e),
{
    let claims = match validate_jwt(key, token, now_secs) {
        Ok(c) => c,
        Err(_) => { return Err(AuthError::InvalidCredentials) },
    };
    match store.find_by_id(&claims.id) {
        Some(u) => Ok(u.clone()),
        None => Err(AuthError::WrongCredentials),
    }
}

/// The request-authorization flow over an optionally presented credential:
/// no token at all is `MissingCredentials`; a presented token has a leading
/// `Bearer ` scheme tag stripped and is then resolved against the store.
pub fn check_token(
    store: &CredentialStore,
    key: &SigningKey,
    token: Option<String>,
    now_secs: u64,
) -> (r: Result<UserRow, AuthError>)
    requires
        store.wf(),
        now_secs < MAX_TIMESTAMP_SECS,
    ensures
        match token {
            None => r == Err::<UserRow, AuthError>(AuthError::MissingCredentials),
            Some(tok) => match r {
                Ok(u) => spec_resolve(store@, key@, spec_strip_bearer(tok@), now_secs as int)
                    matches Ok(su) && u@ == su@,
                Err(e) => spec_resolve(store@, key@, spec_strip_bearer(tok@), now_secs as int)
                    == Err::<UserRow, AuthError>(e),
            },
        },
{
    match token {
        None => Err(AuthError::MissingCredentials),
        Some(tok) => {
            let stripped = strip_bearer(tok.as_str());
            resolve(store, key, stripped.as_str(), now_secs)
        },
    }
}

} // verus!
