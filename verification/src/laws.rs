//! The laws the authentication core answers for, stated over the same spec
//! functions its contracts use and proved once and for all.

use vstd::prelude::*;

use crate::errors::AuthError;
use crate::models::UserRow;
use crate::password::{argon2_accepts, argon2_parses, hash_matches, spec_validate_password};
use crate::service::{spec_login_refusal, spec_resolve};
use crate::store::{
    has_username, lemma_find_member_by_id, lemma_find_member_by_username, spec_find_by_username,
    users_unique,
};
use crate::token::{jwt_payload, payload_active};

verus! {

/// A stored hash the hasher produced for a password verifies against that
/// same password: checking it yields `Ok(true)`, for every password.
pub proof fn lemma_validate_after_hash(stored: Seq<char>, password: Seq<char>)
    requires
        hash_matches(stored, password),
    ensures
        spec_validate_password(stored, password) == Ok::<bool, AuthError>(true),
{
}

/// Within its validity window, a token issued for a stored user resolves to
/// exactly that user, whatever else the store holds.
pub proof fn lemma_resolve_within_window(
    s: Seq<UserRow>,
    key: Seq<u8>,
    token: Seq<char>,
    u: UserRow,
    issued: int,
    expiry: int,
    now: int,
)
    requires
        users_unique(s),
        s.contains(u),
        jwt_payload(key, token) == Some((u.id@, issued, expiry)),
        issued <= now <= expiry,
    ensures
        spec_resolve(s, key, token, now) == Ok::<UserRow, AuthError>(u),
{
    assert(payload_active(jwt_payload(key, token), now));
    lemma_find_member_by_id(s, u);
}

/// Past its expiry, a token resolves to nothing: the service answers with
/// its one outward credential error, never with a user.
pub proof fn lemma_expired_token_rejected(
    s: Seq<UserRow>,
    key: Seq<u8>,
    token: Seq<char>,
    subject: Seq<char>,
    issued: int,
    expiry: int,
    now: int,
)
    requires
        jwt_payload(key, token) == Some((subject, issued, expiry)),
        expiry < now,
    ensures
        spec_resolve(s, key, token, now) == Err::<UserRow, AuthError>(
            AuthError::InvalidCredentials,
        ),
{
    assert(!payload_active(jwt_payload(key, token), now));
}

/// Enumeration resistance: a login under a username nobody has and a login
/// under a stored user's username with a password that does not match are
/// refused with one and the same error.
pub proof fn lemma_login_enumeration_resistance(
    s: Seq<UserRow>,
    unknown: Seq<char>,
    any_password: Seq<char>,
    u: UserRow,
    wrong: Seq<char>,
)
    requires
        users_unique(s),
        !has_username(s, unknown),
        s.contains(u),
        argon2_parses(u.password_hash@),
        !argon2_accepts(u.password_hash@, wrong),
    ensures
        spec_login_refusal(s, unknown, any_password) == Some(AuthError::WrongCredentials),
        spec_login_refusal(s, u.username@, wrong) == Some(AuthError::WrongCredentials),
        spec_login_refusal(s, unknown, any_password) == spec_login_refusal(s, u.username@, wrong),
{
    assert(spec_find_by_username(s, unknown) is None);
    lemma_find_member_by_username(s, u);
}

} // verus!
