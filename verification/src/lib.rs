//! Authentication core of a small budgeting service: password hashing and
//! checking, signed time-bounded tokens, a credential store, the login and
//! token-resolution flows, and the per-request identity-extraction boundary.

pub mod boundary;
pub mod errors;
pub mod laws;
pub mod models;
pub mod password;
pub mod responses;
pub mod service;
pub mod store;
pub mod token;

use vstd::prelude::*;

verus! {

/// Token lifetime in seconds: a freshly issued token expires this long
/// after its issue time.
pub const TOKEN_LIFETIME_SECS: u64 = 7200;

} // verus!
