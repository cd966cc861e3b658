//! The identity-extraction boundary: locate a credential on an incoming
//! request (bearer header first, then the access-token cookie), resolve it
//! through the authentication service, and describe the reaction the HTTP
//! layer owes the caller on failure — a JSON error body on the API surface,
//! a redirect on the HTML surface.
//!
//! Nothing here touches a request type of any web framework: the caller
//! hands in the already-extracted header and cookie values and the request
//! path, and takes plain values back.

use vstd::prelude::*;

use crate::errors::AuthError;
use crate::models::UserRow;
use crate::service::{resolve, spec_resolve};
use crate::store::CredentialStore;
use crate::token::{SigningKey, MAX_TIMESTAMP_SECS};

verus! {

/// Whether the character sequence starts with the `Bearer ` scheme tag of
/// an authorization header.
pub open spec fn spec_has_bearer_prefix(s: Seq<char>) -> bool {
    s.len() >= 7 && s.subrange(0, 7) == "Bearer "@
}

/// The sequence with a leading `Bearer ` tag removed, and unchanged when
/// the tag is absent.
pub open spec fn spec_strip_bearer(s: Seq<char>) -> Seq<char> {
    if spec_has_bearer_prefix(s) {
        s.subrange(7, s.len() as int)
    } else {
        s
    }
}

/// Strip a leading `Bearer ` scheme tag from a presented credential, if
/// one is there.
pub fn strip_bearer(s: &str) -> (r: String)
    ensures
        r@ == spec_strip_bearer(s@),
{
    if has_bearer_prefix(s) {
        let n = s.unicode_len();
        let rest = s.substring_char(7, n);
        rest.to_owned()
    } else {
        s.to_owned()
    }
}

/// Where the extraction boundary finds a token: the bearer header when one
/// with the proper scheme tag is present, else the cookie, else nowhere —
/// which is the one case with no credential at all.
pub open spec fn spec_extract_token(header: Option<&str>, cookie: Option<&str>) -> Result<
    Seq<char>,
    AuthError,
> {
    match header {
        Some(h) => if spec_has_bearer_prefix(h@) {
            Ok(h@.subrange(7, h@.len() as int))
        } else {
            spec_cookie_token(cookie)
        },
        None => spec_cookie_token(cookie),
    }
}

/// The cookie fallback of `spec_extract_token`.
pub open spec fn spec_cookie_token(cookie: Option<&str>) -> Result<Seq<char>, AuthError> {
    match cookie {
        Some(c) => Ok(c@),
        None => Err(AuthError::MissingCredentials),
    }
}

/// Locate the credential on a request: a bearer `Authorization` header
/// value takes priority; a header without the `Bearer ` tag is ignored in
/// favour of the `access_token` cookie; with neither present the request
/// carries no credential at all.
pub fn extract_token(header: Option<&str>, cookie: Option<&str>) -> (r: Result<String, AuthError>)
    ensures
        r matches Ok(t) ==> spec_extract_token(header, cookie) == Ok::<Seq<char>, AuthError>(t@),
        r matches Err(e) ==> spec_extract_token(header, cookie) == Err::<Seq<char>, AuthError>(e),
{
    if let Some(h) = header {
        if has_bearer_prefix(h) {
            let n = h.unicode_len();
            let rest = h.substring_char(7, n);
            return Ok(rest.to_owned());
        }
    }
    match cookie {
        Some(c) => Ok(c.to_owned()),
        None => Err(AuthError::MissingCredentials),
    }
}

/// Whether a header value starts with the `Bearer ` scheme tag.
fn has_bearer_prefix(s: &str) -> (r: bool)
    ensures
        r == spec_has_bearer_prefix(s@),
{
    let n = s.unicode_len();
    proof {
        reveal_strlit("Bearer ");
    }
    if n >= 7 && s.get_char(0) == 'B' && s.get_char(1) == 'e' && s.get_char(2) == 'a'
        && s.get_char(3) == 'r' && s.get_char(4) == 'e' && s.get_char(5) == 'r' && s.get_char(6)
        == ' ' {
        proof {
            assert(s@.subrange(0, 7) =~= "Bearer "@);
        }
        true
    } else {
        proof {
            if s@.len() >= 7 && s@.subrange(0, 7) == "Bearer "@ {
                assert(s@[0] == s@.subrange(0, 7)[0] && s@[1] == s@.subrange(0, 7)[1] && s@[2]
                    == s@.subrange(0, 7)[2] && s@[3] == s@.subrange(0, 7)[3] && s@[4]
                    == s@.subrange(0, 7)[4] && s@[5] == s@.subrange(0, 7)[5] && s@[6]
                    == s@.subrange(0, 7)[6]);
            }
        }
        false
    }
}

/// Which failure surface a route presents: a JSON error body on the API
/// surface, a redirect on the server-rendered HTML surface.
#[derive(Clone, Copy, Debug, PartialEq, Eq, Structural)]
pub enum Surface {
    Api,
    Html,
}

/// The reaction the HTTP layer owes the caller for a failed request: a JSON
/// error body with a status code, or a redirect to a target path.
pub enum HttpReaction {
    JsonError { code: u16, message: String },
    Redirect { target: String },
}

/// Whether a request path belongs to the API surface: it starts with
/// `/api`.
pub open spec fn spec_is_api_path(path: Seq<char>) -> bool {
    path.len() >= 4 && path.subrange(0, 4) == "/api"@
}

/// The surface a request path selects.
pub open spec fn spec_classify_surface(path: Seq<char>) -> Surface {
    if spec_is_api_path(path) {
        Surface::Api
    } else {
        Surface::Html
    }
}

/// Whether an error is a failure of the presented credential (as opposed to
/// a fault of the system itself): exactly these redirect to the login page
/// on the HTML surface and carry a client-error status on the API surface.
pub open spec fn spec_is_credential_fault(e: AuthError) -> bool {
    e is WrongCredentials || e is MissingCredentials || e is InvalidCredentials
}

/// The HTTP status code an error carries on the API surface.
pub open spec fn spec_status_code(e: AuthError) -> u16 {
    if spec_is_credential_fault(e) {
        400
    } else {
        500
    }
}

/// The redirect target an error selects on the HTML surface: the login page
/// for a credential failure, the error page otherwise.
pub open spec fn spec_redirect_target(e: AuthError) -> Seq<char> {
    if spec_is_credential_fault(e) {
        "/login"@
    } else {
        "/505"@
    }
}

/// The surface a request path selects: paths under `/api` answer JSON,
/// everything else is a server-rendered HTML route.
pub fn classify_surface(path: &str) -> (r: Surface)
    ensures
        r == spec_classify_surface(path@),
{
    let n = path.unicode_len();
    proof {
        reveal_strlit("/api");
    }
    if n >= 4 && path.get_char(0) == '/' && path.get_char(1) == 'a' && path.get_char(2) == 'p'
        && path.get_char(3) == 'i' {
        proof {
            assert(path@.subrange(0, 4) =~= "/api"@);
        }
        Surface::Api
    } else {
        proof {
            if path@.len() >= 4 && path@.subrange(0, 4) == "/api"@ {
                assert(path@[0] == path@.subrange(0, 4)[0] && path@[1] == path@.subrange(0, 4)[1]
                    && path@[2] == path@.subrange(0, 4)[2] && path@[3] == path@.subrange(0, 4)[3]);
            }
        }
        Surface::Html
    }
}

/// The HTTP status code an error carries on the API surface.
pub fn status_code(e: &AuthError) -> (r: u16)
    ensures
        r == spec_status_code(*e),
{
    match e {
        AuthError::WrongCredentials => 400,
        AuthError::MissingCredentials => 400,
        AuthError::InvalidCredentials => 400,
        AuthError::CorruptCredentialStore => 500,
        AuthError::StoreUnavailable => 500,
        AuthError::SigningFailure => 500,
    }
}

/// Turn an authentication error into the reaction its surface owes the
/// caller: on the API surface a JSON error body carrying the error's status
/// code and message, on the HTML surface a redirect — to the login page for
/// a credential failure, to the error page for a fault of the system.
pub fn render_auth_error(surface: Surface, err: &AuthError) -> (r: HttpReaction)
    ensures
        surface is Api ==> (r matches HttpReaction::JsonError { code, message } && code
            == spec_status_code(*err) && message@ == err.spec_message()),
        surface is Html ==> (r matches HttpReaction::Redirect { target } && target@
            == spec_redirect_target(*err)),
{
    match surface {
        Surface::Api => HttpReaction::JsonError { code: status_code(err), message: err.message() },
        Surface::Html => {
            let target = match err {
                AuthError::WrongCredentials => "/login".to_owned(),
                AuthError::MissingCredentials => "/login".to_owned(),
                AuthError::InvalidCredentials => "/login".to_owned(),
                AuthError::CorruptCredentialStore => "/505".to_owned(),
                AuthError::StoreUnavailable => "/505".to_owned(),
                AuthError::SigningFailure => "/505".to_owned(),
            };
            HttpReaction::Redirect { target }
        },
    }
}

/// Resolve the identity behind one incoming request, from its
/// already-extracted header and cookie values: locate the credential, then
/// resolve it through the authentication service.
pub fn resolve_identity(
    store: &CredentialStore,
    key: &SigningKey,
    header: Option<&str>,
    cookie: Option<&str>,
    now_secs: u64,
) -> (r: Result<UserRow, AuthError>)
    requires
        store.wf(),
        now_secs < MAX_TIMESTAMP_SECS,
    ensures
        match spec_extract_token(header, cookie) {
            Err(e) => r == Err::<UserRow, AuthError>(e),
            Ok(tok) => match r {
                Ok(u) => spec_resolve(store@, key@, tok, now_secs as int) matches Ok(su) && u@
                    == su@,
                Err(e) => spec_resolve(store@, key@, tok, now_secs as int) == Err::<
                    UserRow,
                    AuthError,
                >(e),
            },
        },
{
    let token = match extract_token(header, cookie) {
        Ok(t) => t,
        Err(e) => { return Err(e) },
    };
    resolve(store, key, token.as_str(), now_secs)
}

} // verus!
