//! The request authenticator: the guard evaluated once per inbound request
//! before any protected operation.
//!
//! No credential, a malformed or forged or expired token, or a token for a
//! since-deleted user is unauthorized; a resolved but unverified subject is
//! forbidden; only a resolved verified subject passes, as a typed
//! principal handed to the handler.

use vstd::prelude::*;

use crate::digits::parse_u64;
use crate::digits::parse_u64_spec;
use crate::users_controller::ErrorResponse;
use crate::session::spec_validate_token;
use crate::session::validate_token;
use crate::store::user_id_present;
use crate::users_service::UsersService;

verus! {

/// The authenticated principal: the resolved subject id, as carried in the
/// session token.
pub struct UserMiddleware {
    pub user_id: String,
}

/// Outcome of the per-request guard.
pub enum AuthOutcome {
    /// A verified subject was resolved; protected handlers receive it.
    Authorized(UserMiddleware),
    /// No credential, an invalid or expired one, or no such user.
    Unauthorized,
    /// A valid credential for an unverified account.
    Forbidden,
}

/// The subject a request resolves to, if any: the token must be present,
/// check out under the secret, not be expired at `now`, carry a numeric
/// subject, and that subject must be a stored user. The pair is the
/// numeric id and its text as carried in the token.
pub open spec fn resolved_subject(
    users: Seq<crate::store::UserReturn>,
    token: Option<Seq<char>>,
    secret: Seq<char>,
    now: u64,
) -> Option<(u64, Seq<char>)> {
    match token {
        Option::None => Option::None,
        Option::Some(t) => match spec_validate_token(t, secret, now) {
            Option::None => Option::None,
            Option::Some(sub) => match parse_u64_spec(sub) {
                Option::None => Option::None,
                Option::Some(uid) => if user_id_present(users, uid) {
                    Option::Some((uid, sub))
                } else {
                    Option::None
                },
            },
        },
    }
}

/// The view of the optional header value.
pub open spec fn token_view(token: Option<&String>) -> Option<Seq<char>> {
    match token {
        Option::None => Option::None,
        Option::Some(t) => Option::Some(t@),
    }
}

/// Evaluate the guard: exactly one token validation and at most one store
/// lookup. Unauthorized exactly when no subject resolves; otherwise the
/// decision follows the resolved user's verified flag.
pub fn authenticate_request(
    service: &UsersService,
    token: Option<&String>,
    secret: &String,
    now: u64,
) -> (r: AuthOutcome)
    ensures
        match r {
            AuthOutcome::Unauthorized => resolved_subject(
                service.users(),
                token_view(token),
                secret@,
                now,
            ) is None,
            AuthOutcome::Forbidden => {
                let s = resolved_subject(service.users(), token_view(token), secret@, now);
                &&& s is Some
                &&& exists|i: int|
                    0 <= i < service.users().len() && (#[trigger] service.users()[i]).id
                        == s->Some_0.0 && !service.users()[i].is_verified
            },
            AuthOutcome::Authorized(m) => {
                let s = resolved_subject(service.users(), token_view(token), secret@, now);
                &&& s is Some
                &&& m.user_id@ == s->Some_0.1
                &&& exists|i: int|
                    0 <= i < service.users().len() && (#[trigger] service.users()[i]).id
                        == s->Some_0.0 && service.users()[i].is_verified
            },
        },
{
    let t = match token {
        Some(t) => t,
        None => {
            return AuthOutcome::Unauthorized;
        },
    };
    let sub = match validate_token(t, secret, now) {
        Some(s) => s,
        None => {
            return AuthOutcome::Unauthorized;
        },
    };
    let uid = match parse_u64(sub.as_str()) {
        Some(u) => u,
        None => {
            return AuthOutcome::Unauthorized;
        },
    };
    match service.get_user_is_verified(uid) {
        Ok(true) => AuthOutcome::Authorized(UserMiddleware { user_id: sub }),
        Ok(false) => AuthOutcome::Forbidden,
        Err(_) => AuthOutcome::Unauthorized,
    }
}

/// The HTTP status each outcome maps to: 200 for an authorized
/// principal, 401 for anything unauthorized, 403 for an unverified
/// account.
pub open spec fn spec_auth_status_code(r: AuthOutcome) -> u16 {
    match r {
        AuthOutcome::Authorized(_) => 200,
        AuthOutcome::Unauthorized => 401,
        AuthOutcome::Forbidden => 403,
    }
}

/// Map an outcome to its HTTP status.
pub fn auth_status_code(r: &AuthOutcome) -> (code: u16)
    ensures
        code == spec_auth_status_code(*r),
{
    match r {
        AuthOutcome::Authorized(_) => 200,
        AuthOutcome::Unauthorized => 401,
        AuthOutcome::Forbidden => 403,
    }
}

/// The stable response body for a refused request; an authorized one gets
/// none.
pub fn auth_error_response(r: &AuthOutcome) -> (body: Option<ErrorResponse>)
    ensures
        match r {
            AuthOutcome::Authorized(_) => body is None,
            AuthOutcome::Unauthorized => body is Some && body->0.status@ == "unauthorized"@
                && body->0.error@ == "Unauthorized"@,
            AuthOutcome::Forbidden => body is Some && body->0.status@ == "not_verified"@
                && body->0.error@ == "User is not verified"@,
        },
{
    proof {
        reveal_strlit("unauthorized");
        reveal_strlit("Unauthorized");
        reveal_strlit("not_verified");
        reveal_strlit("User is not verified");
    }
    match r {
        AuthOutcome::Authorized(_) => None,
        AuthOutcome::Unauthorized => Some(
            ErrorResponse { status: "unauthorized".to_owned(), error: "Unauthorized".to_owned() },
        ),
        AuthOutcome::Forbidden => Some(
            ErrorResponse {
                status: "not_verified".to_owned(),
                error: "User is not verified".to_owned(),
            },
        ),
    }
}

} // verus!
