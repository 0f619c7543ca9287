//! Endpoint decision logic for the account surface: signup, login,
//! verification redemption and the current-user lookup, plus the mapping
//! of every error to its HTTP status code and stable response body.
//!
//! These functions compute the decision for each endpoint; what remains
//! around them is transport: reading the request and writing the response.

use vstd::prelude::*;

use crate::digits::dec_rep;
use crate::digits::parse_u64;
use crate::digits::parse_u64_spec;
use crate::digits::u64_to_dec_string;
use crate::middlewares::UserMiddleware;
use crate::session::issue_token;
use crate::session::jwt_claims_of;
use crate::session::jwt_token_of;
use crate::store::email_taken;
use crate::store::live_token_present;
use crate::store::token_value_present;
use crate::store::user_id_present;
use crate::store::username_taken;
use crate::store::UserReturn;
use crate::store::UsersDBError;
use crate::store::VerifyTokensDBError;
use crate::users_service::spec_redeemed;
use crate::users_service::PendingRegistration;
use crate::users_service::UsersService;
use crate::users_service::UsersServiceError;
use crate::users_service::VERIFY_TOKEN_VALIDITY_SECS;
use crate::validation::login_valid;
use crate::validation::signup_valid;
use crate::validation::validate_login;
use crate::validation::validate_signup;
use crate::validation::LoginData;
use crate::validation::SignUpData;
use crate::validation::VerifyData;
use crate::hasher::password_verifies;

verus! {

/// Error surface of the account endpoints.
#[derive(Clone, Copy, PartialEq, Eq, Structural, Debug)]
pub enum UsersError {
    InvalidInputData,
    UsersServiceError(UsersServiceError),
    UnknownError,
}

/// The stable machine-readable body sent with an error.
pub struct ErrorResponse {
    pub status: String,
    pub error: String,
}

/// The HTTP status an error maps to.
pub open spec fn spec_status_code(e: UsersError) -> u16 {
    match e {
        UsersError::InvalidInputData => 400,
        UsersError::UsersServiceError(se) => match se {
            UsersServiceError::UsersDBError(_) => 500,
            UsersServiceError::VerifyTokensDBError(te) => match te {
                VerifyTokensDBError::VerifyTokenNotFound => 404,
                VerifyTokensDBError::Conflict => 500,
            },
            UsersServiceError::InvalidUserPassword => 401,
            UsersServiceError::UnknownError => 500,
        },
        UsersError::UnknownError => 500,
    }
}

impl UsersError {
    /// Map to the HTTP status: 400 for rejected input, 401 for bad
    /// credentials, 404 for an unknown or expired verify token, 500 for
    /// everything unexpected.
    pub fn status_code(&self) -> (r: u16)
        ensures
            r == spec_status_code(*self),
    {
        match self {
            UsersError::InvalidInputData => 400,
            UsersError::UsersServiceError(se) => match se {
                UsersServiceError::UsersDBError(_) => 500,
                UsersServiceError::VerifyTokensDBError(te) => match te {
                    VerifyTokensDBError::VerifyTokenNotFound => 404,
                    VerifyTokensDBError::Conflict => 500,
                },
                UsersServiceError::InvalidUserPassword => 401,
                UsersServiceError::UnknownError => 500,
            },
            UsersError::UnknownError => 500,
        }
    }

    /// The stable response body for this error: a status word and a
    /// human-readable message, never internal detail.
    pub fn error_response(&self) -> (r: ErrorResponse)
        ensures
            *self == UsersError::InvalidInputData ==> r.status@ == "invalid_data"@ && r.error@
                == "Invalid input data"@,
            *self == UsersError::UsersServiceError(UsersServiceError::InvalidUserPassword)
                ==> r.status@ == "invalid_credentials"@ && r.error@ == "Invalid credentials"@,
            *self == UsersError::UsersServiceError(
                UsersServiceError::VerifyTokensDBError(VerifyTokensDBError::VerifyTokenNotFound),
            ) ==> r.status@ == "not_found"@ && r.error@ == "Verify token not found"@,
            spec_status_code(*self) == 500 ==> r.status@ == "unknown_error"@ && r.error@
                == "Unknown error"@,
    {
        proof {
            reveal_strlit("invalid_data");
            reveal_strlit("Invalid input data");
            reveal_strlit("invalid_credentials");
            reveal_strlit("Invalid credentials");
            reveal_strlit("not_found");
            reveal_strlit("Verify token not found");
            reveal_strlit("unknown_error");
            reveal_strlit("Unknown error");
        }
        match self {
            UsersError::InvalidInputData => ErrorResponse {
                status: "invalid_data".to_owned(),
                error: "Invalid input data".to_owned(),
            },
            UsersError::UsersServiceError(UsersServiceError::InvalidUserPassword) => ErrorResponse {
                status: "invalid_credentials".to_owned(),
                error: "Invalid credentials".to_owned(),
            },
            UsersError::UsersServiceError(
                UsersServiceError::VerifyTokensDBError(VerifyTokensDBError::VerifyTokenNotFound),
            ) => ErrorResponse {
                status: "not_found".to_owned(),
                error: "Verify token not found".to_owned(),
            },
            _ => ErrorResponse {
                status: "unknown_error".to_owned(),
                error: "Unknown error".to_owned(),
            },
        }
    }
}

/// The signup endpoint's decision: reject invalid payloads before touching
/// storage, then draw a fresh token value and stage the registration. The
/// caller delivers the verification mail and commits.
pub fn signup(service: &UsersService, data: &SignUpData, now: u64) -> (r: Result<
    PendingRegistration,
    UsersError,
>)
    requires
        now + VERIFY_TOKEN_VALIDITY_SECS <= u64::MAX,
    ensures
        match r {
            Ok(p) => {
                &&& signup_valid(*data)
                &&& !username_taken(service.users(), data.username@)
                &&& !email_taken(service.users(), data.email@)
                &&& !token_value_present(service.tokens(), p.token_value)
                &&& password_verifies(data.password@, p.password_hash@)
                &&& p.username@ == data.username@
                &&& p.email@ == data.email@
                &&& p.valid_until == now + VERIFY_TOKEN_VALIDITY_SECS
                &&& p.created_at == now
            },
            Err(UsersError::InvalidInputData) => !signup_valid(*data),
            Err(UsersError::UsersServiceError(se)) => {
                &&& signup_valid(*data)
                &&& se == UsersServiceError::UsersDBError(UsersDBError::Conflict) ==> (
                username_taken(service.users(), data.username@) || email_taken(
                    service.users(),
                    data.email@,
                ) || !service.user_ids_available())
                &&& se == UsersServiceError::VerifyTokensDBError(VerifyTokensDBError::Conflict)
                    ==> (service.tokens().len() > 0 || !service.token_ids_available())
                &&& (se == UsersServiceError::UnknownError || se
                    == UsersServiceError::UsersDBError(UsersDBError::Conflict) || se
                    == UsersServiceError::VerifyTokensDBError(VerifyTokensDBError::Conflict))
            },
            Err(_) => false,
        },
        (r matches Err(UsersError::InvalidInputData)) <==> !signup_valid(*data),
{
    if !validate_signup(data) {
        return Err(UsersError::InvalidInputData);
    }
    let token_value = match crate::users_service::new_token_value() {
        Ok(v) => v,
        Err(()) => {
            return Err(UsersError::UsersServiceError(UsersServiceError::UnknownError));
        },
    };
    match service.register_user(
        data.username.clone(),
        data.email.clone(),
        data.password.clone(),
        token_value,
        now,
    ) {
        Ok(p) => Ok(p),
        Err(e) => {
            proof {
                if e == UsersServiceError::VerifyTokensDBError(VerifyTokensDBError::Conflict) {
                    if token_value_present(service.tokens(), token_value) {
                        let k = choose|i: int|
                            0 <= i < service.tokens().len() && (#[trigger] service.tokens()[
                                i
                            ]).token == token_value;
                        assert(service.tokens().len() > 0);
                    }
                }
            }
            Err(UsersError::UsersServiceError(e))
        },
    }
}

/// The login endpoint's decision: reject invalid payloads, authenticate,
/// and issue a session token for the authenticated user's id with the
/// configured time to live (in minutes). With a valid payload and good
/// credentials a token is owed; both credential failures — unknown
/// username and wrong password — collapse into the same error.
pub fn login(
    service: &UsersService,
    data: &LoginData,
    secret: &String,
    jwt_maxage: u64,
    now: u64,
) -> (r: Result<String, UsersError>)
    requires
        service.wf(),
        now + jwt_maxage * 60 <= u64::MAX,
    ensures
        (r matches Err(UsersError::InvalidInputData)) <==> !login_valid(*data),
        login_valid(*data) && (exists|i: int|
            0 <= i < service.users().len() && (#[trigger] service.users()[i]).username@
                == data.username@ && password_verifies(
                data.password@,
                service.users()[i].password@,
            )) ==> r is Ok,
        match r {
            Ok(t) => {
                &&& login_valid(*data)
                &&& exists|i: int|
                    {
                        &&& 0 <= i < service.users().len()
                        &&& (#[trigger] service.users()[i]).username@ == data.username@
                        &&& password_verifies(data.password@, service.users()[i].password@)
                        &&& t@ == jwt_token_of(
                            dec_rep(service.users()[i].id as nat),
                            now,
                            (now + jwt_maxage * 60) as u64,
                            secret@,
                        )
                        &&& jwt_claims_of(t@, secret@) == Some(
                            (
                                dec_rep(service.users()[i].id as nat),
                                now,
                                (now + jwt_maxage * 60) as u64,
                            ),
                        )
                    }
            },
            Err(UsersError::InvalidInputData) => !login_valid(*data),
            Err(UsersError::UsersServiceError(se)) => {
                &&& login_valid(*data)
                &&& se == UsersServiceError::InvalidUserPassword
                &&& !(exists|i: int|
                    0 <= i < service.users().len() && (#[trigger] service.users()[i]).username@
                        == data.username@ && password_verifies(
                        data.password@,
                        service.users()[i].password@,
                    ))
            },
            Err(UsersError::UnknownError) => false,
        },
{
    if !validate_login(data) {
        return Err(UsersError::InvalidInputData);
    }
    let user = match service.authenticate_user(&data.username, &data.password) {
        Ok(u) => u,
        Err(_) => {
            return Err(UsersError::UsersServiceError(UsersServiceError::InvalidUserPassword));
        },
    };
    let ghost k = choose|i: int|
        0 <= i < service.users().len() && #[trigger] service.users()[i] == user && user.username@
            == data.username@ && password_verifies(data.password@, user.password@);
    let sub = u64_to_dec_string(user.id);
    let token = issue_token(&sub, now, jwt_maxage, secret);
    proof {
        assert(service.users()[k].username@ == data.username@ && password_verifies(
            data.password@,
            service.users()[k].password@,
        ) && token@ == jwt_token_of(
            dec_rep(service.users()[k].id as nat),
            now,
            (now + jwt_maxage * 60) as u64,
            secret@,
        ));
    }
    Ok(token)
}

/// The verification endpoint's decision: redeem the token and, on
/// success, answer with a redirect to the caller-supplied URL; an unknown
/// or expired token is not found (404 via `status_code`), and nothing is
/// written. A live token whose owner is stored forces the redirect: the
/// only other error requires that live row's owner to be absent.
pub fn verify_user(service: &mut UsersService, query: &VerifyData, now: u64) -> (r: Result<
    String,
    UsersError,
>)
    requires
        old(service).wf(),
    ensures
        final(service).wf(),
        r is Err ==> *final(service) == *old(service),
        match r {
            Ok(url) => {
                &&& url@ == query.redirect@
                &&& !token_value_present(final(service).tokens(), query.verify_key)
                &&& spec_redeemed(
                    old(service).users(),
                    old(service).tokens(),
                    final(service).users(),
                    final(service).tokens(),
                    query.verify_key,
                    now,
                )
            },
            Err(e) => {
                &&& (e == UsersError::UsersServiceError(
                    UsersServiceError::VerifyTokensDBError(
                        VerifyTokensDBError::VerifyTokenNotFound,
                    ),
                ) <==> !live_token_present(old(service).tokens(), query.verify_key, now))
                &&& (e == UsersError::UsersServiceError(
                    UsersServiceError::UsersDBError(UsersDBError::UserNotFound),
                ) ==> exists|ti: int|
                    {
                        &&& 0 <= ti < old(service).tokens().len()
                        &&& (#[trigger] old(service).tokens()[ti]).token == query.verify_key
                        &&& old(service).tokens()[ti].valid_until > now
                        &&& !user_id_present(
                            old(service).users(),
                            old(service).tokens()[ti].user,
                        )
                    })
                &&& (e == UsersError::UsersServiceError(
                    UsersServiceError::VerifyTokensDBError(
                        VerifyTokensDBError::VerifyTokenNotFound,
                    ),
                ) || e == UsersError::UsersServiceError(
                    UsersServiceError::UsersDBError(UsersDBError::UserNotFound),
                ))
            },
        },
{
    match service.verify_user(query.verify_key, now) {
        Ok(()) => Ok(query.redirect.clone()),
        Err(e) => Err(UsersError::UsersServiceError(e)),
    }
}

/// The current-user endpoint's decision: resolve the authenticated
/// principal's id to its stored record.
pub fn me(service: &UsersService, user: &UserMiddleware) -> (r: Result<UserReturn, UsersError>)
    ensures
        match r {
            Ok(u) => {
                &&& parse_u64_spec(user.user_id@) == Some(u.id)
                &&& exists|i: int|
                    0 <= i < service.users().len() && #[trigger] service.users()[i] == u
            },
            Err(e) => {
                &&& e == UsersError::UsersServiceError(
                    UsersServiceError::UsersDBError(UsersDBError::UserNotFound),
                )
                &&& match parse_u64_spec(user.user_id@) {
                    Some(uid) => !user_id_present(service.users(), uid),
                    None => true,
                }
            },
        },
{
    let uid = match parse_u64(user.user_id.as_str()) {
        Some(u) => u,
        None => {
            return Err(
                UsersError::UsersServiceError(
                    UsersServiceError::UsersDBError(UsersDBError::UserNotFound),
                ),
            );
        },
    };
    match service.get_user_by_id(uid) {
        Ok(u) => Ok(u),
        Err(e) => Err(UsersError::UsersServiceError(e)),
    }
}

} // verus!
