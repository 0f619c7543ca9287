use metools_backend::middlewares::{auth_error_response, auth_status_code, authenticate_request, AuthOutcome};
use metools_backend::store::{CredentialStore, UsersDBError, VerifyTokensDBError};
use metools_backend::users_controller::{login, me, signup, verify_user, UsersError};
use metools_backend::users_service::{UsersService, UsersServiceError};
use metools_backend::validation::{LoginData, SignUpData, VerifyData};

const NOW: u64 = 1_700_000_000;
const DAY: u64 = 86_400;

fn fresh_service() -> UsersService {
    UsersService::init(CredentialStore::new())
}

fn registered_service(token_value: u128) -> (UsersService, u64) {
    let mut service = fresh_service();
    let pending = service
        .register_user(
            String::from("alice"),
            String::from("a@x.com"),
            String::from("password1"),
            token_value,
            NOW,
        )
        .unwrap();
    let user = service.commit_registration(pending, true).unwrap();
    (service, user.id)
}

#[test]
fn register_yields_unverified_user() {
    let (service, user_id) = registered_service(7);
    assert_eq!(service.get_user_is_verified(user_id).unwrap(), false);
    let user = service.get_user_by_id(user_id).unwrap();
    assert_eq!(user.username, "alice");
    assert_eq!(user.email, "a@x.com");
    assert_eq!(user.role, "user");
    assert_eq!(user.created_at, NOW);
    // The stored credential is a salted hash, never the plaintext.
    assert_ne!(user.password, "password1");
}

#[test]
fn register_duplicate_username_conflicts() {
    let (service, _) = registered_service(7);
    let r = service.register_user(
        String::from("alice"),
        String::from("other@x.com"),
        String::from("password2"),
        8,
        NOW,
    );
    assert_eq!(
        r.err().unwrap(),
        UsersServiceError::UsersDBError(UsersDBError::Conflict)
    );
}

#[test]
fn register_duplicate_email_conflicts() {
    let (service, _) = registered_service(7);
    let r = service.register_user(
        String::from("bob"),
        String::from("a@x.com"),
        String::from("password2"),
        8,
        NOW,
    );
    assert_eq!(
        r.err().unwrap(),
        UsersServiceError::UsersDBError(UsersDBError::Conflict)
    );
}

#[test]
fn register_duplicate_token_value_conflicts() {
    let (mut service, _) = registered_service(7);
    let pending = service
        .register_user(
            String::from("bob"),
            String::from("b@x.com"),
            String::from("password2"),
            7,
            NOW,
        );
    assert_eq!(
        pending.err().unwrap(),
        UsersServiceError::VerifyTokensDBError(VerifyTokensDBError::Conflict)
    );
    // A fresh value goes through.
    let pending = service
        .register_user(
            String::from("bob"),
            String::from("b@x.com"),
            String::from("password2"),
            8,
            NOW,
        )
        .unwrap();
    service.commit_registration(pending, true).unwrap();
}

#[test]
fn notifier_failure_rolls_registration_back() {
    let mut service = fresh_service();
    let pending = service
        .register_user(
            String::from("alice"),
            String::from("a@x.com"),
            String::from("password1"),
            7,
            NOW,
        )
        .unwrap();
    let r = service.commit_registration(pending, false);
    assert_eq!(r.err().unwrap(), UsersServiceError::UnknownError);
    // No user row persisted...
    assert_eq!(
        service
            .authenticate_user(&String::from("alice"), &String::from("password1"))
            .err()
            .unwrap(),
        UsersServiceError::InvalidUserPassword
    );
    // ...and no verify-token row either: the same username and token value
    // register cleanly afterwards.
    let pending = service
        .register_user(
            String::from("alice"),
            String::from("a@x.com"),
            String::from("password1"),
            7,
            NOW,
        )
        .unwrap();
    service.commit_registration(pending, true).unwrap();
}

#[test]
fn authenticate_accepts_only_the_right_password() {
    let (service, _) = registered_service(7);
    let user = service
        .authenticate_user(&String::from("alice"), &String::from("password1"))
        .unwrap();
    assert_eq!(user.username, "alice");
    let wrong_password = service
        .authenticate_user(&String::from("alice"), &String::from("password2"))
        .err()
        .unwrap();
    let unknown_user = service
        .authenticate_user(&String::from("bob"), &String::from("password1"))
        .err()
        .unwrap();
    // The two failures are indistinguishable.
    assert_eq!(wrong_password, UsersServiceError::InvalidUserPassword);
    assert_eq!(unknown_user, UsersServiceError::InvalidUserPassword);
}

#[test]
fn redeem_succeeds_once_then_not_found() {
    let (mut service, user_id) = registered_service(42);
    service.verify_user(42, NOW + 60).unwrap();
    assert!(service.get_user_is_verified(user_id).unwrap());
    let second = service.verify_user(42, NOW + 120);
    assert_eq!(
        second.err().unwrap(),
        UsersServiceError::VerifyTokensDBError(VerifyTokensDBError::VerifyTokenNotFound)
    );
}

#[test]
fn expired_token_is_never_redeemable() {
    let (mut service, user_id) = registered_service(42);
    // The token expires one day after issuance.
    let r = service.verify_user(42, NOW + DAY);
    assert_eq!(
        r.err().unwrap(),
        UsersServiceError::VerifyTokensDBError(VerifyTokensDBError::VerifyTokenNotFound)
    );
    assert_eq!(service.get_user_is_verified(user_id).unwrap(), false);
}

#[test]
fn unknown_token_is_not_found() {
    let (mut service, _) = registered_service(42);
    let r = service.verify_user(43, NOW + 60);
    assert_eq!(
        r.err().unwrap(),
        UsersServiceError::VerifyTokensDBError(VerifyTokensDBError::VerifyTokenNotFound)
    );
}

#[test]
fn sweep_removes_exactly_expired_tokens() {
    let mut service = fresh_service();
    // Three registrations at different instants: their tokens expire at
    // NOW + DAY, NOW + 2 * DAY and NOW + 3 * DAY.
    for (i, (name, mail)) in [("a", "a@x.com"), ("b", "b@x.com"), ("c", "c@x.com")]
        .iter()
        .enumerate()
    {
        let pending = service
            .register_user(
                String::from(*name),
                String::from(*mail),
                String::from("password1"),
                (i + 1) as u128,
                NOW + (i as u64) * DAY,
            )
            .unwrap();
        service.commit_registration(pending, true).unwrap();
    }
    // At NOW + 2 * DAY the first two tokens are expired, the third is not.
    let removed = service.sweep_expired_verify_tokens(NOW + 2 * DAY);
    assert_eq!(removed, 2);
    // The survivor is still redeemable; the swept ones are gone.
    assert!(service.verify_user(1, NOW + 2 * DAY).is_err());
    assert!(service.verify_user(2, NOW + 2 * DAY).is_err());
    service.verify_user(3, NOW + 2 * DAY).unwrap();
    // A second sweep finds nothing more to do.
    assert_eq!(service.sweep_expired_verify_tokens(NOW + 2 * DAY), 0);
}

#[test]
fn request_authenticator_cases() {
    let (mut service, user_id) = registered_service(42);
    let secret = String::from("session-signing-key");
    let token = login(
        &service,
        &LoginData {
            username: String::from("alice"),
            password: String::from("password1"),
        },
        &secret,
        30,
        NOW,
    )
    .unwrap();

    // No credential: 401.
    let no_credential = authenticate_request(&service, None, &secret, NOW);
    assert!(matches!(no_credential, AuthOutcome::Unauthorized));
    assert_eq!(auth_status_code(&no_credential), 401);
    let body = auth_error_response(&no_credential).unwrap();
    assert_eq!(body.status, "unauthorized");
    assert_eq!(body.error, "Unauthorized");
    // Garbage credential: unauthorized.
    assert!(matches!(
        authenticate_request(&service, Some(&String::from("not.a.token")), &secret, NOW),
        AuthOutcome::Unauthorized
    ));
    // Expired credential: unauthorized.
    assert!(matches!(
        authenticate_request(&service, Some(&token), &secret, NOW + 30 * 60),
        AuthOutcome::Unauthorized
    ));
    // Credential signed with another secret: unauthorized.
    assert!(matches!(
        authenticate_request(&service, Some(&token), &String::from("other"), NOW),
        AuthOutcome::Unauthorized
    ));
    // Valid credential, unverified account: 403.
    let unverified = authenticate_request(&service, Some(&token), &secret, NOW + 60);
    assert!(matches!(unverified, AuthOutcome::Forbidden));
    assert_eq!(auth_status_code(&unverified), 403);
    let body = auth_error_response(&unverified).unwrap();
    assert_eq!(body.status, "not_verified");
    assert_eq!(body.error, "User is not verified");
    // Valid credential, verified account: authorized, and the principal
    // resolves to the user through the current-user endpoint.
    service.verify_user(42, NOW + 60).unwrap();
    match authenticate_request(&service, Some(&token), &secret, NOW + 60) {
        AuthOutcome::Authorized(principal) => {
            let user = me(&service, &principal).unwrap();
            assert_eq!(user.id, user_id);
            assert_eq!(user.username, "alice");
            assert!(user.is_verified);
        }
        _ => panic!("expected an authorized principal"),
    }
}

#[test]
fn signup_rejects_invalid_input() {
    let service = fresh_service();
    let bad_email = SignUpData {
        username: String::from("alice"),
        email: String::from("not-an-email"),
        password: String::from("password1"),
        repeat_password: String::from("password1"),
    };
    let short_password = SignUpData {
        username: String::from("alice"),
        email: String::from("a@x.com"),
        password: String::from("short"),
        repeat_password: String::from("short"),
    };
    let mismatch = SignUpData {
        username: String::from("alice"),
        email: String::from("a@x.com"),
        password: String::from("password1"),
        repeat_password: String::from("password2"),
    };
    for data in [bad_email, short_password, mismatch] {
        let r = signup(&service, &data, NOW);
        assert_eq!(r.err().unwrap(), UsersError::InvalidInputData);
        assert_eq!(UsersError::InvalidInputData.status_code(), 400);
    }
}

#[test]
fn login_rejects_invalid_input_and_bad_credentials() {
    let (service, _) = registered_service(7);
    let secret = String::from("session-signing-key");
    let short = LoginData {
        username: String::from("alice"),
        password: String::from("short"),
    };
    assert_eq!(
        login(&service, &short, &secret, 30, NOW).err().unwrap(),
        UsersError::InvalidInputData
    );
    let wrong = LoginData {
        username: String::from("alice"),
        password: String::from("password2"),
    };
    let e = login(&service, &wrong, &secret, 30, NOW).err().unwrap();
    assert_eq!(
        e,
        UsersError::UsersServiceError(UsersServiceError::InvalidUserPassword)
    );
    assert_eq!(e.status_code(), 401);
}

#[test]
fn verification_scenario_end_to_end() {
    // Register alice, redeem her token through the endpoint, and check the
    // redirect; a second call with the same token is 404.
    let mut service = fresh_service();
    let data = SignUpData {
        username: String::from("alice"),
        email: String::from("a@x.com"),
        password: String::from("password1"),
        repeat_password: String::from("password1"),
    };
    let pending = signup(&service, &data, NOW).unwrap();
    assert_eq!(pending.valid_until, NOW + DAY);
    let token_value = pending.token_value;
    let user = service.commit_registration(pending, true).unwrap();
    assert_eq!(user.is_verified, false);

    let query = VerifyData {
        verify_key: token_value,
        redirect: String::from("https://x/ok"),
    };
    let redirect = verify_user(&mut service, &query, NOW + 60).unwrap();
    assert_eq!(redirect, "https://x/ok");
    assert!(service.get_user_is_verified(user.id).unwrap());

    let second = verify_user(&mut service, &query, NOW + 120).err().unwrap();
    assert_eq!(second.status_code(), 404);
    let body = second.error_response();
    assert_eq!(body.status, "not_found");
    assert_eq!(body.error, "Verify token not found");
}

#[test]
fn me_rejects_unknown_principal() {
    let (service, _) = registered_service(7);
    let stranger = metools_backend::middlewares::UserMiddleware {
        user_id: String::from("9999"),
    };
    let e = me(&service, &stranger).err().unwrap();
    assert_eq!(
        e,
        UsersError::UsersServiceError(UsersServiceError::UsersDBError(UsersDBError::UserNotFound))
    );
    assert_eq!(e.status_code(), 500);
}

#[test]
fn sweep_of_empty_store_removes_nothing() {
    let mut service = fresh_service();
    assert_eq!(service.sweep_expired_verify_tokens(NOW), 0);
}

#[test]
fn redeem_at_expiry_boundary() {
    // Live means strictly after `now`: one second before expiry redeems,
    // the expiry instant itself does not.
    let (mut service, _) = registered_service(42);
    assert!(service.verify_user(42, NOW + DAY - 1).is_ok());
    let (mut service, _) = registered_service(43);
    assert!(service.verify_user(43, NOW + DAY).is_err());
}
