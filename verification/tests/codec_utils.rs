use metools_backend::digits::{parse_u64, u64_to_dec_string};
use metools_backend::session::{issue_token, validate_token};
use metools_backend::strings::{decode_from_base64_string, encode_to_base64_string};
use metools_backend::tasks::{validate_create_task_data, ValidateCreateTaskDataContext};
use metools_backend::users_controller::UsersError;
use metools_backend::validation::{validate_signup, SignUpData};

const NOW: u64 = 1_700_000_000;

#[test]
fn decimal_rendering_exact_values() {
    assert_eq!(u64_to_dec_string(0), "0");
    assert_eq!(u64_to_dec_string(7), "7");
    assert_eq!(u64_to_dec_string(12345), "12345");
    assert_eq!(u64_to_dec_string(u64::MAX), "18446744073709551615");
}

#[test]
fn decimal_parsing_and_round_trip() {
    assert_eq!(parse_u64("0"), Some(0));
    assert_eq!(parse_u64("0012"), Some(12));
    assert_eq!(parse_u64("18446744073709551615"), Some(u64::MAX));
    assert_eq!(parse_u64("18446744073709551616"), None);
    assert_eq!(parse_u64(""), None);
    assert_eq!(parse_u64("12a"), None);
    assert_eq!(parse_u64("-5"), None);
    for n in [0u64, 1, 9, 10, 99, 1_000_000, u64::MAX] {
        assert_eq!(parse_u64(u64_to_dec_string(n).as_str()), Some(n));
    }
}

#[test]
fn session_token_round_trip_and_window() {
    let secret = String::from("session-signing-key");
    // TTL of 30 minutes.
    let token = issue_token(&String::from("17"), NOW, 30, &secret);
    // One minute before expiry: valid.
    assert_eq!(
        validate_token(&token, &secret, NOW + 30 * 60 - 60),
        Some(String::from("17"))
    );
    // One minute after expiry: rejected.
    assert_eq!(validate_token(&token, &secret, NOW + 30 * 60 + 60), None);
    // At the expiry instant itself: rejected.
    assert_eq!(validate_token(&token, &secret, NOW + 30 * 60), None);
}

#[test]
fn session_token_rejects_tampering_and_wrong_secret() {
    let secret = String::from("session-signing-key");
    let token = issue_token(&String::from("17"), NOW, 30, &secret);
    assert_eq!(validate_token(&token, &String::from("other-key"), NOW), None);
    let mut tampered: Vec<char> = token.chars().collect();
    let last = tampered.len() - 1;
    tampered[last] = if tampered[last] == 'A' { 'B' } else { 'A' };
    let tampered: String = tampered.into_iter().collect();
    assert_eq!(validate_token(&tampered, &secret, NOW), None);
    assert_eq!(validate_token(&String::from("garbage"), &secret, NOW), None);
}

#[test]
fn base64_exact_value_and_round_trip() {
    assert_eq!(encode_to_base64_string(String::from("foo")), "Zm9v");
    assert_eq!(
        decode_from_base64_string(String::from("Zm9v")),
        Some(String::from("foo"))
    );
    let original = String::from("users:abc/123?x=y");
    let encoded = encode_to_base64_string(original.clone());
    assert_eq!(decode_from_base64_string(encoded), Some(original));
    assert_eq!(decode_from_base64_string(String::from("%%%")), None);
}

#[test]
fn email_validation_through_signup() {
    let valid = SignUpData {
        username: String::from("alice"),
        email: String::from("a@x.com"),
        password: String::from("password1"),
        repeat_password: String::from("password1"),
    };
    assert!(validate_signup(&valid));
    let no_at_sign = SignUpData {
        email: String::from("ax.com"),
        ..valid
    };
    assert!(!validate_signup(&no_at_sign));
}

#[test]
fn task_payload_validation_cases() {
    let day = ValidateCreateTaskDataContext(String::from("day"));
    let train = ValidateCreateTaskDataContext(String::from("train"));
    let unknown = ValidateCreateTaskDataContext(String::from("weekly"));
    let pair = |k: &str, v: &str| (String::from(k), String::from(v));

    let day_data = vec![
        pair("from_point_code", "200000"),
        pair("to_point_code", "200400"),
        pair("date", "2024-05-01"),
    ];
    assert!(validate_create_task_data(&day_data, &day).is_ok());

    let missing_key = vec![
        pair("from_point_code", "200000"),
        pair("to_point_code", "200400"),
        pair("when", "2024-05-01"),
    ];
    let e = validate_create_task_data(&missing_key, &day).err().unwrap();
    assert_eq!(e.code, "bad_task_data");

    let too_many = vec![
        pair("from_point_code", "200000"),
        pair("to_point_code", "200400"),
        pair("date", "2024-05-01"),
        pair("extra", "x"),
    ];
    assert!(validate_create_task_data(&too_many, &day).is_err());

    let train_data = vec![
        pair("from_point_code", "200000"),
        pair("to_point_code", "200400"),
        pair("date", "2024-05-01"),
        pair("time", "12:30"),
        pair("tnum", "617"),
    ];
    assert!(validate_create_task_data(&train_data, &train).is_ok());
    assert_eq!(
        validate_create_task_data(&day_data, &train).err().unwrap().code,
        "bad_task_data"
    );
    assert_eq!(
        validate_create_task_data(&day_data, &unknown).err().unwrap().code,
        "unknown_task_type"
    );
}

#[test]
fn error_bodies_are_stable() {
    let e = UsersError::UnknownError;
    assert_eq!(e.status_code(), 500);
    let body = e.error_response();
    assert_eq!(body.status, "unknown_error");
    assert_eq!(body.error, "Unknown error");

    let e = UsersError::InvalidInputData;
    let body = e.error_response();
    assert_eq!(body.status, "invalid_data");
    assert_eq!(body.error, "Invalid input data");
}

#[test]
fn password_length_bounds() {
    let base = SignUpData {
        username: String::from("alice"),
        email: String::from("a@x.com"),
        password: String::from("p").repeat(8),
        repeat_password: String::from("p").repeat(8),
    };
    assert!(validate_signup(&base));
    let at_max = SignUpData {
        password: String::from("p").repeat(512),
        repeat_password: String::from("p").repeat(512),
        ..base
    };
    assert!(validate_signup(&at_max));
    let over_max = SignUpData {
        username: String::from("alice"),
        email: String::from("a@x.com"),
        password: String::from("p").repeat(513),
        repeat_password: String::from("p").repeat(513),
    };
    assert!(!validate_signup(&over_max));
    let under_min = SignUpData {
        username: String::from("alice"),
        email: String::from("a@x.com"),
        password: String::from("p").repeat(7),
        repeat_password: String::from("p").repeat(7),
    };
    assert!(!validate_signup(&under_min));
}
