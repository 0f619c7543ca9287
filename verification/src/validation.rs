//! Request-payload validation, done before anything touches storage.
//!
//! Email syntax is judged by the validator crate (HTML5 rules); that
//! verdict is a deterministic fact of the string, named `email_valid`.
//! Password length and confirmation matching are checked here.

use validator::ValidateEmail;
use vstd::prelude::*;

verus! {

/// Registration request payload.
pub struct SignUpData {
    pub username: String,
    pub email: String,
    pub password: String,
    pub repeat_password: String,
}

/// Login request payload.
pub struct LoginData {
    pub username: String,
    pub password: String,
}

/// Verification-redemption request payload: the token value and where to
/// send the browser on success.
pub struct VerifyData {
    pub verify_key: u128,
    pub redirect: String,
}

/// Whether the validator crate accepts this string as an email address.
pub uninterp spec fn email_valid(s: Seq<char>) -> bool;

/// Relies on validator's `ValidateEmail::validate_email` for `&str`: an
/// HTML5-style syntactic check whose outcome depends on the string alone.
#[verifier::external_body]
fn check_email(s: &String) -> (r: bool)
    ensures
        r == email_valid(s@),
{
    s.as_str().validate_email()
}

pub const PASSWORD_MIN_LEN: usize = 8;

pub const PASSWORD_MAX_LEN: usize = 512;

/// A registration payload is valid when the email is syntactically an
/// address, the password length is within bounds, and the confirmation
/// matches the password exactly.
pub open spec fn signup_valid(d: SignUpData) -> bool {
    &&& email_valid(d.email@)
    &&& PASSWORD_MIN_LEN <= d.password@.len() <= PASSWORD_MAX_LEN
    &&& d.repeat_password@ == d.password@
}

/// A login payload is valid when the password length is within bounds.
pub open spec fn login_valid(d: LoginData) -> bool {
    PASSWORD_MIN_LEN <= d.password@.len() <= PASSWORD_MAX_LEN
}

/// Judge a registration payload; `true` exactly on valid ones.
pub fn validate_signup(d: &SignUpData) -> (r: bool)
    ensures
        r == signup_valid(*d),
{
    let email_ok = check_email(&d.email);
    let len = d.password.as_str().unicode_len();
    let len_ok = PASSWORD_MIN_LEN <= len && len <= PASSWORD_MAX_LEN;
    let confirm_ok = d.repeat_password == d.password;
    email_ok && len_ok && confirm_ok
}

/// Judge a login payload; `true` exactly on valid ones.
pub fn validate_login(d: &LoginData) -> (r: bool)
    ensures
        r == login_valid(*d),
{
    let len = d.password.as_str().unicode_len();
    PASSWORD_MIN_LEN <= len && len <= PASSWORD_MAX_LEN
}

} // verus!
