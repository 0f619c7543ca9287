//! The session token codec: compact signed claims carrying a subject id,
//! an issued-at time and an expiry, so that no server-side session store
//! is needed.
//!
//! Signing and signature checking are done by the jsonwebtoken crate with
//! a shared secret; both are deterministic in their inputs, so their
//! results are named by `jwt_token_of` and `jwt_claims_of`. The expiry
//! comparison against the caller's clock is done here, in verified code.

use vstd::prelude::*;

verus! {

/// The claims embedded in a session token.
pub struct TokenClaims {
    pub sub: String,
    pub iat: u64,
    pub exp: u64,
}

/// The signed compact token produced for these claims with this secret.
pub uninterp spec fn jwt_token_of(sub: Seq<char>, iat: u64, exp: u64, secret: Seq<char>) -> Seq<
    char,
>;

/// The claims recovered from a compact token under this secret: `None`
/// when the encoding is malformed or the signature does not check out.
pub uninterp spec fn jwt_claims_of(token: Seq<char>, secret: Seq<char>) -> Option<
    (Seq<char>, u64, u64),
>;

/// Relies on jsonwebtoken's `encode` with the default header (HS256) and
/// the secret as the HMAC key, and on its round trip with `decode` under
/// the same secret: decoding a freshly signed token yields its claims.
/// Signing succeeds on every input: the key family always matches the
/// HS256 header, the HMAC accepts a key of any length, and serializing
/// the fixed header and these claims cannot fail.
#[verifier::external_body]
fn jwt_encode(claims: &TokenClaims, secret: &String) -> (r: Result<String, ()>)
    ensures
        r is Ok,
        r is Ok ==> r->Ok_0@ == jwt_token_of(claims.sub@, claims.iat, claims.exp, secret@),
        r is Ok ==> jwt_claims_of(r->Ok_0@, secret@) == Some(
            (claims.sub@, claims.iat, claims.exp),
        ),
{
    let mut m = serde_json::Map::new();
    m.insert(String::from("sub"), serde_json::Value::String(claims.sub.clone()));
    m.insert(String::from("iat"), serde_json::Value::from(claims.iat));
    m.insert(String::from("exp"), serde_json::Value::from(claims.exp));
    let key = jsonwebtoken::EncodingKey::from_secret(secret.as_bytes());
    match jsonwebtoken::encode(&jsonwebtoken::Header::default(), &serde_json::Value::Object(m), &key)
    {
        Ok(t) => Ok(t),
        Err(_) => Err(()),
    }
}

/// Relies on jsonwebtoken's `decode` restricted to HS256, with expiry
/// checking turned off (the caller compares expiry against its own
/// clock): it recovers the signed claims exactly when the token is well
/// formed and the signature matches the secret.
#[verifier::external_body]
fn jwt_decode(token: &String, secret: &String) -> (r: Option<TokenClaims>)
    ensures
        match r {
            Some(c) => jwt_claims_of(token@, secret@) == Some((c.sub@, c.iat, c.exp)),
            None => jwt_claims_of(token@, secret@) is None,
        },
{
    let mut validation = jsonwebtoken::Validation::default();
    validation.validate_exp = false;
    validation.required_spec_claims = std::collections::HashSet::new();
    let key = jsonwebtoken::DecodingKey::from_secret(secret.as_bytes());
    let data = match jsonwebtoken::decode::<serde_json::Value>(token.as_str(), &key, &validation) {
        Ok(d) => d,
        Err(_) => return None,
    };
    let sub = String::from(data.claims.get("sub")?.as_str()?);
    let iat = data.claims.get("iat")?.as_u64()?;
    let exp = data.claims.get("exp")?.as_u64()?;
    Some(TokenClaims { sub, iat, exp })
}

/// What `validate_token` returns: the signed subject if the token checks
/// out under the secret and has not expired by `now`, else nothing.
/// Validation fails exactly on malformed encoding, bad signature, or
/// `exp <= now`.
pub open spec fn spec_validate_token(token: Seq<char>, secret: Seq<char>, now: u64) -> Option<
    Seq<char>,
> {
    match jwt_claims_of(token, secret) {
        Some((sub, iat, exp)) => if exp > now {
            Some(sub)
        } else {
            None
        },
        None => None,
    }
}

/// Sign session claims for `sub`, issued at `now`, expiring `ttl_minutes`
/// later. Issuance always succeeds, and the result decodes back to
/// exactly these claims under the same secret.
pub fn issue_token(sub: &String, now: u64, ttl_minutes: u64, secret: &String) -> (r: String)
    requires
        now + ttl_minutes * 60 <= u64::MAX,
    ensures
        r@ == jwt_token_of(sub@, now, (now + ttl_minutes * 60) as u64, secret@),
        jwt_claims_of(r@, secret@) == Some((sub@, now, (now + ttl_minutes * 60) as u64)),
{
    let claims = TokenClaims { sub: sub.clone(), iat: now, exp: now + ttl_minutes * 60 };
    let token = jwt_encode(&claims, secret);
    token.unwrap()
}

/// Check a presented token against the secret and the caller's clock,
/// returning the subject exactly as `spec_validate_token` says.
pub fn validate_token(token: &String, secret: &String, now: u64) -> (r: Option<String>)
    ensures
        match r {
            Some(sub) => spec_validate_token(token@, secret@, now) == Some(sub@),
            None => spec_validate_token(token@, secret@, now) is None,
        },
{
    match jwt_decode(token, secret) {
        Some(claims) => {
            if claims.exp > now {
                Some(claims.sub)
            } else {
                None
            }
        },
        None => None,
    }
}

/// Validity window of a signed token: while the clock is before the
/// embedded expiry the subject is recovered, from the expiry on the token
/// is rejected — however long it goes unswept.
pub proof fn lemma_validate_window(
    token: Seq<char>,
    secret: Seq<char>,
    sub: Seq<char>,
    iat: u64,
    exp: u64,
    now: u64,
)
    requires
        jwt_claims_of(token, secret) == Some((sub, iat, exp)),
    ensures
        now < exp ==> spec_validate_token(token, secret, now) == Some(sub),
        now >= exp ==> spec_validate_token(token, secret, now) is None,
{
}

} // verus!
