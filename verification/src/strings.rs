//! URL-safe base64 transport encoding of strings, as used for values that
//! ride in URLs.
//!
//! The base64 crate does the encoding; both directions are deterministic
//! in their input, named by `b64url_of` and `b64url_decoded`, with the
//! round trip stated where the encoder promises it.

use base64::Engine;
use vstd::prelude::*;

verus! {

/// The URL-safe, unpadded base64 encoding of the string's UTF-8 bytes.
pub uninterp spec fn b64url_of(s: Seq<char>) -> Seq<char>;

/// The string whose UTF-8 bytes the URL-safe base64 text decodes to:
/// `None` when the text is not valid base64 or the bytes are not UTF-8.
pub uninterp spec fn b64url_decoded(s: Seq<char>) -> Option<Seq<char>>;

/// Relies on the base64 crate's `URL_SAFE_NO_PAD` engine: encoding is a
/// function of the input bytes alone, and decoding an encoder output
/// yields the input again.
#[verifier::external_body]
pub fn encode_to_base64_string(s: String) -> (r: String)
    ensures
        r@ == b64url_of(s@),
        b64url_decoded(r@) == Some(s@),
{
    base64::prelude::BASE64_URL_SAFE_NO_PAD.encode(s)
}

/// Relies on the base64 crate's `URL_SAFE_NO_PAD` engine and on UTF-8
/// reading of the decoded bytes; rejected input is reported, never a
/// panic.
#[verifier::external_body]
pub fn decode_from_base64_string(s: String) -> (r: Option<String>)
    ensures
        match r {
            Some(t) => b64url_decoded(s@) == Some(t@),
            None => b64url_decoded(s@) is None,
        },
{
    let bytes = match base64::prelude::BASE64_URL_SAFE_NO_PAD.decode(s) {
        Ok(b) => b,
        Err(_) => return None,
    };
    match String::from_utf8(bytes) {
        Ok(t) => Some(t),
        Err(_) => None,
    }
}

} // verus!
