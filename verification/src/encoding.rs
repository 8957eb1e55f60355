//! Trusted boundary to the base64 crate's URL-safe no-padding engine and
//! to std's UTF-8 decoding, with names for their results.

use base64::Engine;
use vstd::prelude::*;
use vstd::utf8::{decode_utf8, valid_utf8};

verus! {

/// What base64's `URL_SAFE_NO_PAD` engine returns when encoding bytes.
pub uninterp spec fn b64u_of(b: Seq<u8>) -> Seq<char>;

/// What base64's `URL_SAFE_NO_PAD` engine returns when decoding text:
/// the bytes, or `None` when the text is not valid base64url.
pub uninterp spec fn b64u_decode_of(s: Seq<char>) -> Option<Seq<u8>>;

/// The base64url alphabet (RFC 4648 §5, unpadded).
pub open spec fn is_b64url_char(c: char) -> bool {
    ('A' <= c && c <= 'Z') || ('a' <= c && c <= 'z') || ('0' <= c && c <= '9') || c == '-' || c
        == '_'
}

/// Relies on base64's `URL_SAFE_NO_PAD.encode`: the output uses only the
/// base64url alphabet and decodes back to the input bytes.
#[verifier::external_body]
pub fn b64u_encode(b: &[u8]) -> (r: String)
    ensures
        r@ == b64u_of(b@),
        b64u_decode_of(r@) == Some(b@),
        forall|i: int| 0 <= i < r@.len() ==> is_b64url_char(#[trigger] r@[i]),
{
    base64::engine::general_purpose::URL_SAFE_NO_PAD.encode(b)
}

/// Relies on base64's `URL_SAFE_NO_PAD.decode`.
#[verifier::external_body]
pub fn b64u_decode(s: &str) -> (r: Option<Vec<u8>>)
    ensures
        r is Some <==> b64u_decode_of(s@) is Some,
        r is Some ==> Some(r->Some_0@) == b64u_decode_of(s@),
{
    match base64::engine::general_purpose::URL_SAFE_NO_PAD.decode(s) {
        Ok(v) => Some(v),
        Err(_) => None,
    }
}

/// Relies on `String::from_utf8`: it succeeds exactly on valid UTF-8 and
/// returns the decoded characters.
#[verifier::external_body]
pub fn utf8_to_string(b: Vec<u8>) -> (r: Option<String>)
    ensures
        r is Some <==> valid_utf8(b@),
        r is Some ==> r->Some_0@ == decode_utf8(b@),
{
    match String::from_utf8(b) {
        Ok(s) => Some(s),
        Err(_) => None,
    }
}

} // verus!
