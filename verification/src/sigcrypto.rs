//! Trusted boundary to jsonwebtoken's signing primitives.
//!
//! `jsonwebtoken::crypto::sign` and `jsonwebtoken::crypto::verify` work on
//! the `header.payload` byte string and the base64url signature segment.
//! HMAC signing is deterministic in (algorithm, secret, message); RSA
//! PKCS#1 v1.5 signing is deterministic in (algorithm, private key,
//! message), and its signature verifies under the key's public half.

use vstd::prelude::*;

use crate::algs::AlgorithmId;
use crate::algs::AlgorithmFamily;
use crate::encoding::b64u_decode_of;
use crate::encoding::is_b64url_char;
use crate::rsakeys::pub_pem_of;
use crate::rsakeys::pub_norm_of;
use crate::rsakeys::rsa_pub_pem_ok;

verus! {

#[verifier::external_type_specification]
pub struct ExJwtAlgorithm(jsonwebtoken::Algorithm);

/// The jsonwebtoken algorithm for each supported algorithm id.
pub open spec fn spec_to_jwt_alg(a: AlgorithmId) -> jsonwebtoken::Algorithm {
    match a {
        AlgorithmId::HS256 => jsonwebtoken::Algorithm::HS256,
        AlgorithmId::HS384 => jsonwebtoken::Algorithm::HS384,
        AlgorithmId::HS512 => jsonwebtoken::Algorithm::HS512,
        AlgorithmId::RS256 => jsonwebtoken::Algorithm::RS256,
        AlgorithmId::RS384 => jsonwebtoken::Algorithm::RS384,
        AlgorithmId::RS512 => jsonwebtoken::Algorithm::RS512,
    }
}

fn to_jwt_alg(a: AlgorithmId) -> (r: jsonwebtoken::Algorithm)
    ensures
        r == spec_to_jwt_alg(a),
{
    match a {
        AlgorithmId::HS256 => jsonwebtoken::Algorithm::HS256,
        AlgorithmId::HS384 => jsonwebtoken::Algorithm::HS384,
        AlgorithmId::HS512 => jsonwebtoken::Algorithm::HS512,
        AlgorithmId::RS256 => jsonwebtoken::Algorithm::RS256,
        AlgorithmId::RS384 => jsonwebtoken::Algorithm::RS384,
        AlgorithmId::RS512 => jsonwebtoken::Algorithm::RS512,
    }
}

/// The base64url signature text that HMAC signing returns, as a function of
/// the algorithm name, the secret's characters and the message.
pub uninterp spec fn hmac_sig(alg: Seq<char>, secret: Seq<char>, msg: Seq<char>) -> Seq<char>;

/// The base64url signature text that RSA PKCS#1 v1.5 signing returns, as a
/// function of the algorithm name, the private key's normalized PEM and the
/// message.
pub uninterp spec fn rsa_sig(alg: Seq<char>, priv_pem: Seq<char>, msg: Seq<char>) -> Seq<char>;

/// Whether RSA verification accepts the signature text for the message
/// under the public key with the given PEM.
pub uninterp spec fn rsa_sig_ok(
    alg: Seq<char>,
    pub_pem: Seq<char>,
    msg: Seq<char>,
    sig: Seq<char>,
) -> bool;

/// Relies on `jsonwebtoken::crypto::sign` with an HMAC key from
/// `EncodingKey::from_secret`: it never fails, the signature is a function
/// of (algorithm, secret, message), and it is base64url text.
#[verifier::external_body]
pub fn hs_sign(alg: AlgorithmId, secret: &str, msg: &str) -> (r: String)
    requires
        alg.spec_family() == AlgorithmFamily::Symmetric,
    ensures
        r@ == hmac_sig(alg.spec_name(), secret@, msg@),
        b64u_decode_of(r@) is Some,
        forall|i: int| 0 <= i < r@.len() ==> is_b64url_char(#[trigger] r@[i]),
{
    let key = jsonwebtoken::EncodingKey::from_secret(secret.as_bytes());
    jsonwebtoken::crypto::sign(msg.as_bytes(), &key, to_jwt_alg(alg)).unwrap()
}

/// Relies on `jsonwebtoken::crypto::verify` with an HMAC key from
/// `DecodingKey::from_secret`: it never fails, and accepts exactly the
/// signature text that HMAC signing returns on the same inputs.
#[verifier::external_body]
pub fn hs_verify(alg: AlgorithmId, secret: &str, msg: &str, sig: &str) -> (r: bool)
    requires
        alg.spec_family() == AlgorithmFamily::Symmetric,
    ensures
        r == (sig@ == hmac_sig(alg.spec_name(), secret@, msg@)),
{
    let key = jsonwebtoken::DecodingKey::from_secret(secret.as_bytes());
    jsonwebtoken::crypto::verify(sig, msg.as_bytes(), &key, to_jwt_alg(alg)).unwrap()
}

/// Relies on `jsonwebtoken::crypto::sign` with a key from
/// `EncodingKey::from_rsa_pem`: on success the signature is a function of
/// (algorithm, private PEM, message), is base64url text, and verifies under
/// the key's public half.
#[verifier::external_body]
pub fn rs_sign(alg: AlgorithmId, priv_pem: &str, msg: &str) -> (r: Result<String, String>)
    requires
        alg.spec_family() == AlgorithmFamily::Asymmetric,
    ensures
        r is Ok ==> r->Ok_0@ == rsa_sig(alg.spec_name(), priv_pem@, msg@),
        r is Ok ==> rsa_sig_ok(alg.spec_name(), pub_pem_of(priv_pem@), msg@, r->Ok_0@),
        r is Ok ==> b64u_decode_of(r->Ok_0@) is Some,
        r is Ok ==> forall|i: int| 0 <= i < r->Ok_0@.len() ==> is_b64url_char(#[trigger] r->Ok_0@[i]),
{
    let key = match jsonwebtoken::EncodingKey::from_rsa_pem(priv_pem.as_bytes()) {
        Ok(k) => k,
        Err(e) => return Err(format!("{}", e)),
    };
    match jsonwebtoken::crypto::sign(msg.as_bytes(), &key, to_jwt_alg(alg)) {
        Ok(s) => Ok(s),
        Err(e) => Err(format!("{}", e)),
    }
}

/// Relies on `jsonwebtoken::crypto::verify` with a key from
/// `DecodingKey::from_rsa_pem`: on a normalized PKCS#1 public PEM and a
/// base64url signature text it returns a verdict, and the verdict is a
/// function of (algorithm, public PEM, message, signature).
#[verifier::external_body]
pub fn rs_verify(alg: AlgorithmId, pub_pem: &str, msg: &str, sig: &str) -> (r: Result<
    bool,
    String,
>)
    requires
        alg.spec_family() == AlgorithmFamily::Asymmetric,
    ensures
        r is Ok ==> r->Ok_0 == rsa_sig_ok(alg.spec_name(), pub_pem@, msg@, sig@),
        rsa_pub_pem_ok(pub_pem@) && pub_norm_of(pub_pem@) == pub_pem@ && b64u_decode_of(sig@)
            is Some ==> r is Ok,
{
    let key = match jsonwebtoken::DecodingKey::from_rsa_pem(pub_pem.as_bytes()) {
        Ok(k) => k,
        Err(e) => return Err(format!("{}", e)),
    };
    match jsonwebtoken::crypto::verify(sig, msg.as_bytes(), &key, to_jwt_alg(alg)) {
        Ok(b) => Ok(b),
        Err(e) => Err(format!("{}", e)),
    }
}

} // verus!
