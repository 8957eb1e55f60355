//! Trusted boundary to the rsa crate's PKCS#1 PEM codec and key generation.
//!
//! A parsed key is always re-encoded to its normalized PKCS#1 PEM text, so
//! key material travels through the library as plain strings.

use rsa::pkcs1::DecodeRsaPrivateKey;
use rsa::pkcs1::DecodeRsaPublicKey;
use rsa::pkcs1::EncodeRsaPrivateKey;
use rsa::pkcs1::EncodeRsaPublicKey;
use vstd::prelude::*;

verus! {

/// Whether `RsaPrivateKey::from_pkcs1_pem` accepts the text (and the key
/// re-encodes); a private-key PEM is never also a public-key PEM.
pub uninterp spec fn rsa_priv_pem_ok(s: Seq<char>) -> bool;

/// Whether `RsaPublicKey::from_pkcs1_pem` accepts the text (and the key
/// re-encodes).
pub uninterp spec fn rsa_pub_pem_ok(s: Seq<char>) -> bool;

/// The normalized PEM of a private key: what `to_pkcs1_pem` returns on the
/// key parsed from the text.
pub uninterp spec fn priv_norm_of(s: Seq<char>) -> Seq<char>;

/// The normalized PEM of a public key: what `to_pkcs1_pem` returns on the
/// key parsed from the text.
pub uninterp spec fn pub_norm_of(s: Seq<char>) -> Seq<char>;

/// The PEM of the public key that `RsaPublicKey::from` derives from the
/// private key with the given normalized PEM.
pub uninterp spec fn pub_pem_of(priv_pem: Seq<char>) -> Seq<char>;

/// Relies on rsa's `RsaPrivateKey::from_pkcs1_pem` and `to_pkcs1_pem`:
/// parsing succeeds exactly on PKCS#1 private-key PEM text (tag
/// `RSA PRIVATE KEY`, so never on a public-key PEM), and re-encoding the
/// parsed key gives a normalized PEM on which both steps are stable.
#[verifier::external_body]
pub fn parse_rsa_private_pem(s: &str) -> (r: Result<String, String>)
    ensures
        r is Ok <==> rsa_priv_pem_ok(s@),
        r is Ok ==> r->Ok_0@ == priv_norm_of(s@),
        r is Ok ==> rsa_priv_pem_ok(r->Ok_0@) && priv_norm_of(r->Ok_0@) == r->Ok_0@,
        r is Ok ==> !rsa_pub_pem_ok(r->Ok_0@),
{
    let key = rsa::RsaPrivateKey::from_pkcs1_pem(s).map_err(|e| format!("{}", e))?;
    let pem = key.to_pkcs1_pem(rsa::pkcs8::LineEnding::LF).map_err(|e| format!("{}", e))?;
    Ok(pem.to_string())
}

/// Relies on rsa's `RsaPublicKey::from_pkcs1_pem` and `to_pkcs1_pem`:
/// parsing succeeds exactly on PKCS#1 public-key PEM text (tag
/// `RSA PUBLIC KEY`), and re-encoding gives a normalized PEM on which both
/// steps are stable.
#[verifier::external_body]
pub fn parse_rsa_public_pem(s: &str) -> (r: Result<String, String>)
    ensures
        r is Ok <==> rsa_pub_pem_ok(s@),
        r is Ok ==> r->Ok_0@ == pub_norm_of(s@),
        r is Ok ==> rsa_pub_pem_ok(r->Ok_0@) && pub_norm_of(r->Ok_0@) == r->Ok_0@,
{
    let key = rsa::RsaPublicKey::from_pkcs1_pem(s).map_err(|e| format!("{}", e))?;
    let pem = key.to_pkcs1_pem(rsa::pkcs8::LineEnding::LF).map_err(|e| format!("{}", e))?;
    Ok(pem)
}

/// Relies on rsa's `RsaPublicKey::from(&RsaPrivateKey)`: the public half is
/// a function of the private key, returned as its normalized PEM.
#[verifier::external_body]
pub fn rsa_public_from_private(s: &str) -> (r: Result<String, String>)
    ensures
        r is Ok <==> rsa_priv_pem_ok(s@),
        r is Ok ==> r->Ok_0@ == pub_pem_of(priv_norm_of(s@)),
        r is Ok ==> rsa_pub_pem_ok(r->Ok_0@) && pub_norm_of(r->Ok_0@) == r->Ok_0@,
{
    let key = rsa::RsaPrivateKey::from_pkcs1_pem(s).map_err(|e| format!("{}", e))?;
    let public = rsa::RsaPublicKey::from(&key);
    let pem = public.to_pkcs1_pem(rsa::pkcs8::LineEnding::LF).map_err(|e| format!("{}", e))?;
    Ok(pem)
}

/// Relies on rsa's `RsaPrivateKey::new` with the operating-system random
/// source, `RsaPublicKey::from`, and `to_pkcs1_pem`. The result is random,
/// so nothing relates two calls; every success returns a private PEM and
/// the PEM of its derived public key, each in normalized form and each
/// parseable only under its own PEM tag.
#[verifier::external_body]
pub fn rsa_generate_pem_keypair(bits: usize) -> (r: Result<(String, String), String>)
    ensures
        r is Ok ==> rsa_priv_pem_ok(r->Ok_0.0@) && priv_norm_of(r->Ok_0.0@) == r->Ok_0.0@,
        r is Ok ==> !rsa_pub_pem_ok(r->Ok_0.0@) && !rsa_priv_pem_ok(r->Ok_0.1@),
        r is Ok ==> rsa_pub_pem_ok(r->Ok_0.1@) && pub_norm_of(r->Ok_0.1@) == r->Ok_0.1@,
        r is Ok ==> r->Ok_0.1@ == pub_pem_of(r->Ok_0.0@),
{
    let mut rng = rand::rngs::OsRng;
    let key = rsa::RsaPrivateKey::new(&mut rng, bits).map_err(|e| format!("{}", e))?;
    let public = rsa::RsaPublicKey::from(&key);
    let priv_pem = key.to_pkcs1_pem(rsa::pkcs8::LineEnding::LF).map_err(|e| format!("{}", e))?;
    let pub_pem = public.to_pkcs1_pem(rsa::pkcs8::LineEnding::LF).map_err(|e| format!("{}", e))?;
    Ok((priv_pem.to_string(), pub_pem))
}

} // verus!
