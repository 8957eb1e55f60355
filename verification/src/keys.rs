//! Key Material Codec: turns caller-supplied secret text into the key form
//! that the chosen algorithm family needs.
//!
//! Shared-secret algorithms wrap the text as it is. RSA algorithms parse
//! PKCS#1 PEM text: signing needs a private key; verification accepts a
//! public key, or falls back to a private key and derives its public half —
//! an explicit ordered two-attempt strategy with distinct error messages.

use vstd::prelude::*;

use crate::algs::AlgorithmFamily;
use crate::algs::AlgorithmId;
use crate::rsakeys::parse_rsa_private_pem;
use crate::rsakeys::parse_rsa_public_pem;
use crate::rsakeys::priv_norm_of;
use crate::rsakeys::pub_norm_of;
use crate::rsakeys::pub_pem_of;
use crate::rsakeys::rsa_priv_pem_ok;
use crate::rsakeys::rsa_pub_pem_ok;
use crate::rsakeys::rsa_public_from_private;
use crate::strutil::prefix_msg;
use crate::strutil::spec_starts_with;

verus! {

/// A key ready for signing: the shared secret text, or a normalized PKCS#1
/// private-key PEM.
pub enum SigningKey {
    Secret(String),
    RsaPrivate(String),
}

/// A key ready for verification: the shared secret text, or a normalized
/// PKCS#1 public-key PEM.
pub enum VerificationKey {
    Secret(String),
    RsaPublic(String),
}

/// The signing-key material that loading yields on each input: the secret
/// itself for shared-secret algorithms; for RSA algorithms the normalized
/// private PEM, or nothing when the text is not a PKCS#1 private key.
pub open spec fn spec_signing_key(alg: AlgorithmId, secret: Seq<char>) -> Option<Seq<char>> {
    if alg.spec_family() == AlgorithmFamily::Symmetric {
        Some(secret)
    } else if rsa_priv_pem_ok(secret) {
        Some(priv_norm_of(secret))
    } else {
        None
    }
}

/// The verification-key material that loading yields on each input: the
/// secret itself for shared-secret algorithms; for RSA algorithms the
/// normalized public PEM, else the public half of a private PEM, else
/// nothing.
pub open spec fn spec_verification_key(alg: AlgorithmId, secret: Seq<char>) -> Option<Seq<char>> {
    if alg.spec_family() == AlgorithmFamily::Symmetric {
        Some(secret)
    } else if rsa_pub_pem_ok(secret) {
        Some(pub_norm_of(secret))
    } else if rsa_priv_pem_ok(secret) {
        Some(pub_pem_of(priv_norm_of(secret)))
    } else {
        None
    }
}

impl SigningKey {
    /// The key material carried, as a sequence of characters.
    pub open spec fn spec_material(self) -> Seq<char> {
        match self {
            SigningKey::Secret(s) => s@,
            SigningKey::RsaPrivate(s) => s@,
        }
    }
}

impl VerificationKey {
    /// The key material carried, as a sequence of characters.
    pub open spec fn spec_material(self) -> Seq<char> {
        match self {
            VerificationKey::Secret(s) => s@,
            VerificationKey::RsaPublic(s) => s@,
        }
    }
}

/// Loads the key used for signing: the raw secret for shared-secret
/// algorithms, a parsed PKCS#1 private key for RSA algorithms.
pub fn load_signing_key(alg: AlgorithmId, secret: &str) -> (r: Result<SigningKey, String>)
    ensures
        r is Ok <==> spec_signing_key(alg, secret@) is Some,
        r is Ok ==> r->Ok_0.spec_material() == spec_signing_key(alg, secret@)->Some_0,
        r is Ok ==> (r->Ok_0 is Secret <==> alg.spec_family() == AlgorithmFamily::Symmetric),
        r is Err ==> spec_starts_with(r->Err_0@, "Failed to parse RSA private key: "@),
        r is Ok && alg.spec_family() == AlgorithmFamily::Asymmetric ==> rsa_priv_pem_ok(
            r->Ok_0.spec_material(),
        ) && priv_norm_of(r->Ok_0.spec_material()) == r->Ok_0.spec_material(),
{
    match crate::algs::family_of(alg) {
        AlgorithmFamily::Symmetric => Ok(SigningKey::Secret(secret.to_owned())),
        AlgorithmFamily::Asymmetric => match parse_rsa_private_pem(secret) {
            Ok(pem) => Ok(SigningKey::RsaPrivate(pem)),
            Err(e) => Err(prefix_msg("Failed to parse RSA private key: ", e.as_str())),
        },
    }
}

/// Loads the key used for verification: the raw secret for shared-secret
/// algorithms; for RSA algorithms, first a PKCS#1 public key, then — on
/// failure — a PKCS#1 private key whose public half is derived.
pub fn load_verification_key(alg: AlgorithmId, secret: &str) -> (r: Result<VerificationKey, String>)
    ensures
        r is Ok <==> spec_verification_key(alg, secret@) is Some,
        r is Ok ==> r->Ok_0.spec_material() == spec_verification_key(alg, secret@)->Some_0,
        r is Ok ==> (r->Ok_0 is Secret <==> alg.spec_family() == AlgorithmFamily::Symmetric),
        r is Err ==> spec_starts_with(r->Err_0@, "Failed to parse RSA key: "@),
        r is Ok && alg.spec_family() == AlgorithmFamily::Asymmetric ==> rsa_pub_pem_ok(
            r->Ok_0.spec_material(),
        ) && pub_norm_of(r->Ok_0.spec_material()) == r->Ok_0.spec_material(),
{
    match crate::algs::family_of(alg) {
        AlgorithmFamily::Symmetric => Ok(VerificationKey::Secret(secret.to_owned())),
        AlgorithmFamily::Asymmetric => match parse_rsa_public_pem(secret) {
            Ok(pem) => Ok(VerificationKey::RsaPublic(pem)),
            Err(_) => match rsa_public_from_private(secret) {
                Ok(pem) => Ok(VerificationKey::RsaPublic(pem)),
                Err(e) => Err(prefix_msg("Failed to parse RSA key: ", e.as_str())),
            },
        },
    }
}

} // verus!
