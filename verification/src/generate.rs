//! Credential Generator: fresh RSA keypairs and random shared secrets,
//! unrelated to any token already issued.

use rand::Rng;
use vstd::prelude::*;

use crate::rsakeys::priv_norm_of;
use crate::rsakeys::pub_norm_of;
use crate::rsakeys::pub_pem_of;
use crate::rsakeys::rsa_generate_pem_keypair;
use crate::rsakeys::rsa_priv_pem_ok;
use crate::rsakeys::rsa_pub_pem_ok;
use crate::strutil::prefix_msg;
use crate::strutil::spec_starts_with;

verus! {

/// A freshly generated RSA keypair as two PKCS#1 PEM strings; ownership
/// passes wholly to the caller, no copy is retained.
#[derive(Debug)]
pub struct KeyPair {
    pub private_key: String,
    pub public_key: String,
}

/// The permitted RSA key sizes.
pub open spec fn spec_valid_key_size(bits: usize) -> bool {
    bits == 2048 || bits == 3072 || bits == 4096
}

/// Generates an RSA keypair of a permitted size; any other size is
/// rejected before any generation work. On success the two PEM blocks are
/// distinct, each parses back as its own kind of key and not as the other,
/// and the public block is the private key's derived public half.
pub fn generate_rsa_keypair(key_size: usize) -> (r: Result<KeyPair, String>)
    ensures
        !spec_valid_key_size(key_size) ==> r is Err && r->Err_0@
            == "Key size must be 2048, 3072, or 4096 bits"@,
        spec_valid_key_size(key_size) && r is Err ==> spec_starts_with(
            r->Err_0@,
            "Failed to generate private key: "@,
        ),
        r is Ok ==> spec_valid_key_size(key_size),
        r is Ok ==> {
            let kp = r->Ok_0;
            &&& rsa_priv_pem_ok(kp.private_key@) && priv_norm_of(kp.private_key@)
                == kp.private_key@
            &&& rsa_pub_pem_ok(kp.public_key@) && pub_norm_of(kp.public_key@) == kp.public_key@
            &&& kp.public_key@ == pub_pem_of(kp.private_key@)
            &&& !rsa_pub_pem_ok(kp.private_key@) && !rsa_priv_pem_ok(kp.public_key@)
            &&& kp.private_key@ != kp.public_key@
        },
{
    if !(key_size == 2048 || key_size == 3072 || key_size == 4096) {
        return Err(String::from_str("Key size must be 2048, 3072, or 4096 bits"));
    }
    match rsa_generate_pem_keypair(key_size) {
        Ok(pair) => {
            let (private_key, public_key) = pair;
            Ok(KeyPair { private_key, public_key })
        },
        Err(e) => Err(prefix_msg("Failed to generate private key: ", e.as_str())),
    }
}

/// The alphanumeric alphabet that generated secrets draw from.
pub open spec fn is_alphanumeric_char(c: char) -> bool {
    ('a' <= c && c <= 'z') || ('A' <= c && c <= 'Z') || ('0' <= c && c <= '9')
}

/// Relies on rand's `thread_rng` and the `Alphanumeric` distribution: a
/// fresh random string of exactly the requested length over a-z, A-Z, 0-9;
/// the result is random, so nothing relates two calls.
#[verifier::external_body]
fn random_alphanumeric(len: usize) -> (r: String)
    ensures
        r@.len() == len,
        forall|i: int| 0 <= i < r@.len() ==> is_alphanumeric_char(#[trigger] r@[i]),
{
    rand::thread_rng().sample_iter(&rand::distributions::Alphanumeric).take(len).map(
        char::from,
    ).collect()
}

/// Generates a random alphanumeric shared secret; lengths below 32 are
/// rejected to discourage weak secrets.
pub fn generate_jwt_secret(length: usize) -> (r: Result<String, String>)
    ensures
        r is Err <==> length < 32,
        r is Err ==> r->Err_0@ == "Secret length must be at least 32 characters"@,
        r is Ok ==> r->Ok_0@.len() == length,
        r is Ok ==> forall|i: int|
            0 <= i < r->Ok_0@.len() ==> is_alphanumeric_char(#[trigger] r->Ok_0@[i]),
{
    if length < 32 {
        return Err(String::from_str("Secret length must be at least 32 characters"));
    }
    Ok(random_alphanumeric(length))
}

} // verus!
