//! Digest fan-out: the fixed set of nine hash algorithms computed over one
//! input, each rendered in hex in the requested case.
//!
//! The digest computations are outside calls with named results; the
//! algorithm labels, the hex rendering and the assembly of the result list
//! are verified.

use md2::Digest;
use vstd::prelude::*;
use vstd::string::StringExecFns;

use crate::hexfmt::hex_of;
use crate::hexfmt::bytes_to_hex;

verus! {

/// What the MD2 digest of a byte string is.
pub uninterp spec fn md2_of(b: Seq<u8>) -> Seq<u8>;

/// What the MD4 digest of a byte string is.
pub uninterp spec fn md4_of(b: Seq<u8>) -> Seq<u8>;

/// What the MD5 digest of a byte string is.
pub uninterp spec fn md5_of(b: Seq<u8>) -> Seq<u8>;

/// What the SHA-1 digest of a byte string is.
pub uninterp spec fn sha1_of(b: Seq<u8>) -> Seq<u8>;

/// What the SHA-224 digest of a byte string is.
pub uninterp spec fn sha224_of(b: Seq<u8>) -> Seq<u8>;

/// What the SHA-256 digest of a byte string is.
pub uninterp spec fn sha256_of(b: Seq<u8>) -> Seq<u8>;

/// What the SHA-384 digest of a byte string is.
pub uninterp spec fn sha384_of(b: Seq<u8>) -> Seq<u8>;

/// What the SHA-512 digest of a byte string is.
pub uninterp spec fn sha512_of(b: Seq<u8>) -> Seq<u8>;

/// What the Keccak-256 digest of a byte string is.
pub uninterp spec fn keccak256_of(b: Seq<u8>) -> Seq<u8>;

/// Relies on the md2 crate's `Md2::digest`: 16 bytes, a function of the
/// input alone.
#[verifier::external_body]
fn md2_digest(b: &[u8]) -> (r: Vec<u8>)
    ensures
        r@ == md2_of(b@),
        r@.len() == 16,
{
    md2::Md2::digest(b).to_vec()
}

/// Relies on the md4 crate's `Md4::digest`: 16 bytes, a function of the
/// input alone.
#[verifier::external_body]
fn md4_digest(b: &[u8]) -> (r: Vec<u8>)
    ensures
        r@ == md4_of(b@),
        r@.len() == 16,
{
    md4::Md4::digest(b).to_vec()
}

/// Relies on the md5 crate's `compute`: 16 bytes, a function of the input
/// alone.
#[verifier::external_body]
fn md5_digest(b: &[u8]) -> (r: Vec<u8>)
    ensures
        r@ == md5_of(b@),
        r@.len() == 16,
{
    md5::compute(b).0.to_vec()
}

/// Relies on the sha1 crate's `Sha1::digest`: 20 bytes, a function of the
/// input alone.
#[verifier::external_body]
fn sha1_digest(b: &[u8]) -> (r: Vec<u8>)
    ensures
        r@ == sha1_of(b@),
        r@.len() == 20,
{
    sha1::Sha1::digest(b).to_vec()
}

/// Relies on the sha2 crate's `Sha224::digest`: 28 bytes, a function of
/// the input alone.
#[verifier::external_body]
fn sha224_digest(b: &[u8]) -> (r: Vec<u8>)
    ensures
        r@ == sha224_of(b@),
        r@.len() == 28,
{
    sha2::Sha224::digest(b).to_vec()
}

/// Relies on the sha2 crate's `Sha256::digest`: 32 bytes, a function of
/// the input alone.
#[verifier::external_body]
fn sha256_digest(b: &[u8]) -> (r: Vec<u8>)
    ensures
        r@ == sha256_of(b@),
        r@.len() == 32,
{
    sha2::Sha256::digest(b).to_vec()
}

/// Relies on the sha2 crate's `Sha384::digest`: 48 bytes, a function of
/// the input alone.
#[verifier::external_body]
fn sha384_digest(b: &[u8]) -> (r: Vec<u8>)
    ensures
        r@ == sha384_of(b@),
        r@.len() == 48,
{
    sha2::Sha384::digest(b).to_vec()
}

/// Relies on the sha2 crate's `Sha512::digest`: 64 bytes, a function of
/// the input alone.
#[verifier::external_body]
fn sha512_digest(b: &[u8]) -> (r: Vec<u8>)
    ensures
        r@ == sha512_of(b@),
        r@.len() == 64,
{
    sha2::Sha512::digest(b).to_vec()
}

/// Relies on the sha3 crate's `Keccak256::digest`: 32 bytes, a function of
/// the input alone.
#[verifier::external_body]
fn keccak256_digest(b: &[u8]) -> (r: Vec<u8>)
    ensures
        r@ == keccak256_of(b@),
        r@.len() == 32,
{
    sha3::Keccak256::digest(b).to_vec()
}

/// The hex text of one digest in the requested case: upper unless
/// lowercase is asked for.
pub open spec fn spec_digest_hex(digest: Seq<u8>, lowercase: bool) -> Seq<char> {
    hex_of(digest, !lowercase)
}

/// Computes the nine digests of the input and renders each in hex: the
/// labelled list, in a fixed order.
pub fn hash_bytes_digests(data: &[u8], lowercase: bool) -> (r: Vec<(String, String)>)
    ensures
        r@.len() == 9,
        r@[0].0@ == "md2"@ && r@[0].1@ == spec_digest_hex(md2_of(data@), lowercase),
        r@[1].0@ == "md4"@ && r@[1].1@ == spec_digest_hex(md4_of(data@), lowercase),
        r@[2].0@ == "md5"@ && r@[2].1@ == spec_digest_hex(md5_of(data@), lowercase),
        r@[3].0@ == "sha1"@ && r@[3].1@ == spec_digest_hex(sha1_of(data@), lowercase),
        r@[4].0@ == "sha224"@ && r@[4].1@ == spec_digest_hex(sha224_of(data@), lowercase),
        r@[5].0@ == "sha256"@ && r@[5].1@ == spec_digest_hex(sha256_of(data@), lowercase),
        r@[6].0@ == "sha384"@ && r@[6].1@ == spec_digest_hex(sha384_of(data@), lowercase),
        r@[7].0@ == "sha512"@ && r@[7].1@ == spec_digest_hex(sha512_of(data@), lowercase),
        r@[8].0@ == "keccak256"@ && r@[8].1@ == spec_digest_hex(keccak256_of(data@), lowercase),
{
    let upper = !lowercase;
    let mut r: Vec<(String, String)> = Vec::new();
    r.push((String::from_str("md2"), bytes_to_hex(md2_digest(data).as_slice(), upper)));
    r.push((String::from_str("md4"), bytes_to_hex(md4_digest(data).as_slice(), upper)));
    r.push((String::from_str("md5"), bytes_to_hex(md5_digest(data).as_slice(), upper)));
    r.push((String::from_str("sha1"), bytes_to_hex(sha1_digest(data).as_slice(), upper)));
    r.push((String::from_str("sha224"), bytes_to_hex(sha224_digest(data).as_slice(), upper)));
    r.push((String::from_str("sha256"), bytes_to_hex(sha256_digest(data).as_slice(), upper)));
    r.push((String::from_str("sha384"), bytes_to_hex(sha384_digest(data).as_slice(), upper)));
    r.push((String::from_str("sha512"), bytes_to_hex(sha512_digest(data).as_slice(), upper)));
    r.push(
        (String::from_str("keccak256"), bytes_to_hex(keccak256_digest(data).as_slice(), upper)),
    );
    r
}

/// Computes the nine digests of a string's bytes, as the hashing command
/// does for text input.
pub fn hash_string_digests(input: &str, lowercase: bool) -> (r: Vec<(String, String)>)
    ensures
        r@.len() == 9,
        r@[0].0@ == "md2"@ && r@[0].1@ == spec_digest_hex(
            md2_of(vstd::utf8::encode_utf8(input@)),
            lowercase,
        ),
        r@[1].0@ == "md4"@ && r@[1].1@ == spec_digest_hex(
            md4_of(vstd::utf8::encode_utf8(input@)),
            lowercase,
        ),
        r@[2].0@ == "md5"@ && r@[2].1@ == spec_digest_hex(
            md5_of(vstd::utf8::encode_utf8(input@)),
            lowercase,
        ),
        r@[3].0@ == "sha1"@ && r@[3].1@ == spec_digest_hex(
            sha1_of(vstd::utf8::encode_utf8(input@)),
            lowercase,
        ),
        r@[4].0@ == "sha224"@ && r@[4].1@ == spec_digest_hex(
            sha224_of(vstd::utf8::encode_utf8(input@)),
            lowercase,
        ),
        r@[5].0@ == "sha256"@ && r@[5].1@ == spec_digest_hex(
            sha256_of(vstd::utf8::encode_utf8(input@)),
            lowercase,
        ),
        r@[6].0@ == "sha384"@ && r@[6].1@ == spec_digest_hex(
            sha384_of(vstd::utf8::encode_utf8(input@)),
            lowercase,
        ),
        r@[7].0@ == "sha512"@ && r@[7].1@ == spec_digest_hex(
            sha512_of(vstd::utf8::encode_utf8(input@)),
            lowercase,
        ),
        r@[8].0@ == "keccak256"@ && r@[8].1@ == spec_digest_hex(
            keccak256_of(vstd::utf8::encode_utf8(input@)),
            lowercase,
        ),
{
    hash_bytes_digests(input.as_bytes(), lowercase)
}

} // verus!
