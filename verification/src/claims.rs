//! Claims Validator: time-based evaluation of the decoded payload,
//! independent of signature cryptography.
//!
//! Two numeric claims carry temporal semantics: `exp` (absolute expiry,
//! seconds since epoch) and `iat` (issuance time). Both are optional;
//! a token without `exp` never expires.

use vstd::prelude::*;

use crate::jsonobj::obj_get_i64;
use crate::jsonobj::obj_model;
use crate::jsonobj::spec_obj_get_i64;

verus! {

/// Whether claims with the given contents are expired at `now`: true iff
/// `exp` is present as an integer and `now` is strictly greater — a token
/// expiring exactly at `now` is still valid, and a missing `exp` never
/// expires.
pub open spec fn spec_is_expired(model: Map<Seq<char>, Seq<char>>, now: i64) -> bool {
    match spec_obj_get_i64(model, "exp"@) {
        Some(e) => now > e,
        None => false,
    }
}

/// The expiry instant, when the `exp` claim is present as an integer.
pub fn expires_at(claims: &serde_json::Map<String, serde_json::Value>) -> (r: Option<i64>)
    ensures
        r == spec_obj_get_i64(obj_model(*claims), "exp"@),
{
    obj_get_i64(claims, "exp")
}

/// The issuance instant, when the `iat` claim is present as an integer.
pub fn issued_at(claims: &serde_json::Map<String, serde_json::Value>) -> (r: Option<i64>)
    ensures
        r == spec_obj_get_i64(obj_model(*claims), "iat"@),
{
    obj_get_i64(claims, "iat")
}

/// Whether the claims are expired at `now`.
pub fn is_expired(claims: &serde_json::Map<String, serde_json::Value>, now: i64) -> (r: bool)
    ensures
        r == spec_is_expired(obj_model(*claims), now),
{
    match expires_at(claims) {
        Some(e) => now > e,
        None => false,
    }
}

} // verus!
