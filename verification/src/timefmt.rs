//! Trusted boundary to the system clock and to chrono's timestamp
//! formatting.

use vstd::prelude::*;

verus! {

/// Relies on std's `SystemTime::now`: the wall clock in whole seconds since
/// the Unix epoch, sampled once; never negative.
#[verifier::external_body]
pub fn now_unix_seconds() -> (r: i64)
    ensures
        r >= 0,
{
    match std::time::SystemTime::now().duration_since(std::time::UNIX_EPOCH) {
        Ok(d) => i64::try_from(d.as_secs()).unwrap_or(i64::MAX),
        Err(_) => 0,
    }
}

/// The RFC 3339 text of a Unix timestamp, as chrono renders it.
pub uninterp spec fn rfc3339_of(ts: i64) -> Seq<char>;

/// Relies on chrono's `DateTime::<Utc>::from_timestamp` and `to_rfc3339`:
/// the text is a function of the timestamp alone; an out-of-range timestamp
/// gives `None`.
#[verifier::external_body]
pub fn fmt_unix_timestamp(ts: i64) -> (r: Option<String>)
    ensures
        r is Some ==> r->Some_0@ == rfc3339_of(ts),
{
    match chrono::DateTime::<chrono::Utc>::from_timestamp(ts, 0) {
        Some(dt) => Some(dt.to_rfc3339()),
        None => None,
    }
}

} // verus!
