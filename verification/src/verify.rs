//! Verification Engine: the state machine that turns a token, a key text
//! and a caller-declared algorithm name into one of three distinguishable
//! terminal states.
//!
//! Signature verification comes first, with the algorithm pinned to the
//! caller's declared name — never to the name inside the untrusted token
//! header. Expiry is evaluated only after the cryptography succeeds, so a
//! cryptographically valid but stale token is reported as expired with its
//! claims visible, while a forged or corrupt token carries no claims at all.

use vstd::prelude::*;
use vstd::string::StringExecFns;

use crate::algs::AlgorithmFamily;
use crate::algs::AlgorithmId;
use crate::algs::resolve;
use crate::algs::spec_resolve;
use crate::claims::expires_at;
use crate::claims::spec_is_expired;
use crate::encoding::b64u_decode;
use crate::encoding::b64u_decode_of;
use crate::jsonobj::json_str_of;
use crate::jsonobj::obj_has_str;
use crate::jsonobj::obj_model;
use crate::jsonobj::spec_obj_get_i64;
use crate::keys::VerificationKey;
use crate::keys::load_verification_key;
use crate::keys::spec_verification_key;
use crate::sigcrypto::hmac_sig;
use crate::sigcrypto::hs_verify;
use crate::sigcrypto::rs_verify;
use crate::sigcrypto::rsa_sig_ok;
use crate::strutil::dec_int;
use crate::strutil::i64_to_string;
use crate::strutil::prefix_msg;
use crate::strutil::spec_starts_with;
use crate::strutil::split_char;
use crate::strutil::strip_bearer;
use crate::strutil::trim_ws;
use crate::timefmt::fmt_unix_timestamp;
use crate::timefmt::now_unix_seconds;
use crate::timefmt::rfc3339_of;
use crate::token::SegStage;
use crate::token::decode_obj_segment;
use crate::token::header_err_msg;
use crate::token::payload_err_msg;
use crate::token::segment_count_msg;
use crate::token::spec_decode_obj_segment;
use crate::token::spec_header_err_msg;
use crate::token::spec_payload_err_msg;
use crate::token::spec_segment_count_msg;
use crate::token::spec_token_segments;

verus! {

/// The verification outcome handed back to the caller: never an exception,
/// always a value. Exactly one of three shapes per the state machine:
/// valid (claims attached, no error), expired (claims attached, expiry
/// message), or invalid (error only, no claims).
#[derive(Debug)]
pub struct VerifyResult {
    pub is_valid: bool,
    pub error: Option<String>,
    pub decoded_header: Option<serde_json::Map<String, serde_json::Value>>,
    pub decoded_payload: Option<serde_json::Map<String, serde_json::Value>>,
}

/// Why a verification ended in the invalid state.
pub enum InvalidReason {
    UnsupportedAlgorithm { name: Seq<char> },
    KeyLoad,
    WrongSegmentCount { count: nat },
    HeaderDecode { stage: SegStage },
    HeaderAlgMismatch,
    BadSignature,
    PayloadDecode { stage: SegStage },
}

/// The terminal state of one verification run.
pub enum SpecVerdict {
    Valid { header: Map<Seq<char>, Seq<char>>, payload: Map<Seq<char>, Seq<char>> },
    Expired { header: Map<Seq<char>, Seq<char>>, payload: Map<Seq<char>, Seq<char>>, exp: i64 },
    Invalid { reason: InvalidReason },
}

/// Whether an error message is the one owed for the given invalid reason.
/// Key-load messages carry the parser's own text after a fixed prefix.
pub open spec fn spec_invalid_msg_ok(reason: InvalidReason, m: Seq<char>) -> bool {
    match reason {
        InvalidReason::UnsupportedAlgorithm { name } => m == "Unsupported algorithm: "@ + name,
        InvalidReason::KeyLoad => spec_starts_with(m, "Failed to parse RSA key: "@),
        InvalidReason::WrongSegmentCount { count } => m == "Verification failed: "@
            + spec_segment_count_msg(count),
        InvalidReason::HeaderDecode { stage } => m == "Verification failed: "@
            + spec_header_err_msg(stage),
        InvalidReason::HeaderAlgMismatch => m
            == "Verification failed: token header declares a different algorithm"@,
        InvalidReason::BadSignature => m == "Verification failed: invalid signature"@,
        InvalidReason::PayloadDecode { stage } => m == "Verification failed: "@
            + spec_payload_err_msg(stage),
    }
}

/// Whether the signature segment passes cryptographic verification for the
/// given algorithm, loaded key material and signing input.
pub open spec fn spec_sig_ok(
    alg: AlgorithmId,
    key: Seq<char>,
    msg: Seq<char>,
    sig: Seq<char>,
) -> bool {
    if alg.spec_family() == AlgorithmFamily::Symmetric {
        sig == hmac_sig(alg.spec_name(), key, msg)
    } else {
        b64u_decode_of(sig) is Some && rsa_sig_ok(alg.spec_name(), key, msg, sig)
    }
}

/// The verification state machine, as a function of the inputs and the
/// clock: resolve the algorithm, load the verification key, split the
/// token, decode the header, pin the declared algorithm against the
/// header's `alg` claim, check the signature, decode the payload, and only
/// then evaluate expiry.
pub open spec fn spec_verify_outcome(
    token: Seq<char>,
    secret: Seq<char>,
    algorithm: Seq<char>,
    now: i64,
) -> SpecVerdict {
    let segs = spec_token_segments(token);
    match spec_resolve(algorithm) {
        None => SpecVerdict::Invalid {
            reason: InvalidReason::UnsupportedAlgorithm { name: algorithm },
        },
        Some(alg) => {
            match spec_verification_key(alg, secret) {
                None => SpecVerdict::Invalid { reason: InvalidReason::KeyLoad },
                Some(key) => {
                    if segs.len() != 3 {
                        SpecVerdict::Invalid {
                            reason: InvalidReason::WrongSegmentCount { count: segs.len() },
                        }
                    } else {
                        match spec_decode_obj_segment(segs[0]) {
                            Err(st) => SpecVerdict::Invalid {
                                reason: InvalidReason::HeaderDecode { stage: st },
                            },
                            Ok(h) => {
                                if !(h.contains_key("alg"@) && h["alg"@] == json_str_of(
                                    alg.spec_name(),
                                )) {
                                    SpecVerdict::Invalid {
                                        reason: InvalidReason::HeaderAlgMismatch,
                                    }
                                } else if !spec_sig_ok(
                                    alg,
                                    key,
                                    segs[0] + seq!['.'] + segs[1],
                                    segs[2],
                                ) {
                                    SpecVerdict::Invalid { reason: InvalidReason::BadSignature }
                                } else {
                                    match spec_decode_obj_segment(segs[1]) {
                                        Err(st) => SpecVerdict::Invalid {
                                            reason: InvalidReason::PayloadDecode { stage: st },
                                        },
                                        Ok(p) => {
                                            if spec_is_expired(p, now) {
                                                SpecVerdict::Expired {
                                                    header: h,
                                                    payload: p,
                                                    exp: spec_obj_get_i64(p, "exp"@)->Some_0,
                                                }
                                            } else {
                                                SpecVerdict::Valid { header: h, payload: p }
                                            }
                                        },
                                    }
                                }
                            },
                        }
                    }
                },
            }
        },
    }
}

/// Whether a result value is in the terminal state the verdict calls for:
/// valid carries both maps and no error; expired carries both maps and a
/// message naming the expiry instant (RFC 3339, or the raw timestamp when
/// out of range); invalid carries a message and no decoded content.
pub open spec fn spec_verify_matches(r: VerifyResult, v: SpecVerdict) -> bool {
    match v {
        SpecVerdict::Valid { header, payload } => {
            &&& r.is_valid
            &&& r.error is None
            &&& r.decoded_header is Some && obj_model(r.decoded_header->Some_0) == header
            &&& r.decoded_payload is Some && obj_model(r.decoded_payload->Some_0) == payload
        },
        SpecVerdict::Expired { header, payload, exp } => {
            &&& !r.is_valid
            &&& r.error is Some
            &&& (r.error->Some_0@ == "Token expired at "@ + rfc3339_of(exp) || r.error->Some_0@
                == "Token expired at "@ + dec_int(exp as int))
            &&& r.decoded_header is Some && obj_model(r.decoded_header->Some_0) == header
            &&& r.decoded_payload is Some && obj_model(r.decoded_payload->Some_0) == payload
        },
        SpecVerdict::Invalid { reason } => {
            &&& !r.is_valid
            &&& r.error is Some && spec_invalid_msg_ok(reason, r.error->Some_0@)
            &&& r.decoded_header is None
            &&& r.decoded_payload is None
        },
    }
}

fn invalid_result(msg: String) -> (r: VerifyResult)
    ensures
        !r.is_valid,
        r.error == Some(msg),
        r.decoded_header is None,
        r.decoded_payload is None,
{
    VerifyResult { is_valid: false, error: Some(msg), decoded_header: None, decoded_payload: None }
}

/// Runs the verification state machine against the given clock reading.
pub fn verify_jwt_at(token: &str, secret: &str, algorithm: &str, now: i64) -> (r: VerifyResult)
    ensures
        spec_verify_matches(r, spec_verify_outcome(token@, secret@, algorithm@, now)),
{
    let alg = match resolve(algorithm) {
        Ok(a) => a,
        Err(e) => {
            return invalid_result(e);
        },
    };
    let vkey = match load_verification_key(alg, secret) {
        Ok(k) => k,
        Err(e) => {
            return invalid_result(e);
        },
    };
    let trimmed = trim_ws(token);
    let t = strip_bearer(trimmed);
    let parts = split_char(t, '.');
    proof {
        assert(parts.deep_view() == spec_token_segments(token@));
    }
    if parts.len() != 3 {
        let m = segment_count_msg(parts.len());
        return invalid_result(prefix_msg("Verification failed: ", m.as_str()));
    }
    proof {
        assert(parts.deep_view()[0] == parts@[0]@);
        assert(parts.deep_view()[1] == parts@[1]@);
        assert(parts.deep_view()[2] == parts@[2]@);
    }
    let header = match decode_obj_segment(parts[0].as_str()) {
        Ok(m) => m,
        Err(st) => {
            let m = header_err_msg(st);
            return invalid_result(prefix_msg("Verification failed: ", m.as_str()));
        },
    };
    if !obj_has_str(&header, "alg", alg.name()) {
        return invalid_result(
            String::from_str("Verification failed: token header declares a different algorithm"),
        );
    }
    let msg = {
        let mut m = parts[0].clone();
        m.append(".");
        m.append(parts[1].as_str());
        m
    };
    proof {
        reveal_strlit(".");
        assert(msg@ == parts@[0]@ + seq!['.'] + parts@[1]@);
    }
    let sig_good: bool = match &vkey {
        VerificationKey::Secret(k) => hs_verify(alg, k.as_str(), msg.as_str(), parts[2].as_str()),
        VerificationKey::RsaPublic(pem) => {
            match b64u_decode(parts[2].as_str()) {
                None => false,
                Some(_) => match rs_verify(alg, pem.as_str(), msg.as_str(), parts[2].as_str()) {
                    Ok(b) => b,
                    Err(_) => {
                        proof {
                            assert(false);
                        }
                        false
                    },
                },
            }
        },
    };
    if !sig_good {
        return invalid_result(String::from_str("Verification failed: invalid signature"));
    }
    let payload = match decode_obj_segment(parts[1].as_str()) {
        Ok(m) => m,
        Err(st) => {
            let m = payload_err_msg(st);
            return invalid_result(prefix_msg("Verification failed: ", m.as_str()));
        },
    };
    match expires_at(&payload) {
        Some(e) if now > e => {
            let when = match fmt_unix_timestamp(e) {
                Some(s) => s,
                None => i64_to_string(e),
            };
            VerifyResult {
                is_valid: false,
                error: Some(prefix_msg("Token expired at ", when.as_str())),
                decoded_header: Some(header),
                decoded_payload: Some(payload),
            }
        },
        _ => VerifyResult {
            is_valid: true,
            error: None,
            decoded_header: Some(header),
            decoded_payload: Some(payload),
        },
    }
}

/// Verifies a token against the wall clock sampled once for the call.
pub fn verify_jwt(token: &str, secret: &str, algorithm: &str) -> (r: VerifyResult)
    ensures
        exists|now: i64|
            now >= 0 && spec_verify_matches(
                r,
                #[trigger] spec_verify_outcome(token@, secret@, algorithm@, now),
            ),
{
    let now = now_unix_seconds();
    let r = verify_jwt_at(token, secret, algorithm, now);
    proof {
        assert(spec_verify_matches(r, spec_verify_outcome(token@, secret@, algorithm@, now)));
    }
    r
}

} // verus!
