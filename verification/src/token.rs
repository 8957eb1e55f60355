//! Token Codec: the three-segment wire format.
//!
//! A token is trimmed, an optional `"Bearer "` prefix is stripped, and the
//! rest must split on `.` into exactly three segments. Header and payload
//! segments decode in three stages — base64url, UTF-8, JSON object — each
//! with its own failure message, independent of signature verification.

use vstd::prelude::*;

use crate::claims::is_expired;
use crate::claims::issued_at;
use crate::claims::expires_at;
use crate::claims::spec_is_expired;
use crate::encoding::b64u_decode;
use crate::encoding::b64u_decode_of;
use crate::encoding::utf8_to_string;
use crate::jsonobj::obj_model;
use crate::jsonobj::parse_json_obj;
use crate::jsonobj::parsed_obj_of;
use crate::jsonobj::spec_obj_get_i64;
use crate::strutil::prefix_msg;
use crate::strutil::spec_split;
use crate::strutil::spec_strip_bearer;
use crate::strutil::spec_trim;
use crate::strutil::split_char;
use crate::strutil::strip_bearer;
use crate::strutil::trim_ws;
use crate::strutil::u64_to_string;
use crate::strutil::dec_nat;
use crate::timefmt::now_unix_seconds;
use vstd::utf8::decode_utf8;
use vstd::utf8::valid_utf8;

verus! {

/// The informational decoding of a token: both maps, the raw signature
/// segment, and the time-based claim summary.
#[derive(Debug)]
pub struct JwtParts {
    pub header: serde_json::Map<String, serde_json::Value>,
    pub payload: serde_json::Map<String, serde_json::Value>,
    pub signature: String,
    pub is_expired: bool,
    pub expires_at: Option<i64>,
    pub issued_at: Option<i64>,
}

/// The three decoding stages of an object segment, each a distinct
/// corruption class.
#[derive(Clone, Copy, PartialEq, Eq, Structural, Debug)]
pub enum SegStage {
    Base64,
    Utf8,
    Json,
}

/// The segments of a token after trimming and `"Bearer "` stripping.
pub open spec fn spec_token_segments(token: Seq<char>) -> Seq<Seq<char>> {
    spec_split(spec_strip_bearer(spec_trim(token)), '.')
}

/// What decoding an object segment yields: the object contents, or the
/// stage that failed.
pub open spec fn spec_decode_obj_segment(seg: Seq<char>) -> Result<
    Map<Seq<char>, Seq<char>>,
    SegStage,
> {
    match b64u_decode_of(seg) {
        None => Err(SegStage::Base64),
        Some(bytes) => {
            if !valid_utf8(bytes) {
                Err(SegStage::Utf8)
            } else {
                match parsed_obj_of(decode_utf8(bytes)) {
                    None => Err(SegStage::Json),
                    Some(m) => Ok(m),
                }
            }
        },
    }
}

/// Decodes one object segment: base64url, then UTF-8, then a JSON object.
pub fn decode_obj_segment(seg: &str) -> (r: Result<
    serde_json::Map<String, serde_json::Value>,
    SegStage,
>)
    ensures
        r is Ok <==> spec_decode_obj_segment(seg@) is Ok,
        r is Ok ==> Ok::<Map<Seq<char>, Seq<char>>, SegStage>(obj_model(r->Ok_0)) == spec_decode_obj_segment(seg@),
        r is Err ==> Err::<Map<Seq<char>, Seq<char>>, SegStage>(r->Err_0) == spec_decode_obj_segment(seg@),
{
    match b64u_decode(seg) {
        None => Err(SegStage::Base64),
        Some(bytes) => match utf8_to_string(bytes) {
            None => Err(SegStage::Utf8),
            Some(text) => match parse_json_obj(text.as_str()) {
                None => Err(SegStage::Json),
                Some(m) => Ok(m),
            },
        },
    }
}

/// The decode failure message for each header-segment stage.
pub open spec fn spec_header_err_msg(st: SegStage) -> Seq<char> {
    match st {
        SegStage::Base64 => "Failed to decode header: invalid base64url"@,
        SegStage::Utf8 => "Failed to decode header: invalid UTF-8"@,
        SegStage::Json => "Failed to decode header: not a JSON object"@,
    }
}

/// The decode failure message for each payload-segment stage.
pub open spec fn spec_payload_err_msg(st: SegStage) -> Seq<char> {
    match st {
        SegStage::Base64 => "Failed to decode payload: invalid base64url"@,
        SegStage::Utf8 => "Invalid UTF-8 in payload"@,
        SegStage::Json => "Failed to parse payload JSON"@,
    }
}

/// The header-segment failure message.
pub fn header_err_msg(st: SegStage) -> (r: String)
    ensures
        r@ == spec_header_err_msg(st),
{
    match st {
        SegStage::Base64 => String::from_str("Failed to decode header: invalid base64url"),
        SegStage::Utf8 => String::from_str("Failed to decode header: invalid UTF-8"),
        SegStage::Json => String::from_str("Failed to decode header: not a JSON object"),
    }
}

/// The payload-segment failure message.
pub fn payload_err_msg(st: SegStage) -> (r: String)
    ensures
        r@ == spec_payload_err_msg(st),
{
    match st {
        SegStage::Base64 => String::from_str("Failed to decode payload: invalid base64url"),
        SegStage::Utf8 => String::from_str("Invalid UTF-8 in payload"),
        SegStage::Json => String::from_str("Failed to parse payload JSON"),
    }
}

/// The format-error message carrying the observed segment count.
pub open spec fn spec_segment_count_msg(n: nat) -> Seq<char> {
    "Invalid JWT format: expected 3 segments, found "@ + dec_nat(n)
}

/// The format-error message carrying the observed segment count.
pub fn segment_count_msg(n: usize) -> (r: String)
    ensures
        r@ == spec_segment_count_msg(n as nat),
{
    let num = u64_to_string(n as u64);
    prefix_msg("Invalid JWT format: expected 3 segments, found ", num.as_str())
}

/// Everything `decode_jwt` promises, at the given clock reading.
pub open spec fn spec_decode_post(token: Seq<char>, r: Result<JwtParts, String>, now: i64) -> bool {
    let segs = spec_token_segments(token);
    &&& (r is Ok <==> segs.len() == 3 && spec_decode_obj_segment(segs[0]) is Ok
        && spec_decode_obj_segment(segs[1]) is Ok)
    &&& (segs.len() != 3 ==> r is Err && r->Err_0@ == spec_segment_count_msg(segs.len()))
    &&& (segs.len() == 3 && spec_decode_obj_segment(segs[0]) is Err ==> r is Err && r->Err_0@
        == spec_header_err_msg(spec_decode_obj_segment(segs[0])->Err_0))
    &&& (segs.len() == 3 && spec_decode_obj_segment(segs[0]) is Ok && spec_decode_obj_segment(
        segs[1],
    ) is Err ==> r is Err && r->Err_0@ == spec_payload_err_msg(
        spec_decode_obj_segment(segs[1])->Err_0,
    ))
    &&& (r is Ok ==> {
        let p = spec_decode_obj_segment(segs[1])->Ok_0;
        &&& obj_model(r->Ok_0.header) == spec_decode_obj_segment(segs[0])->Ok_0
        &&& obj_model(r->Ok_0.payload) == p
        &&& r->Ok_0.signature@ == segs[2]
        &&& r->Ok_0.expires_at == spec_obj_get_i64(p, "exp"@)
        &&& r->Ok_0.issued_at == spec_obj_get_i64(p, "iat"@)
        &&& r->Ok_0.is_expired == spec_is_expired(p, now)
    })
}

/// Decodes a token without verifying it, evaluating expiry against the
/// given clock reading: strips an optional `"Bearer "` prefix, requires
/// exactly three dot-separated segments, and decodes header and payload
/// independently of the signature.
pub fn decode_jwt_at(token: &str, now: i64) -> (r: Result<JwtParts, String>)
    ensures
        spec_decode_post(token@, r, now),
{
    let trimmed = trim_ws(token);
    let t = strip_bearer(trimmed);
    let parts = split_char(t, '.');
    proof {
        assert(parts.deep_view() == spec_token_segments(token@));
    }
    if parts.len() != 3 {
        return Err(segment_count_msg(parts.len()));
    }
    proof {
        assert(parts.deep_view()[0] == parts@[0]@);
        assert(parts.deep_view()[1] == parts@[1]@);
        assert(parts.deep_view()[2] == parts@[2]@);
    }
    let header = match decode_obj_segment(parts[0].as_str()) {
        Ok(m) => m,
        Err(st) => {
            return Err(header_err_msg(st));
        },
    };
    let payload = match decode_obj_segment(parts[1].as_str()) {
        Ok(m) => m,
        Err(st) => {
            return Err(payload_err_msg(st));
        },
    };
    let exp = expires_at(&payload);
    let iat = issued_at(&payload);
    let expired = is_expired(&payload, now);
    let signature = parts[2].clone();
    Ok(
        JwtParts {
            header,
            payload,
            signature,
            is_expired: expired,
            expires_at: exp,
            issued_at: iat,
        },
    )
}

/// Decodes a token without verifying it, evaluating expiry against the
/// wall clock sampled once for the call.
pub fn decode_jwt(token: &str) -> (r: Result<JwtParts, String>)
    ensures
        exists|now: i64| now >= 0 && #[trigger] spec_decode_post(token@, r, now),
{
    let now = now_unix_seconds();
    let r = decode_jwt_at(token, now);
    proof {
        assert(spec_decode_post(token@, r, now));
    }
    r
}


/// Characters of the wire format are never whitespace.
proof fn lemma_b64url_not_ws(c: char)
    requires
        crate::encoding::is_b64url_char(c) || c == '.',
    ensures
        !crate::strutil::is_ws(c),
{
}

/// A token assembled from three base64url segments survives trimming and
/// `"Bearer "` stripping unchanged and splits back into those segments.
pub proof fn lemma_wire_token_segments(h: Seq<char>, p: Seq<char>, g: Seq<char>)
    requires
        forall|i: int| 0 <= i < h.len() ==> crate::encoding::is_b64url_char(#[trigger] h[i]),
        forall|i: int| 0 <= i < p.len() ==> crate::encoding::is_b64url_char(#[trigger] p[i]),
        forall|i: int| 0 <= i < g.len() ==> crate::encoding::is_b64url_char(#[trigger] g[i]),
    ensures
        spec_token_segments(h + seq!['.'] + p + seq!['.'] + g) == seq![h, p, g],
{
    let t = h + seq!['.'] + p + seq!['.'] + g;
    assert forall|i: int| 0 <= i < t.len() implies crate::encoding::is_b64url_char(#[trigger] t[i])
        || t[i] == '.' by {
        if i < h.len() {
            assert(t[i] == h[i]);
        } else if i == h.len() {
            assert(t[i] == '.');
        } else if i < h.len() + 1 + p.len() {
            assert(t[i] == p[i - h.len() - 1]);
        } else if i == h.len() + 1 + p.len() {
            assert(t[i] == '.');
        } else {
            assert(t[i] == g[i - h.len() - 1 - p.len() - 1]);
        }
    }
    assert(t.len() >= 2);
    lemma_b64url_not_ws(t[0]);
    lemma_b64url_not_ws(t[t.len() - 1]);
    crate::strutil::lemma_trim_id(t);
    assert(!crate::strutil::has_bearer_prefix(t)) by {
        reveal_strlit("Bearer ");
        if crate::strutil::has_bearer_prefix(t) {
            assert(t.subrange(0, 7)[6] == t[6]);
            assert(t[6] == ' ');
            lemma_b64url_not_ws(t[6]);
        }
    }
    assert(crate::strutil::spec_strip_bearer(crate::strutil::spec_trim(t)) == t);
    assert(t =~= h + seq!['.'] + (p + seq!['.'] + g));
    crate::strutil::lemma_split_step(h, p + seq!['.'] + g, '.');
    crate::strutil::lemma_split_step(p, g, '.');
    crate::strutil::lemma_split_whole(g, '.');
    assert(spec_token_segments(t) =~= seq![h] + (seq![p] + seq![g]));
    assert(seq![h] + (seq![p] + seq![g]) =~= seq![h, p, g]);
}


/// Decodes only the header segment of a token: enough to learn the
/// declared algorithm and any key id, for informational display — never
/// for verification, which pins the caller's declared algorithm instead.
pub fn decode_header_segment(token: &str) -> (r: Result<
    serde_json::Map<String, serde_json::Value>,
    String,
>)
    ensures
        ({
            let segs = spec_token_segments(token@);
            &&& (r is Ok <==> segs.len() == 3 && spec_decode_obj_segment(segs[0]) is Ok)
            &&& (r is Ok ==> Ok::<Map<Seq<char>, Seq<char>>, SegStage>(obj_model(r->Ok_0))
                == spec_decode_obj_segment(segs[0]))
            &&& (segs.len() != 3 ==> r is Err && r->Err_0@ == spec_segment_count_msg(segs.len()))
            &&& (segs.len() == 3 && spec_decode_obj_segment(segs[0]) is Err ==> r is Err
                && r->Err_0@ == spec_header_err_msg(spec_decode_obj_segment(segs[0])->Err_0))
        }),
{
    let trimmed = trim_ws(token);
    let t = strip_bearer(trimmed);
    let parts = split_char(t, '.');
    proof {
        assert(parts.deep_view() == spec_token_segments(token@));
    }
    if parts.len() != 3 {
        return Err(segment_count_msg(parts.len()));
    }
    proof {
        assert(parts.deep_view()[0] == parts@[0]@);
    }
    match decode_obj_segment(parts[0].as_str()) {
        Ok(m) => Ok(m),
        Err(st) => Err(header_err_msg(st)),
    }
}

} // verus!
