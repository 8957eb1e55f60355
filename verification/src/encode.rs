//! Token encoding: builds the wire format and signs it.
//!
//! The header is built from the resolved algorithm (`typ` fixed to `JWT`),
//! header and payload are serialized and base64url-encoded, the
//! `header.payload` byte string is signed with the key the algorithm family
//! calls for, and the signature segment is appended.
//!
//! The round-trip law is part of the contract: a token this function
//! returns verifies as valid — under the same secret for HS*, and under
//! any key text that loads to the signing key's public half for RS* —
//! whenever its claims are not yet expired at the verifying clock, and as
//! expired (claims still visible) otherwise.

use vstd::prelude::*;
use vstd::string::StringExecFns;
use vstd::utf8::encode_utf8;

use crate::algs::AlgorithmFamily;
use crate::algs::AlgorithmId;
use crate::algs::resolve;
use crate::algs::spec_resolve;
use crate::claims::spec_is_expired;
use crate::encoding::b64u_encode;
use crate::encoding::b64u_of;
use crate::jsonobj::empty_model;
use crate::jsonobj::json_str_of;
use crate::jsonobj::json_text_of;
use crate::jsonobj::obj_insert_str;
use crate::jsonobj::obj_model;
use crate::jsonobj::obj_new;
use crate::jsonobj::obj_to_string;
use crate::jsonobj::spec_obj_get_i64;
use crate::keys::SigningKey;
use crate::keys::load_signing_key;
use crate::keys::spec_verification_key;
use crate::rsakeys::priv_norm_of;
use crate::rsakeys::pub_pem_of;
use crate::rsakeys::rsa_priv_pem_ok;
use crate::sigcrypto::hmac_sig;
use crate::sigcrypto::hs_sign;
use crate::sigcrypto::rs_sign;
use crate::sigcrypto::rsa_sig;
use crate::strutil::prefix_msg;
use crate::strutil::spec_starts_with;
use crate::token::lemma_wire_token_segments;
use crate::token::spec_decode_obj_segment;
use crate::token::spec_token_segments;
use crate::verify::SpecVerdict;
use crate::verify::spec_verify_outcome;

verus! {

broadcast use vstd::utf8::encode_utf8_valid_utf8, vstd::utf8::encode_utf8_decode_utf8;

/// The header contents that encoding writes: `typ` fixed to `JWT`, `alg`
/// the resolved algorithm's name.
pub open spec fn spec_header_model(alg: AlgorithmId) -> Map<Seq<char>, Seq<char>> {
    empty_model().insert("typ"@, json_str_of("JWT"@)).insert("alg"@, json_str_of(alg.spec_name()))
}

/// The `header.payload` signing input for the given payload contents.
pub open spec fn spec_signing_input(alg: AlgorithmId, p_model: Map<Seq<char>, Seq<char>>) -> Seq<
    char,
> {
    b64u_of(encode_utf8(json_text_of(spec_header_model(alg)))) + seq!['.'] + b64u_of(
        encode_utf8(json_text_of(p_model)),
    )
}

/// The whole signed token for the given key material: the signing input,
/// a dot, and the family's signature over the input.
pub open spec fn spec_signed_token(
    alg: AlgorithmId,
    key: Seq<char>,
    p_model: Map<Seq<char>, Seq<char>>,
) -> Seq<char> {
    let input = spec_signing_input(alg, p_model);
    if alg.spec_family() == AlgorithmFamily::Symmetric {
        input + seq!['.'] + hmac_sig(alg.spec_name(), key, input)
    } else {
        input + seq!['.'] + rsa_sig(alg.spec_name(), key, input)
    }
}

/// The round-trip law: under every verification-key text that loads to the
/// expected material, and at every clock reading, verifying the token
/// yields the valid state with the original header and payload contents —
/// or the expired state, claims still attached, when the claims are stale.
pub open spec fn spec_round_trip(
    token: Seq<char>,
    algorithm: Seq<char>,
    alg: AlgorithmId,
    expect_key: Seq<char>,
    p_model: Map<Seq<char>, Seq<char>>,
) -> bool {
    forall|vkey: Seq<char>, now: i64|
        spec_verification_key(alg, vkey) == Some(expect_key) ==> #[trigger] spec_verify_outcome(
            token,
            vkey,
            algorithm,
            now,
        ) == if spec_is_expired(p_model, now) {
            SpecVerdict::Expired {
                header: spec_header_model(alg),
                payload: p_model,
                exp: spec_obj_get_i64(p_model, "exp"@)->Some_0,
            }
        } else {
            SpecVerdict::Valid { header: spec_header_model(alg), payload: p_model }
        }
}

/// The verification-key material that must accept a token signed with the
/// given secret: the secret itself for HS*, the public half of the parsed
/// private key for RS*.
pub open spec fn spec_expected_vkey(alg: AlgorithmId, secret: Seq<char>) -> Seq<char> {
    if alg.spec_family() == AlgorithmFamily::Symmetric {
        secret
    } else {
        pub_pem_of(priv_norm_of(secret))
    }
}

/// Encodes and signs a token carrying the given payload.
pub fn encode_jwt(
    payload: &serde_json::Map<String, serde_json::Value>,
    secret: &str,
    algorithm: &str,
) -> (r: Result<String, String>)
    ensures
        spec_resolve(algorithm@) is None ==> r is Err && r->Err_0@ == "Unsupported algorithm: "@
            + algorithm@,
        spec_resolve(algorithm@) matches Some(alg) ==> {
            &&& alg.spec_family() == AlgorithmFamily::Symmetric ==> r is Ok && r->Ok_0@
                == spec_signed_token(alg, secret@, obj_model(*payload))
            &&& alg.spec_family() == AlgorithmFamily::Asymmetric && !rsa_priv_pem_ok(secret@)
                ==> r is Err && spec_starts_with(
                r->Err_0@,
                "Failed to parse RSA private key: "@,
            )
            &&& alg.spec_family() == AlgorithmFamily::Asymmetric && rsa_priv_pem_ok(secret@) && r
                is Err ==> spec_starts_with(r->Err_0@, "Failed to encode JWT: "@)
            &&& alg.spec_family() == AlgorithmFamily::Asymmetric && r is Ok ==> r->Ok_0@
                == spec_signed_token(alg, priv_norm_of(secret@), obj_model(*payload))
            &&& r is Ok ==> spec_round_trip(
                r->Ok_0@,
                algorithm@,
                alg,
                spec_expected_vkey(alg, secret@),
                obj_model(*payload),
            )
            &&& r is Ok ==> {
                let segs = spec_token_segments(r->Ok_0@);
                &&& segs.len() == 3
                &&& spec_decode_obj_segment(segs[0]) is Ok && spec_decode_obj_segment(
                    segs[0],
                )->Ok_0 == spec_header_model(alg)
                &&& spec_decode_obj_segment(segs[1]) is Ok && spec_decode_obj_segment(
                    segs[1],
                )->Ok_0 == obj_model(*payload)
            }
        },
{
    let alg = match resolve(algorithm) {
        Ok(a) => a,
        Err(e) => {
            return Err(e);
        },
    };
    let skey = match load_signing_key(alg, secret) {
        Ok(k) => k,
        Err(e) => {
            return Err(e);
        },
    };
    let mut header = obj_new();
    obj_insert_str(&mut header, "typ", "JWT");
    obj_insert_str(&mut header, "alg", alg.name());
    proof {
        assert(obj_model(header) == spec_header_model(alg));
    }
    let h_json = obj_to_string(&header);
    let p_json = obj_to_string(payload);
    let h64 = b64u_encode(h_json.as_str().as_bytes());
    let p64 = b64u_encode(p_json.as_str().as_bytes());
    let mut input = h64;
    input.append(".");
    input.append(p64.as_str());
    proof {
        reveal_strlit(".");
        assert(input@ == spec_signing_input(alg, obj_model(*payload)));
    }
    let sig = match &skey {
        SigningKey::Secret(k) => hs_sign(alg, k.as_str(), input.as_str()),
        SigningKey::RsaPrivate(pem) => match rs_sign(alg, pem.as_str(), input.as_str()) {
            Ok(s) => s,
            Err(e) => {
                return Err(prefix_msg("Failed to encode JWT: ", e.as_str()));
            },
        },
    };
    let ghost input_view = input@;
    let mut token = input;
    token.append(".");
    token.append(sig.as_str());
    proof {
        reveal_strlit(".");
        let p_model = obj_model(*payload);
        let key = skey.spec_material();
        assert(token@ == spec_signed_token(alg, key, p_model));
        lemma_wire_token_segments(
            b64u_of(encode_utf8(json_text_of(spec_header_model(alg)))),
            b64u_of(encode_utf8(json_text_of(p_model))),
            sig@,
        );
        assert(spec_token_segments(token@) == seq![
            b64u_of(encode_utf8(json_text_of(spec_header_model(alg)))),
            b64u_of(encode_utf8(json_text_of(p_model))),
            sig@,
        ]);
        assert forall|vkey: Seq<char>, now: i64|
            spec_verification_key(alg, vkey) == Some(
                spec_expected_vkey(alg, secret@),
            ) implies #[trigger] spec_verify_outcome(token@, vkey, algorithm@, now) == (
        if spec_is_expired(p_model, now) {
            SpecVerdict::Expired {
                header: spec_header_model(alg),
                payload: p_model,
                exp: spec_obj_get_i64(p_model, "exp"@)->Some_0,
            }
        } else {
            SpecVerdict::Valid { header: spec_header_model(alg), payload: p_model }
        }) by {
            let segs = spec_token_segments(token@);
            assert(segs.len() == 3);
            assert(segs[0] + seq!['.'] + segs[1] == input_view);
            assert(spec_header_model(alg).contains_key("alg"@));
            assert(spec_header_model(alg)["alg"@] == json_str_of(alg.spec_name()));
        }
    }
    Ok(token)
}

} // verus!
