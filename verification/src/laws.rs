//! Laws that relate the token codec, the encoder and the verification
//! engine, stated over the same spec functions their contracts use.

use vstd::prelude::*;

use crate::algs::AlgorithmFamily;
use crate::algs::AlgorithmId;
use crate::algs::spec_resolve;
use crate::claims::spec_is_expired;
use crate::encode::spec_expected_vkey;
use crate::encode::spec_header_model;
use crate::encode::spec_round_trip;
use crate::jsonobj::spec_obj_get_i64;
use crate::keys::spec_verification_key;
use crate::rsakeys::priv_norm_of;
use crate::rsakeys::pub_norm_of;
use crate::rsakeys::pub_pem_of;
use crate::rsakeys::rsa_priv_pem_ok;
use crate::rsakeys::rsa_pub_pem_ok;
use crate::jsonobj::obj_model;
use crate::sigcrypto::hmac_sig;
use crate::token::JwtParts;
use crate::token::spec_decode_obj_segment;
use crate::token::spec_decode_post;
use crate::token::spec_token_segments;
use crate::verify::InvalidReason;
use crate::verify::SpecVerdict;
use crate::verify::VerifyResult;
use crate::verify::spec_verify_matches;
use crate::verify::spec_verify_outcome;

verus! {

/// Tampering with the signature of a shared-secret token is always caught:
/// whenever the token's signature segment is not the one HMAC signing
/// yields for its first two segments — or the token does not even split
/// into three segments — verification ends in the invalid state; and an
/// invalid result never carries a decoded header or payload.
pub proof fn lemma_hs_signature_tamper(
    token: Seq<char>,
    secret: Seq<char>,
    algorithm: Seq<char>,
    alg: AlgorithmId,
    now: i64,
)
    ensures
        (spec_resolve(algorithm) == Some(alg) && alg.spec_family() == AlgorithmFamily::Symmetric
            && !(spec_token_segments(token).len() == 3 && spec_token_segments(token)[2]
            == hmac_sig(
            alg.spec_name(),
            secret,
            spec_token_segments(token)[0] + seq!['.'] + spec_token_segments(token)[1],
        ))) ==> spec_verify_outcome(token, secret, algorithm, now) matches SpecVerdict::Invalid {
            ..
        },
        forall|r: VerifyResult, reason: InvalidReason|
            #[trigger] spec_verify_matches(r, SpecVerdict::Invalid { reason }) ==> (!r.is_valid
                && r.decoded_header is None && r.decoded_payload is None),
{
}

/// Decoding never fails on a structurally valid token, whatever its
/// signature segment holds: a result meeting the decoder's contract is a
/// success exactly when the token splits into three segments whose header
/// and payload decode, and it hands back exactly the contents carried on
/// the wire — the signature is returned untouched and never checked.
pub proof fn lemma_decode_is_structural(token: Seq<char>, r: Result<JwtParts, String>, now: i64)
    ensures
        (spec_decode_post(token, r, now) && spec_token_segments(token).len() == 3
            && spec_decode_obj_segment(spec_token_segments(token)[0]) is Ok
            && spec_decode_obj_segment(spec_token_segments(token)[1]) is Ok) ==> (r is Ok
            && obj_model(r->Ok_0.header) == spec_decode_obj_segment(
            spec_token_segments(token)[0],
        )->Ok_0 && obj_model(r->Ok_0.payload) == spec_decode_obj_segment(
            spec_token_segments(token)[1],
        )->Ok_0 && r->Ok_0.signature@ == spec_token_segments(token)[2]),
{
}


/// The shared-secret round trip: a token carrying the encoder's round-trip
/// guarantee verifies under the same secret at every clock reading — valid
/// with the original header and payload contents while the claims are
/// fresh, expired with the claims still attached once they are stale.
pub proof fn lemma_hs_round_trip(
    token: Seq<char>,
    algorithm: Seq<char>,
    alg: AlgorithmId,
    secret: Seq<char>,
    p_model: Map<Seq<char>, Seq<char>>,
    now: i64,
)
    ensures
        alg.spec_family() == AlgorithmFamily::Symmetric && spec_round_trip(
            token,
            algorithm,
            alg,
            secret,
            p_model,
        ) ==> spec_verify_outcome(token, secret, algorithm, now) == (
        if spec_is_expired(p_model, now) {
            SpecVerdict::Expired {
                header: spec_header_model(alg),
                payload: p_model,
                exp: spec_obj_get_i64(p_model, "exp"@)->Some_0,
            }
        } else {
            SpecVerdict::Valid { header: spec_header_model(alg), payload: p_model }
        }),
{
}

/// The RSA round trip: a token carrying the encoder's round-trip guarantee
/// for a generated keypair verifies under the public half — and equally
/// under the private key itself, which verification accepts by deriving
/// its public half.
pub proof fn lemma_rsa_keypair_round_trip(
    token: Seq<char>,
    algorithm: Seq<char>,
    alg: AlgorithmId,
    private_pem: Seq<char>,
    public_pem: Seq<char>,
    p_model: Map<Seq<char>, Seq<char>>,
    now: i64,
)
    ensures
        (alg.spec_family() == AlgorithmFamily::Asymmetric && rsa_priv_pem_ok(private_pem)
            && priv_norm_of(private_pem) == private_pem && !rsa_pub_pem_ok(private_pem)
            && rsa_pub_pem_ok(public_pem) && pub_norm_of(public_pem) == public_pem && public_pem
            == pub_pem_of(private_pem) && spec_round_trip(
            token,
            algorithm,
            alg,
            spec_expected_vkey(alg, private_pem),
            p_model,
        )) ==> {
            let expected = if spec_is_expired(p_model, now) {
                SpecVerdict::Expired {
                    header: spec_header_model(alg),
                    payload: p_model,
                    exp: spec_obj_get_i64(p_model, "exp"@)->Some_0,
                }
            } else {
                SpecVerdict::Valid { header: spec_header_model(alg), payload: p_model }
            };
            spec_verify_outcome(token, public_pem, algorithm, now) == expected
                && spec_verify_outcome(token, private_pem, algorithm, now) == expected
        },
{
    if alg.spec_family() == AlgorithmFamily::Asymmetric && rsa_priv_pem_ok(private_pem)
        && priv_norm_of(private_pem) == private_pem && !rsa_pub_pem_ok(private_pem)
        && rsa_pub_pem_ok(public_pem) && pub_norm_of(public_pem) == public_pem && public_pem
        == pub_pem_of(private_pem) {
        assert(spec_verification_key(alg, public_pem) == Some(pub_pem_of(private_pem)));
        assert(spec_verification_key(alg, private_pem) == Some(pub_pem_of(private_pem)));
        assert(spec_expected_vkey(alg, private_pem) == pub_pem_of(private_pem));
    }
}

} // verus!
