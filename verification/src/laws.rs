//! What holds of signing and verification for every input.

use vstd::prelude::*;
use crate::hashing::spec_compute_h;
use crate::hashing::HashToCurveError;
use crate::plume::spec_nullifier;
use crate::plume::spec_sign_with_h;
use crate::plume::spec_sign_with_r;
use crate::plume::spec_verify_non_zk;
use crate::plume::spec_verify_with_h;
use crate::plume::PlumeSignatureView;
use crate::point::curve_mul;
use crate::point::curve_sub;
use crate::point::lemma_sec1_compressed_len;
use crate::point::PointView;
use crate::scalar::group_order;
use crate::transcript::spec_challenge;
use crate::transcript::spec_transcript;
use crate::transcript::PlumeVersion;

verus! {

/// Multiplying `base` by `a` and the product by `b` is multiplying `base`
/// by `a * b`, taken modulo the group order.
pub open spec fn product_law_at(base: PointView, a: nat, b: nat) -> bool {
    curve_mul(curve_mul(base, a), b) == curve_mul(base, (a * b) % group_order())
}

/// Taking `base * b` away from `base * (a + b)`, the sum taken modulo the
/// group order, leaves `base * a`.
pub open spec fn cancel_law_at(base: PointView, a: nat, b: nat) -> bool {
    curve_sub(curve_mul(base, (a + b) % group_order()), curve_mul(base, b)) == curve_mul(base, a)
}

/// Multiplication by scalars below the group order treats `base` as an
/// element of a group of that order.
pub open spec fn scalars_act_on(base: PointView) -> bool {
    &&& forall|a: nat, b: nat|
        a < group_order() && b < group_order() ==> #[trigger] product_law_at(base, a, b)
    &&& forall|a: nat, b: nat|
        a < group_order() && b < group_order() ==> #[trigger] cancel_law_at(base, a, b)
}

/// Completeness on a hashed point. The signature made with secret key
/// `sk` and nonce `r` passes the three checks under the public key `g * sk`
/// and the same version, provided that on the generator `g` and on the
/// hashed point `h` the two laws hold for the scalars of this signature:
/// the product law for `sk` and the challenge `c`, the cancel law for `r`
/// and `sk * c`.
pub proof fn lemma_honest_signature_verifies(
    g: PointView,
    pk: PointView,
    sk: nat,
    h: PointView,
    r: nat,
    version: PlumeVersion,
)
    requires
        pk == curve_mul(g, sk),
        ({
            let c = spec_sign_with_h(g, pk, sk, h, r, version).c;
            &&& product_law_at(g, sk, c)
            &&& cancel_law_at(g, r, (sk * c) % group_order())
            &&& product_law_at(h, sk, c)
            &&& cancel_law_at(h, r, (sk * c) % group_order())
        }),
    ensures
        spec_verify_with_h(spec_sign_with_h(g, pk, sk, h, r, version), g, pk, h, version),
{
    let n = group_order();
    let c = spec_sign_with_h(g, pk, sk, h, r, version).c;
    assert((r + (sk * c) % n) % n == (r + sk * c) % n) by {
        vstd::arithmetic::div_mod::lemma_add_mod_noop_right(r as int, (sk * c) as int, n as int);
    }
}

/// Completeness on a message. Where scalars act on the generator and on
/// the point that the message hashes to as on elements of a group of the
/// group order (as they do on every point of the curve, by arithmetic that
/// is not this library's), verifying what signing returned gives
/// `Ok(true)`, for every secret key and nonce below the group order and
/// both versions; where signing fails, hashing the message failed with the
/// same error.
pub proof fn lemma_signed_message_verifies(
    g: PointView,
    pk: PointView,
    sk: nat,
    message: Seq<u8>,
    r: nat,
    version: PlumeVersion,
)
    requires
        pk == curve_mul(g, sk),
        sk < group_order(),
        r < group_order(),
        scalars_act_on(g),
        spec_compute_h(pk, message) matches Ok(h) ==> scalars_act_on(h),
    ensures
        match spec_sign_with_r(g, pk, sk, message, r, version) {
            Ok(signature) => spec_verify_non_zk(signature, g, pk, message, version) == Ok::<
                bool,
                HashToCurveError,
            >(true),
            Err(e) => spec_compute_h(pk, message) == Err::<PointView, HashToCurveError>(e),
        },
{
    match spec_compute_h(pk, message) {
        Ok(h) => {
            let c = spec_sign_with_h(g, pk, sk, h, r, version).c;
            let blinded = (sk * c) % group_order();
            assert(product_law_at(g, sk, c));
            assert(cancel_law_at(g, r, blinded));
            assert(product_law_at(h, sk, c));
            assert(cancel_law_at(h, r, blinded));
            lemma_honest_signature_verifies(g, pk, sk, h, r, version);
        },
        Err(_) => {},
    }
}

/// The nullifier is fixed by the public key, the secret key and the
/// message: signing twice, with any two nonces and under any two versions,
/// gives the same nullifier, `spec_nullifier` of the three, or fails twice
/// with the same error.
pub proof fn lemma_nullifier_is_deterministic(
    g: PointView,
    pk: PointView,
    sk: nat,
    message: Seq<u8>,
    r1: nat,
    version1: PlumeVersion,
    r2: nat,
    version2: PlumeVersion,
)
    ensures
        match (
            spec_sign_with_r(g, pk, sk, message, r1, version1),
            spec_sign_with_r(g, pk, sk, message, r2, version2),
        ) {
            (Ok(first), Ok(second)) => first.nullifier == second.nullifier && spec_nullifier(
                pk,
                sk,
                message,
            ) == Ok::<PointView, HashToCurveError>(first.nullifier),
            (Err(e1), Err(e2)) => e1 == e2 && spec_nullifier(pk, sk, message) == Err::<
                PointView,
                HashToCurveError,
            >(e1),
            _ => false,
        },
{
}

/// Where hashing the message to the curve fails, signing and verification
/// both fail with the error of the hashing, whatever else they are given.
pub proof fn lemma_hash_failure_propagates(
    signature: PlumeSignatureView,
    g: PointView,
    pk: PointView,
    sk: nat,
    message: Seq<u8>,
    r: nat,
    version: PlumeVersion,
)
    ensures
        spec_compute_h(pk, message) matches Err(e) ==> {
            &&& spec_sign_with_r(g, pk, sk, message, r, version) == Err::<
                PlumeSignatureView,
                HashToCurveError,
            >(e)
            &&& spec_verify_non_zk(signature, g, pk, message, version) == Err::<
                bool,
                HashToCurveError,
            >(e)
        },
        spec_compute_h(pk, message) is Ok ==> {
            &&& spec_sign_with_r(g, pk, sk, message, r, version) is Ok
            &&& spec_verify_non_zk(signature, g, pk, message, version) is Ok
        },
{
}

/// The two versions never hash the same bytes: version 1 hashes 198 of
/// them, version 2 hashes 99.
pub proof fn lemma_versions_hash_different_bytes(
    g: PointView,
    pk: PointView,
    h: PointView,
    nullifier: PointView,
    r_point: PointView,
    hashed_to_curve_r: PointView,
)
    ensures
        spec_transcript(PlumeVersion::V1, g, pk, h, nullifier, r_point, hashed_to_curve_r).len()
            == 198,
        spec_transcript(PlumeVersion::V2, g, pk, h, nullifier, r_point, hashed_to_curve_r).len()
            == 99,
        spec_transcript(PlumeVersion::V1, g, pk, h, nullifier, r_point, hashed_to_curve_r)
            != spec_transcript(PlumeVersion::V2, g, pk, h, nullifier, r_point, hashed_to_curve_r),
{
    lemma_sec1_compressed_len(g);
    lemma_sec1_compressed_len(pk);
    lemma_sec1_compressed_len(h);
    lemma_sec1_compressed_len(nullifier);
    lemma_sec1_compressed_len(r_point);
    lemma_sec1_compressed_len(hashed_to_curve_r);
}

/// A signature that verifies under one version is rejected under the
/// other, unless the two versions' challenges for its points are the same
/// scalar.
pub proof fn lemma_other_version_rejects(
    signature: PlumeSignatureView,
    g: PointView,
    pk: PointView,
    message: Seq<u8>,
    version: PlumeVersion,
    other: PlumeVersion,
)
    requires
        spec_verify_non_zk(signature, g, pk, message, version) == Ok::<bool, HashToCurveError>(
            true,
        ),
        spec_compute_h(pk, message) matches Ok(h) ==> spec_challenge(
            version,
            g,
            pk,
            h,
            signature.nullifier,
            signature.r_point,
            signature.hashed_to_curve_r,
        ) != spec_challenge(
            other,
            g,
            pk,
            h,
            signature.nullifier,
            signature.r_point,
            signature.hashed_to_curve_r,
        ),
    ensures
        spec_verify_non_zk(signature, g, pk, message, other) == Ok::<bool, HashToCurveError>(
            false,
        ),
{
}

/// A signature that verifies is rejected once its challenge is replaced by
/// any other scalar.
pub proof fn lemma_changed_challenge_rejected(
    signature: PlumeSignatureView,
    c: nat,
    g: PointView,
    pk: PointView,
    message: Seq<u8>,
    version: PlumeVersion,
)
    requires
        spec_verify_non_zk(signature, g, pk, message, version) == Ok::<bool, HashToCurveError>(
            true,
        ),
        c != signature.c,
    ensures
        spec_verify_non_zk(PlumeSignatureView { c, ..signature }, g, pk, message, version) == Ok::<
            bool,
            HashToCurveError,
        >(false),
{
}

/// A signature that verifies is rejected once its commitment on the
/// generator is replaced by any other point.
pub proof fn lemma_changed_r_point_rejected(
    signature: PlumeSignatureView,
    r_point: PointView,
    g: PointView,
    pk: PointView,
    message: Seq<u8>,
    version: PlumeVersion,
)
    requires
        spec_verify_non_zk(signature, g, pk, message, version) == Ok::<bool, HashToCurveError>(
            true,
        ),
        r_point != signature.r_point,
    ensures
        spec_verify_non_zk(PlumeSignatureView { r_point, ..signature }, g, pk, message, version)
            == Ok::<bool, HashToCurveError>(false),
{
}

/// A signature that verifies is rejected once its commitment on the hashed
/// point is replaced by any other point.
pub proof fn lemma_changed_hashed_to_curve_r_rejected(
    signature: PlumeSignatureView,
    hashed_to_curve_r: PointView,
    g: PointView,
    pk: PointView,
    message: Seq<u8>,
    version: PlumeVersion,
)
    requires
        spec_verify_non_zk(signature, g, pk, message, version) == Ok::<bool, HashToCurveError>(
            true,
        ),
        hashed_to_curve_r != signature.hashed_to_curve_r,
    ensures
        spec_verify_non_zk(
            PlumeSignatureView { hashed_to_curve_r, ..signature },
            g,
            pk,
            message,
            version,
        ) == Ok::<bool, HashToCurveError>(false),
{
}

} // verus!
