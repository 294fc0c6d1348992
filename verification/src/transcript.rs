//! The challenge of a signature: a hash of the points that the proof is
//! about, reduced to a scalar. The two versions of the scheme differ in
//! which points they hash.

use vstd::prelude::*;
use crate::bytes::be_value;
use crate::hashing::sha256;
use crate::hashing::sha256_digest;
use crate::point::affine_to_bytes;
use crate::point::sec1_compressed;
use crate::point::Point;
use crate::point::PointView;
use crate::scalar::group_order;
use crate::scalar::Scalar;

verus! {

/// Which points the challenge is a hash of.
#[derive(Clone, Copy, Debug, PartialEq, Eq, Structural)]
pub enum PlumeVersion {
    /// Generator, public key, hashed point, nullifier and both commitments.
    V1,
    /// Nullifier and both commitments.
    V2,
}

/// What version 1 hashes: the compressed encodings of the generator, the
/// public key, the hashed point, the nullifier and the two commitments, in
/// this order and with nothing between them.
pub open spec fn spec_transcript_v1(
    g_point: PointView,
    pk: PointView,
    hashed_to_curve: PointView,
    nullifier: PointView,
    r_point: PointView,
    hashed_to_curve_r: PointView,
) -> Seq<u8> {
    sec1_compressed(g_point) + sec1_compressed(pk) + sec1_compressed(hashed_to_curve)
        + sec1_compressed(nullifier) + sec1_compressed(r_point) + sec1_compressed(
        hashed_to_curve_r,
    )
}

/// What version 2 hashes: the compressed encodings of the nullifier and the
/// two commitments, in this order and with nothing between them.
pub open spec fn spec_transcript_v2(
    nullifier: PointView,
    r_point: PointView,
    hashed_to_curve_r: PointView,
) -> Seq<u8> {
    sec1_compressed(nullifier) + sec1_compressed(r_point) + sec1_compressed(hashed_to_curve_r)
}

/// What a version hashes.
pub open spec fn spec_transcript(
    version: PlumeVersion,
    g_point: PointView,
    pk: PointView,
    hashed_to_curve: PointView,
    nullifier: PointView,
    r_point: PointView,
    hashed_to_curve_r: PointView,
) -> Seq<u8> {
    match version {
        PlumeVersion::V1 => spec_transcript_v1(
            g_point,
            pk,
            hashed_to_curve,
            nullifier,
            r_point,
            hashed_to_curve_r,
        ),
        PlumeVersion::V2 => spec_transcript_v2(nullifier, r_point, hashed_to_curve_r),
    }
}

/// The challenge: the SHA-256 digest of what the version hashes, read as a
/// big-endian number and reduced modulo the group order.
pub open spec fn spec_challenge(
    version: PlumeVersion,
    g_point: PointView,
    pk: PointView,
    hashed_to_curve: PointView,
    nullifier: PointView,
    r_point: PointView,
    hashed_to_curve_r: PointView,
) -> nat {
    be_value(
        sha256(
            spec_transcript(
                version,
                g_point,
                pk,
                hashed_to_curve,
                nullifier,
                r_point,
                hashed_to_curve_r,
            ),
        ),
    ) % group_order()
}

/// The bytes that version 1 hashes.
pub fn transcript_v1(
    g_point: &Point,
    pk: &Point,
    hashed_to_curve: &Point,
    nullifier: &Point,
    r_point: &Point,
    hashed_to_curve_r: &Point,
) -> (preimage: Vec<u8>)
    ensures
        preimage@ == spec_transcript_v1(
            g_point@,
            pk@,
            hashed_to_curve@,
            nullifier@,
            r_point@,
            hashed_to_curve_r@,
        ),
{
    let mut preimage = affine_to_bytes(g_point);
    let mut next = affine_to_bytes(pk);
    preimage.append(&mut next);
    let mut next = affine_to_bytes(hashed_to_curve);
    preimage.append(&mut next);
    let mut next = affine_to_bytes(nullifier);
    preimage.append(&mut next);
    let mut next = affine_to_bytes(r_point);
    preimage.append(&mut next);
    let mut next = affine_to_bytes(hashed_to_curve_r);
    preimage.append(&mut next);
    preimage
}

/// The bytes that version 2 hashes.
pub fn transcript_v2(nullifier: &Point, r_point: &Point, hashed_to_curve_r: &Point) -> (preimage:
    Vec<u8>)
    ensures
        preimage@ == spec_transcript_v2(nullifier@, r_point@, hashed_to_curve_r@),
{
    let mut preimage = affine_to_bytes(nullifier);
    let mut next = affine_to_bytes(r_point);
    preimage.append(&mut next);
    let mut next = affine_to_bytes(hashed_to_curve_r);
    preimage.append(&mut next);
    preimage
}

/// The digest that the challenge of version 1 is reduced from.
pub fn compute_c_v1(
    g_point: &Point,
    pk: &Point,
    hashed_to_curve: &Point,
    nullifier: &Point,
    r_point: &Point,
    hashed_to_curve_r: &Point,
) -> (digest: [u8; 32])
    ensures
        digest@ == sha256(
            spec_transcript_v1(
                g_point@,
                pk@,
                hashed_to_curve@,
                nullifier@,
                r_point@,
                hashed_to_curve_r@,
            ),
        ),
{
    let preimage = transcript_v1(g_point, pk, hashed_to_curve, nullifier, r_point, hashed_to_curve_r);
    sha256_digest(preimage.as_slice())
}

/// The digest that the challenge of version 2 is reduced from.
pub fn compute_c_v2(nullifier: &Point, r_point: &Point, hashed_to_curve_r: &Point) -> (digest: [
    u8;
    32
])
    ensures
        digest@ == sha256(spec_transcript_v2(nullifier@, r_point@, hashed_to_curve_r@)),
{
    let preimage = transcript_v2(nullifier, r_point, hashed_to_curve_r);
    sha256_digest(preimage.as_slice())
}

/// The challenge of a version as a scalar.
pub fn compute_c(
    version: PlumeVersion,
    g_point: &Point,
    pk: &Point,
    hashed_to_curve: &Point,
    nullifier: &Point,
    r_point: &Point,
    hashed_to_curve_r: &Point,
) -> (c: Scalar)
    ensures
        c@ == spec_challenge(
            version,
            g_point@,
            pk@,
            hashed_to_curve@,
            nullifier@,
            r_point@,
            hashed_to_curve_r@,
        ),
        c.wf(),
{
    let digest = match version {
        PlumeVersion::V1 => compute_c_v1(
            g_point,
            pk,
            hashed_to_curve,
            nullifier,
            r_point,
            hashed_to_curve_r,
        ),
        PlumeVersion::V2 => compute_c_v2(nullifier, r_point, hashed_to_curve_r),
    };
    Scalar::from_be_bytes_mod_order(digest.as_slice())
}

} // verus!
