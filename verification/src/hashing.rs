//! The two hash functions that the scheme takes from outside: SHA-256 for
//! the challenge, and hashing to the curve for the point that a message and
//! a public key are bound to.

use vstd::prelude::*;
use crate::point::affine_to_bytes;
use crate::point::sec1_compressed;
use crate::point::Point;
use crate::point::PointView;
use k256::elliptic_curve::hash2curve::ExpandMsgXmd;
use k256::elliptic_curve::hash2curve::GroupDigest;
use k256::elliptic_curve::sec1::Coordinates;
use k256::elliptic_curve::sec1::ToEncodedPoint;
use k256::Secp256k1;
use sha2::Digest;
use sha2::Sha256;

verus! {

/// Why no point could be derived from a message and a public key.
#[derive(Clone, Copy, Debug, PartialEq, Eq, Structural)]
pub enum HashToCurveError {
    /// The hash-to-curve function turned its input down as malformed.
    MalformedInput,
}

/// The domain separation tag under which messages are hashed to the curve:
/// the ASCII text `QUUX-V01-CS02-with-secp256k1_XMD:SHA-256_SSWU_RO_`.
pub const HASH_TO_CURVE_DOMAIN: [u8; 49] = [
    0x51, 0x55, 0x55, 0x58, 0x2D, 0x56, 0x30, 0x31,
    0x2D, 0x43, 0x53, 0x30, 0x32, 0x2D, 0x77, 0x69,
    0x74, 0x68, 0x2D, 0x73, 0x65, 0x63, 0x70, 0x32,
    0x35, 0x36, 0x6B, 0x31, 0x5F, 0x58, 0x4D, 0x44,
    0x3A, 0x53, 0x48, 0x41, 0x2D, 0x32, 0x35, 0x36,
    0x5F, 0x53, 0x53, 0x57, 0x55, 0x5F, 0x52, 0x4F,
    0x5F,
];

/// The SHA-256 digest of a byte string, as `sha2` computes it.
pub uninterp spec fn sha256(data: Seq<u8>) -> Seq<u8>;

/// The point that `k256` hashes a message to under a domain separation tag,
/// or `None` where it turns the input down.
pub uninterp spec fn hash_to_curve(message: Seq<u8>, domain: Seq<u8>) -> Option<PointView>;

/// `sha2::Digest::digest` on `sha2::Sha256`. Believed of it: the digest
/// depends on the bytes alone.
#[verifier::external_body]
pub(crate) fn sha256_digest(data: &[u8]) -> (digest: [u8; 32])
    ensures
        digest@ == sha256(data@),
{
    Sha256::digest(data).into()
}

/// `GroupDigest::hash_from_bytes` on `k256::Secp256k1` with
/// `ExpandMsgXmd<Sha256>`, one message and one tag, the point brought to
/// affine coordinates. Believed of it: point or refusal depend on the
/// message and the tag alone, and the coordinates of a point come out
/// reduced.
#[verifier::external_body]
pub(crate) fn hash_from_bytes(message: &[u8], domain: &[u8]) -> (hashed: Result<
    Point,
    k256::elliptic_curve::Error,
>)
    ensures
        match hashed {
            Ok(point) => hash_to_curve(message@, domain@) == Some(point@) && point.wf(),
            Err(_) => hash_to_curve(message@, domain@) is None,
        },
{
    let hashed = Secp256k1::hash_from_bytes::<ExpandMsgXmd<Sha256>>(&[message], &[domain])?;
    Ok(match hashed.to_affine().to_encoded_point(false).coordinates() {
        Coordinates::Uncompressed { x, y } => Point { x: (*x).into(), y: (*y).into(), infinity: false },
        _ => Point { x: [0u8; 32], y: [0u8; 32], infinity: true },
    })
}

/// `elliptic_curve::Error`, the error without content that `k256` returns
/// where it turns an input down.
#[verifier::external_type_specification]
#[verifier::external_body]
pub struct ExCurveError(k256::elliptic_curve::Error);

/// The point that a message is bound to under a public key: the message,
/// followed by the compressed encoding of the key, hashed to the curve.
pub open spec fn spec_compute_h(pk: PointView, message: Seq<u8>) -> Result<
    PointView,
    HashToCurveError,
> {
    match hash_to_curve(message + sec1_compressed(pk), HASH_TO_CURVE_DOMAIN@) {
        Some(point) => Ok(point),
        None => Err(HashToCurveError::MalformedInput),
    }
}

/// Hashes a message to the curve under a public key.
pub fn compute_h(pk: &Point, message: &[u8]) -> (hashed: Result<Point, HashToCurveError>)
    ensures
        match hashed {
            Ok(point) => spec_compute_h(pk@, message@) == Ok::<PointView, HashToCurveError>(point@),
            Err(e) => spec_compute_h(pk@, message@) == Err::<PointView, HashToCurveError>(e),
        },
{
    let mut input: Vec<u8> = Vec::with_capacity(message.len());
    let mut i: usize = 0;
    while i < message.len()
        invariant
            i <= message.len(),
            input@ == message@.take(i as int),
        decreases message.len() - i,
    {
        input.push(message[i]);
        proof {
            assert(message@.take(i + 1) =~= message@.take(i as int).push(message@[i as int]));
        }
        i += 1;
    }
    let mut key = affine_to_bytes(pk);
    input.append(&mut key);
    proof {
        assert(message@.take(message.len() as int) =~= message@);
    }
    match hash_from_bytes(input.as_slice(), HASH_TO_CURVE_DOMAIN.as_slice()) {
        Ok(point) => Ok(point),
        Err(_) => Err(HashToCurveError::MalformedInput),
    }
}

} // verus!
