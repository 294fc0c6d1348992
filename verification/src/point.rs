//! Points in affine coordinates over the base field of secp256k1, their
//! compressed encoding, and the group operations that the signature scheme
//! takes from `ark_ec`.

use vstd::prelude::*;
use crate::bytes::be_bytes;
use crate::bytes::be_value;
use crate::bytes::lemma_be_bytes_len;
use crate::bytes::lemma_be_bytes_of_be_value;
use crate::bytes::bytes32_eq;
use crate::bytes::bytes32_less;
use crate::bytes::lemma_be_value_injective;
use crate::scalar::Scalar;
use ark_ec::CurveGroup;
use ark_ff::BigInteger;
use ark_ff::PrimeField;
use ark_secp256k1::Affine;
use ark_secp256k1::Fq;
use ark_secp256k1::Fr;

verus! {

/// The prime modulus of the field that the coordinates of a point lie in.
pub open spec fn field_modulus() -> nat {
    0xFFFFFFFF_FFFFFFFF_FFFFFFFF_FFFFFFFF_FFFFFFFF_FFFFFFFF_FFFFFFFE_FFFFFC2Fnat
}

/// The field modulus, most significant byte first.
pub const FIELD_MODULUS_BYTES: [u8; 32] = [
    0xFF, 0xFF, 0xFF, 0xFF, 0xFF, 0xFF, 0xFF, 0xFF,
    0xFF, 0xFF, 0xFF, 0xFF, 0xFF, 0xFF, 0xFF, 0xFF,
    0xFF, 0xFF, 0xFF, 0xFF, 0xFF, 0xFF, 0xFF, 0xFF,
    0xFF, 0xFF, 0xFF, 0xFE, 0xFF, 0xFF, 0xFC, 0x2F,
];

/// The bytes of `FIELD_MODULUS_BYTES` spell the field modulus.
pub proof fn lemma_field_modulus_bytes()
    ensures
        be_value(FIELD_MODULUS_BYTES@) == field_modulus(),
{
    reveal_with_fuel(be_value, 33);
}

/// What a `Point` stands for: two coordinates, or the point at infinity,
/// which has both coordinates zero.
pub ghost struct PointView {
    pub x: nat,
    pub y: nat,
    pub infinity: bool,
}

impl PointView {
    /// Both coordinates lie below the field modulus, and the point at
    /// infinity has them zero.
    pub open spec fn wf(self) -> bool {
        &&& self.x < field_modulus()
        &&& self.y < field_modulus()
        &&& self.infinity ==> self.x == 0 && self.y == 0
    }
}

/// A point in affine coordinates, each held in 32 big-endian bytes.
#[derive(Clone, Copy, Debug)]
pub struct Point {
    pub(crate) x: [u8; 32],
    pub(crate) y: [u8; 32],
    pub(crate) infinity: bool,
}

impl View for Point {
    type V = PointView;

    closed spec fn view(&self) -> PointView {
        PointView { x: be_value(self.x@), y: be_value(self.y@), infinity: self.infinity }
    }
}

impl PartialEq for Point {
    fn eq(&self, other: &Point) -> (same: bool) {
        proof {
            if self@ == other@ {
                lemma_be_value_injective(self.x@, other.x@);
                lemma_be_value_injective(self.y@, other.y@);
            }
        }
        self.infinity == other.infinity && bytes32_eq(&self.x, &other.x) && bytes32_eq(
            &self.y,
            &other.y,
        )
    }
}

impl Eq for Point {

}

impl vstd::std_specs::cmp::PartialEqSpecImpl for Point {
    open spec fn obeys_eq_spec() -> bool {
        true
    }

    open spec fn eq_spec(&self, other: &Point) -> bool {
        self@ == other@
    }
}

impl Point {
    /// Both coordinates lie below the field modulus, and the point at
    /// infinity has them zero. Every point that executable code holds is so.
    #[verifier::type_invariant]
    pub open spec fn wf(&self) -> bool {
        self@.wf()
    }

    /// The point with the coordinates that `x` and `y` spell, if both lie
    /// below the field modulus. Whether the point lies on the curve is not
    /// looked at.
    pub fn from_coordinates(x: [u8; 32], y: [u8; 32]) -> (made: Option<Point>)
        ensures
            made is Some <==> be_value(x@) < field_modulus() && be_value(y@) < field_modulus(),
            made matches Some(p) ==> p.wf() && p@ == (PointView {
                x: be_value(x@),
                y: be_value(y@),
                infinity: false,
            }),
    {
        proof {
            lemma_field_modulus_bytes();
        }
        if bytes32_less(&x, &FIELD_MODULUS_BYTES) && bytes32_less(&y, &FIELD_MODULUS_BYTES) {
            Some(Point { x, y, infinity: false })
        } else {
            None
        }
    }

    /// The point at infinity, the neutral element of the group.
    pub fn identity() -> (neutral: Point)
        ensures
            neutral@ == (PointView { x: 0, y: 0, infinity: true }),
            neutral.wf(),
    {
        proof {
            reveal_with_fuel(be_value, 33);
        }
        Point { x: [0u8; 32], y: [0u8; 32], infinity: true }
    }

    /// The first coordinate as 32 big-endian bytes.
    pub fn x_bytes(&self) -> (bytes: [u8; 32])
        ensures
            be_value(bytes@) == self@.x,
            self.wf(),
    {
        proof {
            use_type_invariant(self);
        }
        self.x
    }

    /// The second coordinate as 32 big-endian bytes.
    pub fn y_bytes(&self) -> (bytes: [u8; 32])
        ensures
            be_value(bytes@) == self@.y,
            self.wf(),
    {
        proof {
            use_type_invariant(self);
        }
        self.y
    }

    /// Whether this is the point at infinity.
    pub fn is_identity(&self) -> (neutral: bool)
        ensures
            neutral == self@.infinity,
    {
        self.infinity
    }
}

/// The compressed encoding of a point: a byte that tells whether the second
/// coordinate is even (2) or odd (3), then the first coordinate in 32
/// big-endian bytes. Every point has 33 bytes, the point at infinity too.
pub open spec fn sec1_compressed(point: PointView) -> Seq<u8> {
    seq![if point.y % 2 == 0 { 2u8 } else { 3u8 }] + be_bytes(point.x, 32)
}

/// The compressed encoding of every point has 33 bytes.
pub proof fn lemma_sec1_compressed_len(point: PointView)
    ensures
        sec1_compressed(point).len() == 33,
{
    lemma_be_bytes_len(point.x, 32);
}

/// The compressed encoding of a point.
pub fn affine_to_bytes(point: &Point) -> (encoded: Vec<u8>)
    ensures
        encoded@ == sec1_compressed(point@),
        encoded@.len() == 33,
{
    let tag: u8 = if point.y[31] % 2 == 0 { 2 } else { 3 };
    let mut encoded: Vec<u8> = Vec::with_capacity(33);
    encoded.push(tag);
    let mut i: usize = 0;
    while i < 32
        invariant
            i <= 32,
            encoded@ == seq![tag] + point.x@.take(i as int),
        decreases 32 - i,
    {
        encoded.push(point.x[i]);
        proof {
            assert(point.x@.take(i + 1) =~= point.x@.take(i as int).push(point.x@[i as int]));
            assert(encoded@ =~= seq![tag] + point.x@.take(i + 1));
        }
        i += 1;
    }
    proof {
        assert(point.x@.take(32) =~= point.x@);
        lemma_be_bytes_of_be_value(point.x@);
        lemma_sec1_compressed_len(point@);
        assert(be_value(point.y@) % 2 == point.y@[31] as nat % 2) by {
            assert(point.y@.last() == point.y@[31]);
        }
    }
    encoded
}

/// The point that `ark_ec` returns for a point of `ark_secp256k1`
/// multiplied by a scalar.
pub uninterp spec fn curve_mul(point: PointView, scalar: nat) -> PointView;

/// The point that `ark_ec` returns for the difference of two points of
/// `ark_secp256k1`.
pub uninterp spec fn curve_sub(left: PointView, right: PointView) -> PointView;

/// `*` of `ark_ec::short_weierstrass::Affine` with a scalar, brought back to
/// affine coordinates by `ark_ec::CurveGroup::into_affine`. Believed of it:
/// the product depends on the point and the scalar alone, and its
/// coordinates come out reduced.
#[verifier::external_body]
pub(crate) fn scalar_multiple(point: &Point, scalar: &Scalar) -> (product: Point)
    ensures
        product@ == curve_mul(point@, scalar@),
        product.wf(),
{
    let x = Fq::from_be_bytes_mod_order(&point.x);
    let y = Fq::from_be_bytes_mod_order(&point.y);
    let base = Affine { x, y, infinity: point.infinity };
    let product = (base * Fr::from_be_bytes_mod_order(&scalar.bytes)).into_affine();
    Point {
        x: product.x.into_bigint().to_bytes_be().try_into().unwrap(),
        y: product.y.into_bigint().to_bytes_be().try_into().unwrap(),
        infinity: product.infinity,
    }
}

/// `-` of two `ark_ec::short_weierstrass::Affine` points, brought back to
/// affine coordinates by `ark_ec::CurveGroup::into_affine`. Believed of it:
/// the difference depends on the two points alone, and its coordinates
/// come out reduced.
#[verifier::external_body]
pub(crate) fn difference(left: &Point, right: &Point) -> (gap: Point)
    ensures
        gap@ == curve_sub(left@, right@),
        gap.wf(),
{
    let (x, y) = (Fq::from_be_bytes_mod_order(&left.x), Fq::from_be_bytes_mod_order(&left.y));
    let minuend = Affine { x, y, infinity: left.infinity };
    let (x, y) = (Fq::from_be_bytes_mod_order(&right.x), Fq::from_be_bytes_mod_order(&right.y));
    let subtrahend = Affine { x, y, infinity: right.infinity };
    let gap = (minuend - subtrahend).into_affine();
    Point {
        x: gap.x.into_bigint().to_bytes_be().try_into().unwrap(),
        y: gap.y.into_bigint().to_bytes_be().try_into().unwrap(),
        infinity: gap.infinity,
    }
}

} // verus!
