//! Elements of the scalar field of secp256k1: the integers modulo the group order.

use vstd::prelude::*;
use crate::bytes::be_value;
use crate::bytes::bytes32_eq;
use crate::bytes::bytes32_less;
use crate::bytes::lemma_be_value_injective;
use ark_ff::BigInteger;
use ark_ff::PrimeField;
use ark_ff::UniformRand;
use ark_secp256k1::Fr;
use ark_std::rand::rngs::StdRng;

verus! {

/// The order of the secp256k1 group, a prime.
pub open spec fn group_order() -> nat {
    0xFFFFFFFF_FFFFFFFF_FFFFFFFF_FFFFFFFE_BAAEDCE6_AF48A03B_BFD25E8C_D0364141nat
}

/// The group order, most significant byte first.
pub const GROUP_ORDER_BYTES: [u8; 32] = [
    0xFF, 0xFF, 0xFF, 0xFF, 0xFF, 0xFF, 0xFF, 0xFF,
    0xFF, 0xFF, 0xFF, 0xFF, 0xFF, 0xFF, 0xFF, 0xFE,
    0xBA, 0xAE, 0xDC, 0xE6, 0xAF, 0x48, 0xA0, 0x3B,
    0xBF, 0xD2, 0x5E, 0x8C, 0xD0, 0x36, 0x41, 0x41,
];

/// An integer modulo the group order, held as its least non-negative
/// representative in 32 big-endian bytes.
#[derive(Clone, Copy, Debug)]
pub struct Scalar {
    pub(crate) bytes: [u8; 32],
}

impl View for Scalar {
    type V = nat;

    closed spec fn view(&self) -> nat {
        be_value(self.bytes@)
    }
}

impl PartialEq for Scalar {
    fn eq(&self, other: &Scalar) -> (same: bool) {
        proof {
            if self@ == other@ {
                lemma_be_value_injective(self.bytes@, other.bytes@);
            }
        }
        bytes32_eq(&self.bytes, &other.bytes)
    }
}

impl Eq for Scalar {

}

impl vstd::std_specs::cmp::PartialEqSpecImpl for Scalar {
    open spec fn obeys_eq_spec() -> bool {
        true
    }

    open spec fn eq_spec(&self, other: &Scalar) -> bool {
        self@ == other@
    }
}

impl Scalar {
    /// The number lies below the group order. Every scalar that executable
    /// code holds is so.
    #[verifier::type_invariant]
    pub open spec fn wf(&self) -> bool {
        self@ < group_order()
    }

    /// The scalar that 32 big-endian bytes spell, if they spell a number
    /// below the group order.
    pub fn from_bytes(bytes: [u8; 32]) -> (made: Option<Scalar>)
        ensures
            made is Some <==> be_value(bytes@) < group_order(),
            made matches Some(s) ==> s@ == be_value(bytes@) && s.wf(),
    {
        proof {
            lemma_group_order_bytes();
        }
        if bytes32_less(&bytes, &GROUP_ORDER_BYTES) {
            Some(Scalar { bytes })
        } else {
            None
        }
    }

    /// The scalar as 32 big-endian bytes.
    pub fn to_bytes(&self) -> (bytes: [u8; 32])
        ensures
            be_value(bytes@) == self@,
            self.wf(),
    {
        proof {
            use_type_invariant(self);
        }
        self.bytes
    }

    /// The number that a big-endian byte string of any length spells,
    /// reduced modulo the group order.
    pub fn from_be_bytes_mod_order(bytes: &[u8]) -> (reduced: Scalar)
        ensures
            reduced@ == be_value(bytes@) % group_order(),
            reduced.wf(),
    {
        reduce_mod_order(bytes)
    }
}

/// `ark_ff::PrimeField::from_be_bytes_mod_order` on the scalar field of
/// secp256k1. Believed of it: the element it returns is the number that the
/// bytes spell, most significant first, reduced modulo the group order.
#[verifier::external_body]
fn reduce_mod_order(bytes: &[u8]) -> (reduced: Scalar)
    ensures
        reduced@ == be_value(bytes@) % group_order(),
{
    let element = Fr::from_be_bytes_mod_order(bytes);
    Scalar { bytes: element.into_bigint().to_bytes_be().try_into().unwrap() }
}

/// Addition in the scalar field of secp256k1, `+` on `ark_secp256k1::Fr`.
/// Believed of it: the sum is taken modulo the group order.
#[verifier::external_body]
pub(crate) fn sum_mod_order(a: &Scalar, b: &Scalar) -> (sum: Scalar)
    ensures
        sum@ == (a@ + b@) % group_order(),
{
    let element = Fr::from_be_bytes_mod_order(&a.bytes) + Fr::from_be_bytes_mod_order(&b.bytes);
    Scalar { bytes: element.into_bigint().to_bytes_be().try_into().unwrap() }
}

/// Multiplication in the scalar field of secp256k1, `*` on
/// `ark_secp256k1::Fr`. Believed of it: the product is taken modulo the
/// group order.
#[verifier::external_body]
pub(crate) fn product_mod_order(a: &Scalar, b: &Scalar) -> (product: Scalar)
    ensures
        product@ == (a@ * b@) % group_order(),
{
    let element = Fr::from_be_bytes_mod_order(&a.bytes) * Fr::from_be_bytes_mod_order(&b.bytes);
    Scalar { bytes: element.into_bigint().to_bytes_be().try_into().unwrap() }
}

/// `ark_ff::UniformRand::rand` on the scalar field of secp256k1. Believed
/// of it: what is drawn lies below the group order, and nothing more.
#[verifier::external_body]
pub(crate) fn draw_scalar(rng: &mut StdRng) -> (drawn: Scalar)
    ensures
        drawn.wf(),
{
    let element = Fr::rand(rng);
    Scalar { bytes: element.into_bigint().to_bytes_be().try_into().unwrap() }
}

/// `rand::rngs::StdRng`, as `ark_std` hands it on: the source of randomness
/// that key generation and signing draw from. Nothing is known of its state.
#[verifier::external_type_specification]
#[verifier::external_body]
pub struct ExStdRng(ark_std::rand::rngs::StdRng);

/// The bytes of `GROUP_ORDER_BYTES` spell the group order.
pub proof fn lemma_group_order_bytes()
    ensures
        be_value(GROUP_ORDER_BYTES@) == group_order(),
{
    reveal_with_fuel(be_value, 33);
}

} // verus!
