//! Signing and verification.
//!
//! A signature proves knowledge of a secret key `sk` under which both the
//! public key is `g * sk` and the nullifier is `h * sk`, where `h` is the
//! point that the message and the public key hash to.

use vstd::prelude::*;
use crate::hashing::compute_h;
use crate::hashing::spec_compute_h;
use crate::hashing::HashToCurveError;
use crate::point::curve_mul;
use crate::point::curve_sub;
use crate::point::difference;
use crate::point::scalar_multiple;
use crate::point::Point;
use crate::point::PointView;
use crate::scalar::draw_scalar;
use crate::scalar::group_order;
use crate::scalar::product_mod_order;
use crate::scalar::sum_mod_order;
use crate::scalar::Scalar;
use crate::transcript::compute_c;
use crate::transcript::spec_challenge;
use crate::transcript::PlumeVersion;
use ark_std::rand::rngs::StdRng;

verus! {

/// The generator of the group that keys and signatures live in.
#[derive(Clone, Copy, Debug)]
pub struct Parameters {
    pub g_point: Point,
}

/// A signature with its nullifier.
#[derive(Clone, Copy, Debug)]
pub struct PlumeSignature {
    /// The commitment on the hashed point, `h * r`.
    pub hashed_to_curve_r: Point,
    /// The commitment on the generator, `g * r`.
    pub r_point: Point,
    /// The response, `r + sk * c` modulo the group order.
    pub s: Scalar,
    /// The challenge.
    pub c: Scalar,
    /// The nullifier, `h * sk`.
    pub nullifier: Point,
}

impl PartialEq for Parameters {
    fn eq(&self, other: &Parameters) -> (same: bool) {
        self.g_point == other.g_point
    }
}

impl Eq for Parameters {

}

impl vstd::std_specs::cmp::PartialEqSpecImpl for Parameters {
    open spec fn obeys_eq_spec() -> bool {
        true
    }

    open spec fn eq_spec(&self, other: &Parameters) -> bool {
        self.g_point@ == other.g_point@
    }
}

/// What a `PlumeSignature` stands for.
pub ghost struct PlumeSignatureView {
    pub hashed_to_curve_r: PointView,
    pub r_point: PointView,
    pub s: nat,
    pub c: nat,
    pub nullifier: PointView,
}

impl View for PlumeSignature {
    type V = PlumeSignatureView;

    open spec fn view(&self) -> PlumeSignatureView {
        PlumeSignatureView {
            hashed_to_curve_r: self.hashed_to_curve_r@,
            r_point: self.r_point@,
            s: self.s@,
            c: self.c@,
            nullifier: self.nullifier@,
        }
    }
}

impl PartialEq for PlumeSignature {
    fn eq(&self, other: &PlumeSignature) -> (same: bool) {
        self.hashed_to_curve_r == other.hashed_to_curve_r && self.r_point == other.r_point
            && self.s == other.s && self.c == other.c && self.nullifier == other.nullifier
    }
}

impl Eq for PlumeSignature {

}

impl vstd::std_specs::cmp::PartialEqSpecImpl for PlumeSignature {
    open spec fn obeys_eq_spec() -> bool {
        true
    }

    open spec fn eq_spec(&self, other: &PlumeSignature) -> bool {
        self@ == other@
    }
}

/// The signature that secret key `sk` and nonce `r` give on the hashed
/// point `h`.
pub open spec fn spec_sign_with_h(
    g: PointView,
    pk: PointView,
    sk: nat,
    h: PointView,
    r: nat,
    version: PlumeVersion,
) -> PlumeSignatureView {
    let r_point = curve_mul(g, r);
    let hashed_to_curve_r = curve_mul(h, r);
    let nullifier = curve_mul(h, sk);
    let c = spec_challenge(version, g, pk, h, nullifier, r_point, hashed_to_curve_r);
    PlumeSignatureView {
        hashed_to_curve_r,
        r_point,
        s: (r + sk * c) % group_order(),
        c,
        nullifier,
    }
}

/// The outcome of signing `message` with secret key `sk` and nonce `r`: the
/// signature on the point that the message hashes to, or the error of the
/// hashing.
pub open spec fn spec_sign_with_r(
    g: PointView,
    pk: PointView,
    sk: nat,
    message: Seq<u8>,
    r: nat,
    version: PlumeVersion,
) -> Result<PlumeSignatureView, HashToCurveError> {
    match spec_compute_h(pk, message) {
        Ok(h) => Ok(spec_sign_with_h(g, pk, sk, h, r, version)),
        Err(e) => Err(e),
    }
}

/// The nullifier of a message under a key pair: the point that the message
/// hashes to, multiplied by the secret key.
pub open spec fn spec_nullifier(pk: PointView, sk: nat, message: Seq<u8>) -> Result<
    PointView,
    HashToCurveError,
> {
    match spec_compute_h(pk, message) {
        Ok(h) => Ok(curve_mul(h, sk)),
        Err(e) => Err(e),
    }
}

/// Whether a signature passes the three checks against the hashed point
/// `h`: both group equations hold, and the challenge is the hash of the
/// signature's own points.
pub open spec fn spec_verify_with_h(
    signature: PlumeSignatureView,
    g: PointView,
    pk: PointView,
    h: PointView,
    version: PlumeVersion,
) -> bool {
    &&& curve_sub(curve_mul(g, signature.s), curve_mul(pk, signature.c)) == signature.r_point
    &&& curve_sub(curve_mul(h, signature.s), curve_mul(signature.nullifier, signature.c))
        == signature.hashed_to_curve_r
    &&& spec_challenge(
        version,
        g,
        pk,
        h,
        signature.nullifier,
        signature.r_point,
        signature.hashed_to_curve_r,
    ) == signature.c
}

/// The outcome of verifying a signature on `message`: whether it passes the
/// three checks against the point that the message hashes to, or the error
/// of the hashing.
pub open spec fn spec_verify_non_zk(
    signature: PlumeSignatureView,
    g: PointView,
    pk: PointView,
    message: Seq<u8>,
    version: PlumeVersion,
) -> Result<bool, HashToCurveError> {
    match spec_compute_h(pk, message) {
        Ok(h) => Ok(spec_verify_with_h(signature, g, pk, h, version)),
        Err(e) => Err(e),
    }
}

/// Whether an executable signing result stands for the outcome `model`.
pub open spec fn signed_as(
    signed: Result<PlumeSignature, HashToCurveError>,
    model: Result<PlumeSignatureView, HashToCurveError>,
) -> bool {
    match signed {
        Ok(signature) => model == Ok::<PlumeSignatureView, HashToCurveError>(signature@),
        Err(e) => model == Err::<PlumeSignatureView, HashToCurveError>(e),
    }
}

/// The response to challenge `c` of the signer who holds secret key `sk`
/// and drew nonce `r`.
pub fn compute_s(r_scalar: &Scalar, sk: &Scalar, c: &Scalar) -> (s: Scalar)
    ensures
        s@ == (r_scalar@ + sk@ * c@) % group_order(),
        s.wf(),
{
    let sk_c = product_mod_order(sk, c);
    let s = sum_mod_order(r_scalar, &sk_c);
    proof {
        vstd::arithmetic::div_mod::lemma_add_mod_noop_right(
            r_scalar@ as int,
            (sk@ * c@) as int,
            group_order() as int,
        );
    }
    s
}

impl PlumeSignature {
    /// Whether the signature agrees with the three values that a verifier
    /// has computed afresh: in its commitment on the generator, in its
    /// commitment on the hashed point, and in its challenge.
    pub fn agrees_with(&self, g_s_pk_c: &Point, h_s_nul_c: &Point, c: &Scalar) -> (all: bool)
        ensures
            all == (self.r_point@ == g_s_pk_c@ && self.hashed_to_curve_r@ == h_s_nul_c@
                && self.c@ == c@),
    {
        self.r_point == *g_s_pk_c && self.hashed_to_curve_r == *h_s_nul_c && self.c == *c
    }

    /// Draws a secret key and derives its public key.
    pub fn keygen(pp: &Parameters, rng: &mut StdRng) -> (keypair: (Point, Scalar))
        ensures
            keypair.0@ == curve_mul(pp.g_point@, keypair.1@),
            keypair.1.wf(),
    {
        let secret_key = draw_scalar(rng);
        let public_key = scalar_multiple(&pp.g_point, &secret_key);
        (public_key, secret_key)
    }

    /// Signs on a hashed point that the caller supplies, or hands on the
    /// error that the caller got in its place.
    pub fn sign_with_h_and_r(
        pp: &Parameters,
        keypair: (&Point, &Scalar),
        hashed: Result<Point, HashToCurveError>,
        r_scalar: Scalar,
        version: PlumeVersion,
    ) -> (signed: Result<PlumeSignature, HashToCurveError>)
        ensures
            match hashed {
                Ok(h) => signed matches Ok(signature) && signature@ == spec_sign_with_h(
                    pp.g_point@,
                    keypair.0@,
                    keypair.1@,
                    h@,
                    r_scalar@,
                    version,
                ),
                Err(e) => signed == Err::<PlumeSignature, HashToCurveError>(e),
            },
    {
        let hashed_to_curve = match hashed {
            Ok(h) => h,
            Err(e) => {
                return Err(e);
            },
        };
        let r_point = scalar_multiple(&pp.g_point, &r_scalar);
        let hashed_to_curve_r = scalar_multiple(&hashed_to_curve, &r_scalar);
        let nullifier = scalar_multiple(&hashed_to_curve, keypair.1);
        let c = compute_c(
            version,
            &pp.g_point,
            keypair.0,
            &hashed_to_curve,
            &nullifier,
            &r_point,
            &hashed_to_curve_r,
        );
        let s = compute_s(&r_scalar, keypair.1, &c);
        Ok(PlumeSignature { hashed_to_curve_r, r_point, s, c, nullifier })
    }

    /// Signs a message with the nonce `r_scalar`.
    pub fn sign_with_r(
        pp: &Parameters,
        keypair: (&Point, &Scalar),
        message: &[u8],
        r_scalar: Scalar,
        version: PlumeVersion,
    ) -> (signed: Result<PlumeSignature, HashToCurveError>)
        ensures
            signed_as(
                signed,
                spec_sign_with_r(
                    pp.g_point@,
                    keypair.0@,
                    keypair.1@,
                    message@,
                    r_scalar@,
                    version,
                ),
            ),
    {
        let hashed = compute_h(keypair.0, message);
        Self::sign_with_h_and_r(pp, keypair, hashed, r_scalar, version)
    }

    /// Signs a message with a nonce drawn from `rng`: the outcome is that
    /// of `sign_with_r` for some nonce below the group order, and the
    /// nullifier is the same whichever nonce was drawn.
    pub fn sign(
        pp: &Parameters,
        rng: &mut StdRng,
        keypair: (&Point, &Scalar),
        message: &[u8],
        version: PlumeVersion,
    ) -> (signed: Result<PlumeSignature, HashToCurveError>)
        ensures
            exists|r: nat|
                r < group_order() && #[trigger] signed_as(
                    signed,
                    spec_sign_with_r(pp.g_point@, keypair.0@, keypair.1@, message@, r, version),
                ),
            match signed {
                Ok(signature) => spec_nullifier(keypair.0@, keypair.1@, message@) == Ok::<
                    PointView,
                    HashToCurveError,
                >(signature@.nullifier),
                Err(e) => spec_nullifier(keypair.0@, keypair.1@, message@) == Err::<
                    PointView,
                    HashToCurveError,
                >(e),
            },
    {
        let r_scalar = draw_scalar(rng);
        let signed = Self::sign_with_r(pp, keypair, message, r_scalar, version);
        assert(signed_as(
            signed,
            spec_sign_with_r(pp.g_point@, keypair.0@, keypair.1@, message@, r_scalar@, version),
        ));
        signed
    }

    /// Verifies against a hashed point that the caller supplies, or hands
    /// on the error that the caller got in its place.
    pub fn verify_with_h(
        self,
        pp: &Parameters,
        pk: &Point,
        hashed: Result<Point, HashToCurveError>,
        version: PlumeVersion,
    ) -> (verdict: Result<bool, HashToCurveError>)
        ensures
            match hashed {
                Ok(h) => verdict == Ok::<bool, HashToCurveError>(
                    spec_verify_with_h(self@, pp.g_point@, pk@, h@, version),
                ),
                Err(e) => verdict == Err::<bool, HashToCurveError>(e),
            },
    {
        let hashed_to_curve = match hashed {
            Ok(h) => h,
            Err(e) => {
                return Err(e);
            },
        };
        let c = compute_c(
            version,
            &pp.g_point,
            pk,
            &hashed_to_curve,
            &self.nullifier,
            &self.r_point,
            &self.hashed_to_curve_r,
        );
        let g_s = scalar_multiple(&pp.g_point, &self.s);
        let pk_c = scalar_multiple(pk, &self.c);
        let g_s_pk_c = difference(&g_s, &pk_c);
        let h_s = scalar_multiple(&hashed_to_curve, &self.s);
        let nul_c = scalar_multiple(&self.nullifier, &self.c);
        let h_s_nul_c = difference(&h_s, &nul_c);
        Ok(self.agrees_with(&g_s_pk_c, &h_s_nul_c, &c))
    }

    /// Verifies a signature on a message under a public key.
    pub fn verify_non_zk(
        self,
        pp: &Parameters,
        pk: &Point,
        message: &[u8],
        version: PlumeVersion,
    ) -> (verdict: Result<bool, HashToCurveError>)
        ensures
            verdict == spec_verify_non_zk(self@, pp.g_point@, pk@, message@, version),
    {
        let hashed = compute_h(pk, message);
        self.verify_with_h(pp, pk, hashed, version)
    }
}

} // verus!
