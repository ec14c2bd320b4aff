//! The boundary to the BLS12-381 pairing library.
//!
//! Every value of the scalar field `Fr` and of the groups G1 and G2 is held in
//! a struct of this module, next to a ghost mathematical model:
//!
//! - a `Scalar` is modelled by its canonical residue, a natural number below
//!   the group order `fr_order()`;
//! - a group element of G1 or G2 is modelled by its discrete logarithm with
//!   respect to the group's standard generator.  Both groups are cyclic of
//!   prime order `fr_order()`, so the discrete logarithm exists and is unique
//!   below `fr_order()`, although no one can compute it.
//!
//! Under this interpretation every group operation is exact modular
//! arithmetic on the models: the generator has logarithm 1, a scalar
//! multiplication multiplies logarithms modulo the order, and two elements
//! are equal exactly when their logarithms agree.  The wrappers below state
//! these facts; they are the only places where a model is introduced.

use ark_ec::AffineRepr;
use ark_ec::CurveGroup;
use ark_ec::PrimeGroup;
use ark_ff::Field;
use ark_std::UniformRand;
use vstd::prelude::*;

verus! {

/// The order of the BLS12-381 scalar field `Fr`, and of the groups G1 and G2
/// (a 255-bit prime).
pub open spec fn fr_order() -> nat {
    0x73eda753299d7d483339d80809a1d80553bda402fffe5bfeffffffff00000001nat
}

/// Addition in the scalar field, on models.
pub open spec fn add_mod(a: nat, b: nat) -> nat {
    ((a + b) % fr_order()) as nat
}

/// Multiplication in the scalar field (and scalar multiplication of a group
/// element, on discrete logarithms), on models.
pub open spec fn mul_mod(a: nat, b: nat) -> nat {
    ((a * b) % fr_order()) as nat
}

#[verifier::external_type_specification]
#[verifier::external_body]
pub struct ExThreadRng(rand::rngs::ThreadRng);

/// Holds one `ark_bls12_381::Fr` value.  Verus cannot declare `Fr` itself
/// (its type parameters carry bounds on the pairing library's own traits),
/// so the value is kept behind this opaque box.
#[verifier::external_body]
pub struct FrRepr {
    pub raw: ark_bls12_381::Fr,
}

impl Clone for FrRepr {
    /// Relies on `Fr` being `Copy`: the copy is the same field element.
    #[verifier::external_body]
    fn clone(&self) -> (r: Self)
        ensures
            r == *self,
    {
        FrRepr { raw: self.raw }
    }
}

impl Copy for FrRepr {

}

/// Holds one `ark_bls12_381::G1Affine` value, behind an opaque box for the
/// same reason as `FrRepr`.
#[verifier::external_body]
pub struct G1Repr {
    pub raw: ark_bls12_381::G1Affine,
}

impl Clone for G1Repr {
    /// Relies on `G1Affine` being `Copy`: the copy is the same point.
    #[verifier::external_body]
    fn clone(&self) -> (r: Self)
        ensures
            r == *self,
    {
        G1Repr { raw: self.raw }
    }
}

impl Copy for G1Repr {

}

/// Holds one `ark_bls12_381::G2Affine` value, behind an opaque box for the
/// same reason as `FrRepr`.
#[verifier::external_body]
pub struct G2Repr {
    pub raw: ark_bls12_381::G2Affine,
}

impl Clone for G2Repr {
    /// Relies on `G2Affine` being `Copy`: the copy is the same point.
    #[verifier::external_body]
    fn clone(&self) -> (r: Self)
        ensures
            r == *self,
    {
        G2Repr { raw: self.raw }
    }
}

impl Copy for G2Repr {

}

/// An element of the scalar field `Fr`, modelled by its canonical residue.
#[derive(Clone, Copy)]
pub struct Scalar {
    pub inner: FrRepr,
    pub model: Ghost<nat>,
}

impl View for Scalar {
    type V = nat;

    open spec fn view(&self) -> nat {
        self.model@
    }
}

/// An element of the group G1, modelled by its discrete logarithm.
#[derive(Clone, Copy)]
pub struct G1Elem {
    pub inner: G1Repr,
    pub model: Ghost<nat>,
}

impl View for G1Elem {
    type V = nat;

    open spec fn view(&self) -> nat {
        self.model@
    }
}

/// An element of the group G2, modelled by its discrete logarithm.
#[derive(Clone, Copy)]
pub struct G2Elem {
    pub inner: G2Repr,
    pub model: Ghost<nat>,
}

impl View for G2Elem {
    type V = nat;

    open spec fn view(&self) -> nat {
        self.model@
    }
}

/// Wrap a raw field element arriving from unverified code (wire decoding);
/// nothing is known of it beyond being a field element, whose residue is
/// below the order.
#[verifier::external_body]
pub fn scalar_from_raw(raw: FrRepr) -> (r: Scalar)
    ensures
        r@ < fr_order(),
{
    Scalar { inner: raw, model: Ghost(arbitrary()) }
}

/// Wrap a raw G1 point arriving from unverified code; nothing is known of
/// it beyond being a group element, whose discrete logarithm is below the
/// order.
#[verifier::external_body]
pub fn g1_from_raw(raw: G1Repr) -> (r: G1Elem)
    ensures
        r@ < fr_order(),
{
    G1Elem { inner: raw, model: Ghost(arbitrary()) }
}

/// Wrap a raw G2 point arriving from unverified code; nothing is known of
/// it beyond being a group element, whose discrete logarithm is below the
/// order.
#[verifier::external_body]
pub fn g2_from_raw(raw: G2Repr) -> (r: G2Elem)
    ensures
        r@ < fr_order(),
{
    G2Elem { inner: raw, model: Ghost(arbitrary()) }
}

/// Relies on `Fr::from(u64)`: embeds an integer into the scalar field; every
/// `u64` is below the 255-bit order, so the residue is the integer itself.
#[verifier::external_body]
pub fn scalar_from_u64(x: u64) -> (r: Scalar)
    ensures
        r@ == x as nat,
{
    Scalar { inner: FrRepr { raw: ark_bls12_381::Fr::from(x) }, model: Ghost(arbitrary()) }
}

/// Relies on `Add for Fr`: field addition adds residues modulo the order.
#[verifier::external_body]
pub(crate) fn scalar_add(a: &Scalar, b: &Scalar) -> (r: Scalar)
    ensures
        r@ == add_mod(a@, b@),
{
    Scalar { inner: FrRepr { raw: a.inner.raw + b.inner.raw }, model: Ghost(arbitrary()) }
}

/// Relies on `Field::inverse` for `Fr`: returns `None` exactly on the zero
/// element, otherwise the unique multiplicative inverse.
#[verifier::external_body]
pub fn scalar_inverse(x: &Scalar) -> (r: Option<Scalar>)
    ensures
        x@ == 0 <==> r is None,
        r is Some ==> r.unwrap()@ < fr_order() && mul_mod(x@, r.unwrap()@) == 1,
{
    x.inner.raw.inverse().map(|v| Scalar { inner: FrRepr { raw: v }, model: Ghost(arbitrary()) })
}

/// Relies on `UniformRand::rand` for `Fr`: whatever is drawn, it is a field
/// element, so its residue is below the order.
#[verifier::external_body]
pub(crate) fn scalar_rand(rng: &mut rand::rngs::ThreadRng) -> (r: Scalar)
    ensures
        r@ < fr_order(),
{
    Scalar { inner: FrRepr { raw: ark_bls12_381::Fr::rand(rng) }, model: Ghost(arbitrary()) }
}

/// Relies on `PrimeGroup::generator` for G1: the standard generator, of
/// discrete logarithm 1 with respect to itself.
#[verifier::external_body]
pub(crate) fn g1_generator() -> (r: G1Elem)
    ensures
        r@ == 1,
{
    G1Elem {
        inner: G1Repr { raw: ark_bls12_381::G1Projective::generator().into_affine() },
        model: Ghost(arbitrary()),
    }
}

/// Relies on `Mul<Fr> for G1Projective`: scalar multiplication multiplies the
/// discrete logarithm by the scalar's residue, modulo the group order.
#[verifier::external_body]
pub(crate) fn g1_mul(p: &G1Elem, s: &Scalar) -> (r: G1Elem)
    ensures
        r@ == mul_mod(p@, s@),
{
    G1Elem {
        inner: G1Repr {
            raw: (ark_bls12_381::G1Projective::from(p.inner.raw) * s.inner.raw).into_affine(),
        },
        model: Ghost(arbitrary()),
    }
}

/// Relies on `UniformRand::rand` for `G1Projective`: whatever point is drawn,
/// its discrete logarithm is below the group order.
#[verifier::external_body]
pub(crate) fn g1_rand(rng: &mut rand::rngs::ThreadRng) -> (r: G1Elem)
    ensures
        r@ < fr_order(),
{
    G1Elem {
        inner: G1Repr { raw: ark_bls12_381::G1Projective::rand(rng).into_affine() },
        model: Ghost(arbitrary()),
    }
}

/// What the decimal rendering of a G1 point's x-coordinate holds, as bytes.
/// A deterministic function of the point alone; named because writing it out
/// would reproduce the curve library's base-field arithmetic.
pub uninterp spec fn g1_x_repr(p: nat) -> Seq<u8>;

/// Relies on `AffineRepr::x` and `Display for Fq`: the x-coordinate of a
/// non-identity point, rendered in decimal.  The identity has no affine
/// coordinates, so it is excluded.
#[verifier::external_body]
pub(crate) fn g1_x_bytes(p: &G1Elem) -> (r: Vec<u8>)
    requires
        p@ != 0,
    ensures
        r@ == g1_x_repr(p@),
{
    match p.inner.raw.x() {
        Some(x) => x.to_string().into_bytes(),
        None => Vec::new(),
    }
}

/// Relies on `PrimeGroup::generator` for G2: the standard generator, of
/// discrete logarithm 1 with respect to itself.
#[verifier::external_body]
pub(crate) fn g2_generator() -> (r: G2Elem)
    ensures
        r@ == 1,
{
    G2Elem {
        inner: G2Repr { raw: ark_bls12_381::G2Projective::generator().into_affine() },
        model: Ghost(arbitrary()),
    }
}

/// Relies on `Mul<Fr> for G2Projective`: scalar multiplication multiplies the
/// discrete logarithm by the scalar's residue, modulo the group order.
#[verifier::external_body]
pub(crate) fn g2_mul(p: &G2Elem, s: &Scalar) -> (r: G2Elem)
    ensures
        r@ == mul_mod(p@, s@),
{
    G2Elem {
        inner: G2Repr {
            raw: (ark_bls12_381::G2Projective::from(p.inner.raw) * s.inner.raw).into_affine(),
        },
        model: Ghost(arbitrary()),
    }
}

/// Relies on `PartialEq for G2Affine`: in a cyclic group of prime order, two
/// elements are equal exactly when their discrete logarithms agree.
#[verifier::external_body]
pub(crate) fn g2_eq(a: &G2Elem, b: &G2Elem) -> (r: bool)
    ensures
        r == (a@ == b@),
{
    a.inner.raw == b.inner.raw
}

/// Relies on `UniformRand::rand` for `G2Projective`: whatever point is drawn,
/// its discrete logarithm is below the group order.
#[verifier::external_body]
pub(crate) fn g2_rand(rng: &mut rand::rngs::ThreadRng) -> (r: G2Elem)
    ensures
        r@ < fr_order(),
{
    G2Elem {
        inner: G2Repr { raw: ark_bls12_381::G2Projective::rand(rng).into_affine() },
        model: Ghost(arbitrary()),
    }
}

} // verus!
