//! The routing pseudorandom function `φ = G^{1/(θ+sk)}` and the extraction
//! of the 32-bit routing value from its output.

use crate::curve::{
    add_mod, fr_order, g1_x_bytes, g1_x_repr, mul_mod, G1Elem, Scalar,
};
use crate::curve_ops::compute_prf_exponent;
use crate::types::{PrfOutput, SecretKey};
use vstd::arithmetic::div_mod::{
    lemma_mul_mod_noop_left, lemma_mul_mod_noop_right, lemma_small_mod,
};
use vstd::arithmetic::mul::{lemma_mul_is_associative, lemma_mul_is_commutative};
use vstd::prelude::*;

verus! {

/// The multiplicative inverse of a nonzero residue `a`, in the field.
pub open spec fn fr_inv(a: nat) -> nat {
    choose|e: nat| e < fr_order() && mul_mod(a, e) == 1
}

/// The inverse of a residue is unique: the field has no zero divisors to
/// hide behind, and this needs only commutativity and associativity.
pub proof fn lemma_inverse_unique(a: nat, e1: nat, e2: nat)
    requires
        e1 < fr_order(),
        e2 < fr_order(),
        mul_mod(a, e1) == 1,
        mul_mod(a, e2) == 1,
    ensures
        e1 == e2,
{
    let m = fr_order() as int;
    let ai = a as int;
    let x1 = e1 as int;
    let x2 = e2 as int;
    // e1 == (e1 * ((a * e2) % m)) % m == (e1 * a * e2) % m
    lemma_mul_mod_noop_right(x1, ai * x2, m);
    lemma_mul_is_associative(x1, ai, x2);
    lemma_mul_is_commutative(x1, ai);
    // (e1 * a * e2) % m == (((a * e1) % m) * e2) % m == e2
    lemma_mul_mod_noop_left(ai * x1, x2, m);
    lemma_mul_is_associative(ai, x1, x2);
    lemma_small_mod(e1, fr_order());
    lemma_small_mod(e2, fr_order());
    assert((x1 * ((ai * x2) % m)) % m == x1 % m);
    assert((x1 * (ai * x2)) % m == ((ai * x1) % m * x2) % m);
}

/// Compute the PRF output `φ = generator^{1/(θ+sk)}`; `None` exactly when
/// `θ + sk` is the zero element of the scalar field.
pub fn compute_prf(theta: &Scalar, sk: &SecretKey, generator: &G1Elem) -> (r: Option<PrfOutput>)
    ensures
        add_mod(theta@, sk.sk@) == 0 <==> r is None,
        r is Some ==> r.unwrap().phi@ == mul_mod(generator@, fr_inv(add_mod(theta@, sk.sk@))),
        r is Some ==> fr_inv(add_mod(theta@, sk.sk@)) < fr_order() && mul_mod(
            add_mod(theta@, sk.sk@),
            fr_inv(add_mod(theta@, sk.sk@)),
        ) == 1,
{
    let exponent = match compute_prf_exponent(theta, &sk.sk) {
        Some(e) => e,
        None => {
            return None;
        },
    };
    let phi_point = crate::curve::g1_mul(generator, &exponent);
    proof {
        let a = add_mod(theta@, sk.sk@);
        let e = fr_inv(a);
        assert(e < fr_order() && mul_mod(a, e) == 1);
        lemma_inverse_unique(a, exponent@, e);
    }
    Some(PrfOutput { phi: phi_point })
}

/// The 32-bit big-endian value of the first four bytes of a byte string, or
/// zero where it is shorter than four bytes.
pub open spec fn be32(s: Seq<u8>) -> u32 {
    ((s[0] as u32) << 24) | ((s[1] as u32) << 16) | ((s[2] as u32) << 8) | (s[3] as u32)
}

/// What the routing extraction returns on a rendered coordinate.
pub open spec fn route_of_bytes(s: Seq<u8>) -> u32 {
    if s.len() >= 4 {
        be32(s)
    } else {
        0
    }
}

/// What the routing extraction returns on a PRF output of discrete
/// logarithm `p`: a pure, deterministic function of the point alone, so that
/// a verifier can recompute it from the same `φ`.
pub open spec fn route_of(p: nat) -> u32 {
    route_of_bytes(g1_x_repr(p))
}

/// Extract the routing value `ρ`: the first 32 bits of the rendered
/// x-coordinate of `φ`.  The identity point has no affine coordinates and no
/// PRF ever returns it, so it is excluded.
pub fn extract_routing_value(phi: &PrfOutput) -> (r: u32)
    requires
        phi.phi@ != 0,
    ensures
        r == route_of(phi.phi@),
{
    let bytes = g1_x_bytes(&phi.phi);
    if bytes.len() >= 4 {
        let b0 = bytes[0];
        let b1 = bytes[1];
        let b2 = bytes[2];
        let b3 = bytes[3];
        ((b0 as u32) << 24) | ((b1 as u32) << 16) | ((b2 as u32) << 8) | (b3 as u32)
    } else {
        0
    }
}

} // verus!
