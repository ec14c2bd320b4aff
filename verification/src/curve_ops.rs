//! Key generation, key diversification, and scalar-field helpers.

use crate::curve::{
    add_mod, fr_order, g2_eq, g2_generator, g2_mul, mul_mod, scalar_add, scalar_inverse,
    scalar_rand, Scalar,
};
use crate::types::{DiversifiedPublicKey, Diversifier, DpkView, PublicKey, SecretKey};
use vstd::arithmetic::div_mod::lemma_small_mod;
use vstd::arithmetic::mul::lemma_mul_is_commutative;
use vstd::prelude::*;

verus! {

/// What the ownership check decides: a diversified key is addressed to the
/// holder of `sk` exactly when raising its second component to `sk` yields
/// its first component.
pub open spec fn owns(sk: nat, ppk: DpkView) -> bool {
    mul_mod(ppk.ppk_2, sk) == ppk.ppk_1
}

/// Key generation: samples `sk` uniformly from the scalar field and returns
/// the pair `(sk, G^sk)`.
pub fn keygen(rng: &mut rand::rngs::ThreadRng) -> (r: (SecretKey, PublicKey))
    ensures
        r.0.sk@ < fr_order(),
        r.1.pk@ == r.0.sk@,
{
    let sk = scalar_rand(rng);
    let g = g2_generator();
    let pk = g2_mul(&g, &sk);
    proof {
        lemma_small_mod(sk@, fr_order());
    }
    (SecretKey { sk }, PublicKey { pk })
}

/// Diversify a public key with a freshly sampled diversifier.
pub fn diversify(pk: &PublicKey, rng: &mut rand::rngs::ThreadRng) -> (r: (
    DiversifiedPublicKey,
    Diversifier,
))
    ensures
        r.1.d@ < fr_order(),
        r.0@.ppk_1 == mul_mod(pk.pk@, r.1.d@),
        r.0@.ppk_2 == r.1.d@,
{
    let d = scalar_rand(rng);
    diversify_with_diversifier(pk, &Diversifier { d })
}

/// Diversify a public key with a caller-supplied diversifier `d`, producing
/// `(pk^d, G^d)`.
pub fn diversify_with_diversifier(pk: &PublicKey, diversifier: &Diversifier) -> (r: (
    DiversifiedPublicKey,
    Diversifier,
))
    requires
        diversifier.d@ < fr_order(),
    ensures
        r.0@.ppk_1 == mul_mod(pk.pk@, diversifier.d@),
        r.0@.ppk_2 == diversifier.d@,
        r.1.d@ == diversifier.d@,
{
    let g = g2_generator();
    let ppk_1 = g2_mul(&pk.pk, &diversifier.d);
    let ppk_2 = g2_mul(&g, &diversifier.d);
    proof {
        lemma_small_mod(diversifier.d@, fr_order());
    }
    (DiversifiedPublicKey { ppk_1, ppk_2 }, *diversifier)
}

/// Ownership check: returns true exactly when `ppk_2^sk == ppk_1`, the one
/// way a receiver recognizes a message addressed to it.
pub fn check_diversified_ownership(sk: &SecretKey, ppk: &DiversifiedPublicKey) -> (r: bool)
    ensures
        r == owns(sk.sk@, ppk@),
{
    let expected = g2_mul(&ppk.ppk_2, &sk.sk);
    g2_eq(&expected, &ppk.ppk_1)
}

/// Compute `1/(θ + sk)`; `None` exactly when `θ + sk` is the zero element.
pub fn compute_prf_exponent(theta: &Scalar, sk: &Scalar) -> (r: Option<Scalar>)
    ensures
        add_mod(theta@, sk@) == 0 <==> r is None,
        r is Some ==> r.unwrap()@ < fr_order() && mul_mod(add_mod(theta@, sk@), r.unwrap()@)
            == 1,
{
    let sum = scalar_add(theta, sk);
    scalar_inverse(&sum)
}

/// Law: the true owner of a public key recognizes every diversification of
/// it.  For a valid key pair (`pk == G^sk`, as `keygen` produces) and a
/// diversified key built from `pk` with any diversifier `d` (as `diversify`
/// produces), `check_diversified_ownership` answers true.
pub proof fn lemma_owner_recognizes_diversified(
    sk: SecretKey,
    pk: PublicKey,
    d: Diversifier,
    ppk: DiversifiedPublicKey,
)
    requires
        sk.sk@ < fr_order(),
        pk.pk@ == sk.sk@,
        d.d@ < fr_order(),
        ppk@.ppk_1 == mul_mod(pk.pk@, d.d@),
        ppk@.ppk_2 == d.d@,
    ensures
        owns(sk.sk@, ppk@),
{
    lemma_mul_is_commutative(d.d@ as int, sk.sk@ as int);
}

} // verus!
