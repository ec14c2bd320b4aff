//! Hashing to the scalar field, used for the θ-derivation and for the
//! deterministic Spawn diversifier.
//!
//! The absorption is a placeholder: it sums the inputs in the scalar field.
//! It is deterministic and algebra-friendly, which is all the protocol layer
//! relies on here, but it is not collision-resistant.

use crate::curve::{fr_order, scalar_add, scalar_from_u64, Scalar};
use crate::types::{PacketId, SessionId};
use vstd::arithmetic::div_mod::lemma_add_mod_noop_right;
use vstd::prelude::*;

verus! {

/// Plain sum of the residues of a sequence of scalars (no reduction).
pub open spec fn scalar_sum(s: Seq<Scalar>) -> nat
    decreases s.len(),
{
    if s.len() == 0 {
        0
    } else {
        (scalar_sum(s.drop_last()) + s.last()@) as nat
    }
}

/// What the hash returns: the sum of the inputs, reduced into the field.
pub open spec fn hash_value(s: Seq<Scalar>) -> nat {
    (scalar_sum(s) % fr_order()) as nat
}

/// What the θ-derivation returns for a previous-output residue, session,
/// packet and hop index.
pub open spec fn theta_hash(phi_prev: nat, sid: SessionId, pid: PacketId, nu: usize) -> nat {
    (((phi_prev + sid + pid + nu) as int % fr_order() as int) as nat)
}

/// Hash configuration (the placeholder has no parameters).
pub struct PoseidonConfig {}

impl Default for PoseidonConfig {
    fn default() -> (r: Self) {
        PoseidonConfig {  }
    }
}

/// The hasher.
pub struct PoseidonHash {
    _config: PoseidonConfig,
}

impl PoseidonHash {
    pub fn new() -> (r: Self) {
        PoseidonHash { _config: PoseidonConfig::default() }
    }

    /// Hash arbitrary field elements by summing them in the field; the empty
    /// input hashes to zero.
    pub fn hash(&self, inputs: &[Scalar]) -> (r: Scalar)
        ensures
            r@ == hash_value(inputs@),
            r@ < fr_order(),
    {
        let mut acc = scalar_from_u64(0);
        let mut i: usize = 0;
        proof {
            assert(inputs@.subrange(0, 0) =~= Seq::<Scalar>::empty());
        }
        while i < inputs.len()
            invariant
                i <= inputs@.len(),
                acc@ == scalar_sum(inputs@.subrange(0, i as int)) % fr_order(),
            decreases inputs@.len() - i,
        {
            let ghost pre = inputs@.subrange(0, i as int);
            acc = scalar_add(&acc, &inputs[i]);
            proof {
                let post = inputs@.subrange(0, i + 1 as int);
                assert(post.drop_last() =~= pre);
                lemma_add_mod_noop_right(
                    inputs@[i as int]@ as int,
                    scalar_sum(pre) as int,
                    fr_order() as int,
                );
            }
            i = i + 1;
        }
        proof {
            assert(inputs@.subrange(0, inputs@.len() as int) =~= inputs@);
        }
        acc
    }

    /// The θ-derivation: `θ = Hash(φ_ν, sid, pid, ν)`.
    pub fn hash_theta(&self, phi_prev: &Scalar, sid: SessionId, pid: PacketId, nu: usize) -> (r:
        Scalar)
        ensures
            r@ == theta_hash(phi_prev@, sid, pid, nu),
            r@ < fr_order(),
    {
        let mut inputs: Vec<Scalar> = Vec::new();
        inputs.push(*phi_prev);
        inputs.push(scalar_from_u64(sid));
        inputs.push(scalar_from_u64(pid as u64));
        inputs.push(scalar_from_u64(nu as u64));
        let r = self.hash(inputs.as_slice());
        proof {
            let s = inputs@;
            let s3 = s.drop_last();
            let s2 = s3.drop_last();
            let s1 = s2.drop_last();
            let s0 = s1.drop_last();
            assert(s0 =~= Seq::<Scalar>::empty());
            assert(scalar_sum(s0) == 0);
            assert(scalar_sum(s1) == s1.last()@);
            assert(scalar_sum(s2) == scalar_sum(s1) + s2.last()@);
            assert(scalar_sum(s3) == scalar_sum(s2) + s3.last()@);
            assert(scalar_sum(s) == scalar_sum(s3) + s.last()@);
            assert(scalar_sum(s) == phi_prev@ + sid + pid + nu);
        }
        r
    }
}

impl Default for PoseidonHash {
    fn default() -> (r: Self) {
        PoseidonHash::new()
    }
}

} // verus!
