//! Pre-generation of extra random generators in G1 and G2, as the protocol's
//! public parameters call for.

use crate::curve::{fr_order, g1_generator, g1_rand, g2_generator, g2_rand, G1Elem, G2Elem};
use vstd::prelude::*;

verus! {

/// Generate `count` random G1 elements.
pub fn generate_g1_generators(rng: &mut rand::rngs::ThreadRng, count: usize) -> (r: Vec<G1Elem>)
    ensures
        r@.len() == count,
        forall|i: int| 0 <= i < count ==> r@[i]@ < fr_order(),
{
    let mut out: Vec<G1Elem> = Vec::new();
    let mut i: usize = 0;
    while i < count
        invariant
            i <= count,
            out@.len() == i as nat,
            forall|j: int| 0 <= j < i ==> out@[j]@ < fr_order(),
        decreases count - i,
    {
        out.push(g1_rand(rng));
        i = i + 1;
    }
    out
}

/// Generate `count` random G2 elements.
pub fn generate_g2_generators(rng: &mut rand::rngs::ThreadRng, count: usize) -> (r: Vec<G2Elem>)
    ensures
        r@.len() == count,
        forall|i: int| 0 <= i < count ==> r@[i]@ < fr_order(),
{
    let mut out: Vec<G2Elem> = Vec::new();
    let mut i: usize = 0;
    while i < count
        invariant
            i <= count,
            out@.len() == i as nat,
            forall|j: int| 0 <= j < i ==> out@[j]@ < fr_order(),
        decreases count - i,
    {
        out.push(g2_rand(rng));
        i = i + 1;
    }
    out
}

/// The standard generators of both groups together with extra random ones.
pub struct Generators {
    /// Base generator of G1 (the curve's standard generator).
    pub g1_base: G1Elem,
    /// Base generator of G2 (the curve's standard generator).
    pub g2_base: G2Elem,
    /// Additional G1 generators.
    pub g1_generators: Vec<G1Elem>,
    /// Additional G2 generators.
    pub g2_generators: Vec<G2Elem>,
}

impl Generators {
    /// Generate the standard generators plus `num_g1` and `num_g2` extra
    /// random ones.
    pub fn generate(rng: &mut rand::rngs::ThreadRng, num_g1: usize, num_g2: usize) -> (r:
        Generators)
        ensures
            r.g1_base@ == 1,
            r.g2_base@ == 1,
            r.g1_generators@.len() == num_g1,
            r.g2_generators@.len() == num_g2,
    {
        Generators {
            g1_base: g1_generator(),
            g2_base: g2_generator(),
            g1_generators: generate_g1_generators(rng, num_g1),
            g2_generators: generate_g2_generators(rng, num_g2),
        }
    }

    /// The G1 generator at `index`: the base generator at 0, the extra ones
    /// after it.
    pub fn g1(&self, index: usize) -> (r: Option<&G1Elem>)
        ensures
            index == 0 ==> r is Some && r.unwrap()@ == self.g1_base@,
            0 < index && index <= self.g1_generators@.len() ==> r is Some && r.unwrap()@
                == self.g1_generators@[index - 1]@,
            index > self.g1_generators@.len() ==> r is None,
    {
        if index == 0 {
            Some(&self.g1_base)
        } else if index - 1 < self.g1_generators.len() {
            Some(&self.g1_generators[index - 1])
        } else {
            None
        }
    }

    /// The G2 generator at `index`: the base generator at 0, the extra ones
    /// after it.
    pub fn g2(&self, index: usize) -> (r: Option<&G2Elem>)
        ensures
            index == 0 ==> r is Some && r.unwrap()@ == self.g2_base@,
            0 < index && index <= self.g2_generators@.len() ==> r is Some && r.unwrap()@
                == self.g2_generators@[index - 1]@,
            index > self.g2_generators@.len() ==> r is None,
    {
        if index == 0 {
            Some(&self.g2_base)
        } else if index - 1 < self.g2_generators.len() {
            Some(&self.g2_generators[index - 1])
        } else {
            None
        }
    }
}

} // verus!
