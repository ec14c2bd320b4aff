//! Rank-1 constraint-system building blocks for the proof circuits.

use crate::curve::Scalar;
use crate::types::ProtocolResult;
use vstd::prelude::*;

verus! {

/// One R1CS constraint `A * B = C`, each side a sparse vector of
/// `(variable, coefficient)` pairs.
pub struct R1CSConstraint {
    pub a: Vec<(usize, Scalar)>,
    pub b: Vec<(usize, Scalar)>,
    pub c: Vec<(usize, Scalar)>,
}

/// A constraint-system builder.
pub struct ConstraintSystem {
    /// Number of allocated variables.
    pub num_variables: usize,
    /// Number of constraints added so far.
    pub num_constraints: usize,
    /// The constraints.
    pub constraints: Vec<R1CSConstraint>,
}

impl ConstraintSystem {
    /// An empty system.
    pub fn new() -> (r: Self)
        ensures
            r.num_variables == 0,
            r.num_constraints == 0,
            r.constraints@.len() == 0,
    {
        ConstraintSystem { num_variables: 0, num_constraints: 0, constraints: Vec::new() }
    }

    /// Allocate a fresh variable and return its identifier.
    pub fn alloc_variable(&mut self) -> (r: usize)
        requires
            old(self).num_variables < usize::MAX,
        ensures
            r == old(self).num_variables,
            final(self).num_variables == old(self).num_variables + 1,
            final(self).num_constraints == old(self).num_constraints,
            final(self).constraints == old(self).constraints,
    {
        let var_id = self.num_variables;
        self.num_variables = self.num_variables + 1;
        var_id
    }

    /// Add a constraint.
    pub fn add_constraint(&mut self, constraint: R1CSConstraint)
        requires
            old(self).num_constraints < usize::MAX,
        ensures
            final(self).num_variables == old(self).num_variables,
            final(self).num_constraints == old(self).num_constraints + 1,
            final(self).constraints@.len() == old(self).constraints@.len() + 1,
    {
        self.constraints.push(constraint);
        self.num_constraints = self.num_constraints + 1;
    }

    /// Enforce equality `a == b`; the encoding awaits the backend, so the
    /// system is left unchanged.
    pub fn enforce_equal(&mut self, _a: usize, _b: usize) -> (r: ProtocolResult<()>)
        ensures
            r is Ok,
            *final(self) == *old(self),
    {
        Ok(())
    }

    /// Enforce multiplication `a * b == c`; the encoding awaits the backend,
    /// so the system is left unchanged.
    pub fn enforce_mul(&mut self, _a: usize, _b: usize, _c: usize) -> (r: ProtocolResult<()>)
        ensures
            r is Ok,
            *final(self) == *old(self),
    {
        Ok(())
    }

    /// Enforce a range bound on a variable; the bit-decomposition encoding
    /// awaits the backend, so the system is left unchanged.
    pub fn enforce_range(&mut self, _value: usize, _min: u64, _max: u64) -> (r: ProtocolResult<()>)
        ensures
            r is Ok,
            *final(self) == *old(self),
    {
        Ok(())
    }
}

impl Default for ConstraintSystem {
    fn default() -> (r: Self)
        ensures
            r.num_variables == 0,
            r.num_constraints == 0,
            r.constraints@.len() == 0,
    {
        ConstraintSystem::new()
    }
}

} // verus!
