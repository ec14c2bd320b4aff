//! Circuit shells for the five per-hop statements of the Forward proof.
//!
//! The constraint contents await the succinct-proof backend; each circuit
//! currently builds no constraints and reports success.

use crate::types::ProtocolResult;
use vstd::prelude::*;

verus! {

/// Circuit for π₁: sender public-key membership.
pub struct SenderMembershipCircuit {}

impl SenderMembershipCircuit {
    pub fn new() -> (r: Self) {
        SenderMembershipCircuit {  }
    }

    /// Generate the circuit's constraints; none exist yet.
    pub fn generate_constraints(&self) -> (r: ProtocolResult<()>)
        ensures
            r is Ok,
    {
        Ok(())
    }
}

/// Circuit for π₂: weight sub-tree correctness, bounding the routing value
/// between two adjacent cumulative boundaries.
pub struct WeightSubtreeCircuit {}

impl WeightSubtreeCircuit {
    pub fn new() -> (r: Self) {
        WeightSubtreeCircuit {  }
    }

    /// Generate the circuit's constraints; none exist yet.
    pub fn generate_constraints(&self) -> (r: ProtocolResult<()>)
        ensures
            r is Ok,
    {
        Ok(())
    }
}

/// Circuit for π₃: receiver public-key membership.
pub struct ReceiverMembershipCircuit {}

impl ReceiverMembershipCircuit {
    pub fn new() -> (r: Self) {
        ReceiverMembershipCircuit {  }
    }

    /// Generate the circuit's constraints; none exist yet.
    pub fn generate_constraints(&self) -> (r: ProtocolResult<()>)
        ensures
            r is Ok,
    {
        Ok(())
    }
}

/// Circuit for π₄ in G1: the Schnorr-style proof bridging the G1 and G2
/// representations.
pub struct SchnorrG1Circuit {}

impl SchnorrG1Circuit {
    pub fn new() -> (r: Self) {
        SchnorrG1Circuit {  }
    }

    /// Generate the circuit's constraints; none exist yet.
    pub fn generate_constraints(&self) -> (r: ProtocolResult<()>)
        ensures
            r is Ok,
    {
        Ok(())
    }
}

/// Circuit for π₄ in G2: correctness of the key diversification and PRF
/// relations.
pub struct PublicKeyOpsCircuit {}

impl PublicKeyOpsCircuit {
    pub fn new() -> (r: Self) {
        PublicKeyOpsCircuit {  }
    }

    /// Generate the circuit's constraints; none exist yet.
    pub fn generate_constraints(&self) -> (r: ProtocolResult<()>)
        ensures
            r is Ok,
    {
        Ok(())
    }
}

/// The combined circuit of a full Forward proof.
pub struct ForwardCircuit {
    pub sender_membership: SenderMembershipCircuit,
    pub weight_subtree: WeightSubtreeCircuit,
    pub receiver_membership: ReceiverMembershipCircuit,
    pub schnorr_g1: SchnorrG1Circuit,
    pub pubkey_ops: PublicKeyOpsCircuit,
}

impl ForwardCircuit {
    pub fn new() -> (r: Self) {
        ForwardCircuit {
            sender_membership: SenderMembershipCircuit::new(),
            weight_subtree: WeightSubtreeCircuit::new(),
            receiver_membership: ReceiverMembershipCircuit::new(),
            schnorr_g1: SchnorrG1Circuit::new(),
            pubkey_ops: PublicKeyOpsCircuit::new(),
        }
    }
}

} // verus!
