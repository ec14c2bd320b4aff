//! An anonymous message-relay protocol over a fixed network of nodes.
//!
//! A sender spawns a packet; relays extend it hop by hop, each hop chosen by a
//! pseudorandom routing value mapped through a per-node weighted adjacency, and
//! each hop carrying a diversified (blinded) receiver key and an attestation.
//! A verifier replays the public statements of every hop after the fact.

use vstd::prelude::*;

pub mod bulletin_board;
pub mod circuits;
pub mod constraints;
pub mod curve;
pub mod curve_ops;
pub mod forward;
pub mod generators;
pub mod groth16;
pub mod poseidon;
pub mod prf;
pub mod routing;
pub mod spawn;
pub mod types;
pub mod verify;

pub use bulletin_board::{BulletinBoard, BulletinBoardEntry, InMemoryBulletinBoard};
pub use circuits::{
    ForwardCircuit, PublicKeyOpsCircuit, ReceiverMembershipCircuit, SchnorrG1Circuit,
    SenderMembershipCircuit, WeightSubtreeCircuit,
};
pub use constraints::{ConstraintSystem, R1CSConstraint};
pub use curve::{scalar_from_u64, scalar_inverse, G1Elem, G2Elem, Scalar};
pub use curve_ops::{
    check_diversified_ownership, compute_prf_exponent, diversify, diversify_with_diversifier,
    keygen,
};
pub use forward::forward;
pub use generators::{generate_g1_generators, generate_g2_generators, Generators};
pub use groth16::{Groth16Proof, ProvingKey, VerifyingKey};
pub use poseidon::{PoseidonConfig, PoseidonHash};
pub use prf::{compute_prf, extract_routing_value};
pub use routing::{select_next_hop, WeightMatrix};
pub use spawn::spawn;
pub use types::{
    DiversifiedPublicKey, Diversifier, Hop, Message, PacketId, PrfOutput, Proof, ProtocolError,
    ProtocolResult, PublicKey, PublicParams, SecretKey, SessionId, WeightCommitment, WeightEntry,
};
pub use verify::verify;

verus! {

/// Maximum number of hops a message can take.
pub const MAX_HOPS: usize = 10;

/// Number of nodes in the network.
pub const NUM_NODES: usize = 256;

/// Maximum out-degree per node.
pub const MAX_OUT_DEGREE: usize = 32;

/// Total weight of each node's outgoing edges (2^32).
pub const WEIGHT_SUM: u64 = 0x1_0000_0000;

} // verus!
