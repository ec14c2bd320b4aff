//! Core data structures of the relay protocol.

use crate::curve::{G1Elem, G2Elem, Scalar};
use vstd::prelude::*;

verus! {

/// Packet identifier (identifies the packet/user).
pub type PacketId = u32;

/// Session/epoch identifier.
pub type SessionId = u64;

/// Secret key: a scalar, owned exclusively by one node.
#[derive(Clone, Copy)]
pub struct SecretKey {
    pub sk: Scalar,
}

/// Public key: the G2 element `G^sk`.
#[derive(Clone, Copy)]
pub struct PublicKey {
    pub pk: G2Elem,
}

/// Diversifier: an ephemeral scalar used to blind a public key.
#[derive(Clone, Copy)]
pub struct Diversifier {
    pub d: Scalar,
}

/// Diversified public key `(pk^d, G^d)`: a blinded representation that only
/// the owner of `pk` can recognize as addressed to them.
#[derive(Clone, Copy)]
pub struct DiversifiedPublicKey {
    /// The `pk^d` component.
    pub ppk_1: G2Elem,
    /// The `G^d` component.
    pub ppk_2: G2Elem,
}

/// The mathematical value of a diversified public key: the discrete
/// logarithms of its two components.
pub ghost struct DpkView {
    pub ppk_1: nat,
    pub ppk_2: nat,
}

impl View for DiversifiedPublicKey {
    type V = DpkView;

    open spec fn view(&self) -> DpkView {
        DpkView { ppk_1: self.ppk_1@, ppk_2: self.ppk_2@ }
    }
}

/// PRF output `φ`: a G1 element, the routing randomness of one hop.
#[derive(Clone, Copy)]
pub struct PrfOutput {
    pub phi: G1Elem,
}

/// An attestation bundling five independent statements, each an opaque byte
/// blob produced and checked only through the proof boundary.
pub struct Proof {
    /// Sender membership.
    pub pi_1: Vec<u8>,
    /// Weight-subtree correctness.
    pub pi_2: Vec<u8>,
    /// Receiver membership.
    pub pi_3: Vec<u8>,
    /// Schnorr bridging in G1.
    pub pi_4_g1: Vec<u8>,
    /// Key-operation correctness in G2.
    pub pi_4_g2: Vec<u8>,
}

/// The bytes of an attestation's five statements.
pub ghost struct ProofView {
    pub pi_1: Seq<u8>,
    pub pi_2: Seq<u8>,
    pub pi_3: Seq<u8>,
    pub pi_4_g1: Seq<u8>,
    pub pi_4_g2: Seq<u8>,
}

impl View for Proof {
    type V = ProofView;

    open spec fn view(&self) -> ProofView {
        ProofView {
            pi_1: self.pi_1@,
            pi_2: self.pi_2@,
            pi_3: self.pi_3@,
            pi_4_g1: self.pi_4_g1@,
            pi_4_g2: self.pi_4_g2@,
        }
    }
}

impl Clone for Proof {
    fn clone(&self) -> (r: Self)
        ensures
            r@ == self@,
    {
        let r = Proof {
            pi_1: self.pi_1.clone(),
            pi_2: self.pi_2.clone(),
            pi_3: self.pi_3.clone(),
            pi_4_g1: self.pi_4_g1.clone(),
            pi_4_g2: self.pi_4_g2.clone(),
        };
        proof {
            assert(r.pi_1@ =~= self.pi_1@);
            assert(r.pi_2@ =~= self.pi_2@);
            assert(r.pi_3@ =~= self.pi_3@);
            assert(r.pi_4_g1@ =~= self.pi_4_g1@);
            assert(r.pi_4_g2@ =~= self.pi_4_g2@);
        }
        r
    }
}

/// The fixed bytes of one statement of the stub attestation backend.
pub open spec fn stub_statement() -> Seq<u8> {
    Seq::new(32, |i: int| 0u8)
}

/// The attestation the stub backend produces: five 32-byte zero statements.
pub open spec fn stub_proof_view() -> ProofView {
    ProofView {
        pi_1: stub_statement(),
        pi_2: stub_statement(),
        pi_3: stub_statement(),
        pi_4_g1: stub_statement(),
        pi_4_g2: stub_statement(),
    }
}

/// One 32-byte zero statement.
fn zero_statement() -> (r: Vec<u8>)
    ensures
        r@ == stub_statement(),
{
    let mut v: Vec<u8> = Vec::new();
    let mut i: usize = 0;
    while i < 32
        invariant
            i <= 32,
            v@.len() == i as nat,
            forall|j: int| 0 <= j < i ==> v@[j] == 0u8,
        decreases 32 - i,
    {
        v.push(0u8);
        i = i + 1;
    }
    proof {
        assert(v@ =~= stub_statement());
    }
    v
}

impl Proof {
    /// The attestation the stub backend produces.
    pub fn stub() -> (r: Proof)
        ensures
            r@ == stub_proof_view(),
    {
        Proof {
            pi_1: zero_statement(),
            pi_2: zero_statement(),
            pi_3: zero_statement(),
            pi_4_g1: zero_statement(),
            pi_4_g2: zero_statement(),
        }
    }
}

/// One relay step: a diversified receiver key, a PRF output, and a proof.
pub struct Hop {
    pub ppk: DiversifiedPublicKey,
    pub phi: PrfOutput,
    pub pi: Proof,
}

/// The mathematical value of one hop.
pub ghost struct HopView {
    pub ppk: DpkView,
    pub phi: nat,
    pub pi: ProofView,
}

impl View for Hop {
    type V = HopView;

    open spec fn view(&self) -> HopView {
        HopView { ppk: self.ppk@, phi: self.phi.phi@, pi: self.pi@ }
    }
}

impl Clone for Hop {
    fn clone(&self) -> (r: Self)
        ensures
            r@ == self@,
    {
        Hop { ppk: self.ppk, phi: self.phi, pi: self.pi.clone() }
    }
}

/// A message: fixed identifiers, the initial diversified key and proof from
/// Spawn, and the append-only sequence of hops.
pub struct Message {
    /// Packet identifier, fixed at Spawn time.
    pub pid: PacketId,
    /// Session identifier, fixed at Spawn time.
    pub sid: SessionId,
    /// History of hops; grows by one element per successful Forward.
    pub hops: Vec<Hop>,
    /// Initial diversified public key from Spawn.
    pub ppk_0: DiversifiedPublicKey,
    /// Initial proof from Spawn.
    pub pi_0: Proof,
}

/// The mathematical value of a message.
pub ghost struct MessageView {
    pub pid: PacketId,
    pub sid: SessionId,
    pub hops: Seq<HopView>,
    pub ppk_0: DpkView,
    pub pi_0: ProofView,
}

impl View for Message {
    type V = MessageView;

    open spec fn view(&self) -> MessageView {
        MessageView {
            pid: self.pid,
            sid: self.sid,
            hops: self.hops@.map_values(|h: Hop| h@),
            ppk_0: self.ppk_0@,
            pi_0: self.pi_0@,
        }
    }
}

impl Clone for Message {
    fn clone(&self) -> (r: Self)
        ensures
            r@ == self@,
    {
        let mut hops: Vec<Hop> = Vec::new();
        let mut i: usize = 0;
        while i < self.hops.len()
            invariant
                i <= self.hops.len(),
                hops@.len() == i as nat,
                forall|j: int| 0 <= j < i ==> hops@[j]@ == self.hops@[j]@,
            decreases self.hops.len() - i,
        {
            hops.push(self.hops[i].clone());
            i = i + 1;
        }
        let r = Message {
            pid: self.pid,
            sid: self.sid,
            hops,
            ppk_0: self.ppk_0,
            pi_0: self.pi_0.clone(),
        };
        proof {
            assert(r@.hops =~= self@.hops);
        }
        r
    }
}

impl Message {
    /// Current hop count `ν`.
    pub fn hop_count(&self) -> (r: usize)
        ensures
            r == self@.hops.len(),
    {
        self.hops.len()
    }

    /// The most recent PRF output `φ_ν`, or `None` if there are no hops yet.
    pub fn latest_phi(&self) -> (r: Option<&PrfOutput>)
        ensures
            self@.hops.len() == 0 ==> r is None,
            self@.hops.len() > 0 ==> r is Some && r.unwrap().phi@ == self@.hops.last().phi,
    {
        if self.hops.len() == 0 {
            None
        } else {
            Some(&self.hops[self.hops.len() - 1].phi)
        }
    }

    /// The most recent diversified public key, or `None` if there are no hops.
    pub fn latest_ppk(&self) -> (r: Option<&DiversifiedPublicKey>)
        ensures
            self@.hops.len() == 0 ==> r is None,
            self@.hops.len() > 0 ==> r is Some && r.unwrap()@ == self@.hops.last().ppk,
    {
        if self.hops.len() == 0 {
            None
        } else {
            Some(&self.hops[self.hops.len() - 1].ppk)
        }
    }
}

/// Weight entry for routing: a neighbor's public key and its weight.
#[derive(Clone, Copy)]
pub struct WeightEntry {
    /// Public key of the neighbor.
    pub pk: PublicKey,
    /// Weight value; all weights of one node sum to `WEIGHT_SUM`.
    pub weight: u32,
}

/// Commitment to a weight matrix.
pub struct WeightCommitment {
    /// The commitment value.
    pub commitment: Vec<u8>,
    /// Commitment metadata.
    pub metadata: Vec<u8>,
}

impl Clone for WeightCommitment {
    fn clone(&self) -> (r: Self)
        ensures
            r.commitment@ == self.commitment@,
            r.metadata@ == self.metadata@,
    {
        let r = WeightCommitment {
            commitment: self.commitment.clone(),
            metadata: self.metadata.clone(),
        };
        proof {
            assert(r.commitment@ =~= self.commitment@);
            assert(r.metadata@ =~= self.metadata@);
        }
        r
    }
}

/// Network-wide public parameters, published once per session.
pub struct PublicParams {
    /// Number of nodes.
    pub num_nodes: usize,
    /// Maximum out-degree.
    pub max_out_degree: usize,
    /// Generators for G1.
    pub g1_generators: Vec<G1Elem>,
    /// Generators for G2.
    pub g2_generators: Vec<G2Elem>,
    /// Parameters of the succinct-proof backend.
    pub groth16_params: Vec<u8>,
}

/// Result type for protocol operations.
pub type ProtocolResult<T> = Result<T, ProtocolError>;

/// Protocol errors; each is terminal for the call that raised it.
#[derive(Debug)]
pub enum ProtocolError {
    /// A message has reached its hop ceiling (Forward only).
    MaxHopsExceeded,
    /// An attestation failed verification.
    InvalidProof,
    /// Topology misconfiguration or out-of-range routing result.
    InvalidWeightSelection,
    /// Malformed wire bytes.
    SerializationError(String),
    /// An underlying field or group operation failed.
    CryptoError(String),
}

} // verus!
