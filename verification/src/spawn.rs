//! Spawn: create the initial message.

use crate::curve::{fr_order, mul_mod, scalar_from_u64};
use crate::curve_ops::diversify_with_diversifier;
use crate::poseidon::{scalar_sum, PoseidonHash};
use crate::types::{
    stub_proof_view, DiversifiedPublicKey, Diversifier, DpkView, Message, MessageView, PacketId,
    Proof, ProtocolResult, PublicKey, SecretKey, SessionId,
};
use vstd::prelude::*;

verus! {

/// The deterministic Spawn diversifier: the hash of `(pid, sid)`.
pub open spec fn spawn_diversifier(pid: PacketId, sid: SessionId) -> nat {
    (((pid + sid) % (fr_order() as int)) as nat)
}

/// The initial diversified key that Spawn derives for a public key of
/// discrete logarithm `pk`.
pub open spec fn spawn_ppk0(pk: nat, pid: PacketId, sid: SessionId) -> DpkView {
    DpkView {
        ppk_1: mul_mod(pk, spawn_diversifier(pid, sid)),
        ppk_2: spawn_diversifier(pid, sid),
    }
}

/// Everything Spawn promises of the message it returns.
pub open spec fn spawn_post(m: MessageView, pk: nat, pid: PacketId, sid: SessionId) -> bool {
    &&& m.pid == pid
    &&& m.sid == sid
    &&& m.hops.len() == 0
    &&& m.ppk_0 == spawn_ppk0(pk, pid, sid)
    &&& m.pi_0 == stub_proof_view()
}

/// Spawn: create a new message to send into the network.
///
/// The diversifier is *not* random: it is derived from `(pid, sid)`, so the
/// initial key `ppk_0` is reproducible for the same `(pk, pid, sid)` triple,
/// which enables duplicate detection.  The attestation states that `ppk_0`
/// is correctly derived and that the spawner's key is a member of the
/// published set; the backend is a stub, so the proof bytes are fixed.
pub fn spawn(
    sk: &SecretKey,
    pk: &PublicKey,
    pid: PacketId,
    sid: SessionId,
    _rng: &mut rand::rngs::ThreadRng,
) -> (r: ProtocolResult<Message>)
    ensures
        r is Ok,
        spawn_post(r.unwrap()@, pk.pk@, pid, sid),
{
    let hasher = PoseidonHash::new();
    let mut inputs = Vec::new();
    inputs.push(scalar_from_u64(pid as u64));
    inputs.push(scalar_from_u64(sid));
    let diversifier_scalar = hasher.hash(inputs.as_slice());
    proof {
        let s = inputs@;
        let s1 = s.drop_last();
        let s0 = s1.drop_last();
        assert(s0 =~= Seq::<crate::curve::Scalar>::empty());
        assert(scalar_sum(s0) == 0);
        assert(scalar_sum(s1) == s1.last()@);
        assert(scalar_sum(s) == scalar_sum(s1) + s.last()@);
        assert(scalar_sum(s) == pid + sid);
    }
    let diversifier = Diversifier { d: diversifier_scalar };
    let (ppk_0, _) = diversify_with_diversifier(pk, &diversifier);
    let pi_0 = match generate_spawn_proof(sk, pk, pid, sid, &ppk_0) {
        Ok(p) => p,
        Err(e) => {
            return Err(e);
        },
    };
    let message = Message { pid, sid, hops: Vec::new(), ppk_0, pi_0 };
    proof {
        assert(message@.hops =~= Seq::empty());
    }
    Ok(message)
}

/// Generate the spawn attestation `π_0`.  The succinct-proof backend is a
/// stub, so the statement bytes are fixed zeroes.
fn generate_spawn_proof(
    _sk: &SecretKey,
    _pk: &PublicKey,
    _pid: PacketId,
    _sid: SessionId,
    _ppk_0: &DiversifiedPublicKey,
) -> (r: ProtocolResult<Proof>)
    ensures
        r is Ok,
        r.unwrap()@ == stub_proof_view(),
{
    Ok(Proof::stub())
}

/// Law: Spawn is deterministic in `ppk_0`.  Any two messages that satisfy
/// Spawn's contract for the same `(pk, pid, sid)` carry the same initial
/// diversified key.
pub proof fn lemma_spawn_deterministic(
    m1: MessageView,
    m2: MessageView,
    pk: nat,
    pid: PacketId,
    sid: SessionId,
)
    requires
        spawn_post(m1, pk, pid, sid),
        spawn_post(m2, pk, pid, sid),
    ensures
        m1.ppk_0 == m2.ppk_0,
{
}

/// Law: differing sessions give differing initial keys.  For the same
/// packet identifier, two session identifiers always yield different
/// `ppk_0` (their `G^d` components already differ, because the derived
/// diversifiers are distinct integers far below the group order).
pub proof fn lemma_spawn_session_distinct(
    pk: nat,
    pid: PacketId,
    sid1: SessionId,
    sid2: SessionId,
)
    requires
        sid1 != sid2,
    ensures
        spawn_ppk0(pk, pid, sid1).ppk_2 != spawn_ppk0(pk, pid, sid2).ppk_2,
        spawn_ppk0(pk, pid, sid1) != spawn_ppk0(pk, pid, sid2),
{
    vstd::arithmetic::div_mod::lemma_small_mod((pid + sid1) as nat, fr_order());
    vstd::arithmetic::div_mod::lemma_small_mod((pid + sid2) as nat, fr_order());
}

} // verus!
