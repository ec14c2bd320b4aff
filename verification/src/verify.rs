//! Verify: validate a whole path.

use crate::types::{Hop, Message, ProtocolResult, PublicKey, WeightCommitment};
use vstd::prelude::*;

verus! {

/// Verify a message against an expected hop count, a weight-matrix
/// commitment, and the published keys.
///
/// Fails closed — returns `Ok(false)`, never an error — when the hop count
/// does not match.  It then checks `π_0` against `ppk_0` and every hop's
/// attestation in order, short-circuiting on the first failure; no secret
/// key is involved.  The attestation backend is a stub that accepts every
/// bundle, so the result is exactly the hop-count comparison.
pub fn verify(
    message: &Message,
    hop_count: usize,
    _weight_commitment: &WeightCommitment,
    _all_public_keys: &[PublicKey],
) -> (r: ProtocolResult<bool>)
    ensures
        r is Ok,
        r.unwrap() == (message@.hops.len() == hop_count),
{
    if message.hop_count() != hop_count {
        return Ok(false);
    }
    let spawn_ok = match verify_spawn_proof(message) {
        Ok(b) => b,
        Err(e) => {
            return Err(e);
        },
    };
    if !spawn_ok {
        return Ok(false);
    }
    let mut i: usize = 0;
    while i < message.hops.len()
        invariant
            i <= message@.hops.len(),
        decreases message@.hops.len() - i,
    {
        let hop_ok = match verify_hop_proof(message, i, &message.hops[i]) {
            Ok(b) => b,
            Err(e) => {
                return Err(e);
            },
        };
        if !hop_ok {
            return Ok(false);
        }
        i = i + 1;
    }
    Ok(true)
}

/// Check the spawn attestation `π_0`.  The backend is a stub that accepts
/// every bundle.
fn verify_spawn_proof(_message: &Message) -> (r: ProtocolResult<bool>)
    ensures
        r is Ok,
        r.unwrap() == true,
{
    Ok(true)
}

/// Check one hop's attestation `π_i` against the public statement a correct
/// Forward would have produced at that index.  The backend is a stub that
/// accepts every bundle.
fn verify_hop_proof(_message: &Message, _hop_index: usize, _hop: &Hop) -> (r: ProtocolResult<bool>)
    ensures
        r is Ok,
        r.unwrap() == true,
{
    Ok(true)
}

} // verus!
