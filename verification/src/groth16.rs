//! The succinct-proof backend boundary (Groth16-shaped).
//!
//! Setup produces empty keys and the proving, verifying and rerandomizing
//! operations report that the backend is not yet implemented; their
//! contracts say exactly that, so no caller can mistake a stub result for a
//! real attestation.

use crate::curve::{G1Elem, G2Elem};
use crate::types::{ProtocolError, ProtocolResult};
use vstd::prelude::*;

verus! {

/// Proving key.
pub struct ProvingKey {
    pub stub: Vec<u8>,
}

/// Verifying key.
pub struct VerifyingKey {
    pub stub: Vec<u8>,
}

/// A proof: two G1 elements bridged by a G2 element.
#[derive(Clone, Copy)]
pub struct Groth16Proof {
    pub a: G1Elem,
    pub b: G2Elem,
    pub c: G1Elem,
}

/// Trusted setup; the keys are empty until the backend exists.
pub fn setup(_rng: &mut rand::rngs::ThreadRng, _num_constraints: usize) -> (r: (
    ProvingKey,
    VerifyingKey,
))
    ensures
        r.0.stub@.len() == 0,
        r.1.stub@.len() == 0,
{
    (ProvingKey { stub: Vec::new() }, VerifyingKey { stub: Vec::new() })
}

/// Generate a proof; always fails until the backend exists.
pub fn prove(_pk: &ProvingKey, _public_inputs: &[u8], _witness: &[u8]) -> (r: ProtocolResult<
    Groth16Proof,
>)
    ensures
        r matches Err(ProtocolError::CryptoError(_)),
{
    Err(ProtocolError::CryptoError(String::from_str("proof generation not yet implemented")))
}

/// Verify a proof; always fails until the backend exists.
pub fn verify(_vk: &VerifyingKey, _public_inputs: &[u8], _proof: &Groth16Proof) -> (r:
    ProtocolResult<bool>)
    ensures
        r matches Err(ProtocolError::CryptoError(_)),
{
    Err(ProtocolError::CryptoError(String::from_str("proof verification not yet implemented")))
}

/// Rerandomize a proof into a fresh one for the same statement; always
/// fails until the backend exists.
pub fn rerandomize(_rng: &mut rand::rngs::ThreadRng, _proof: &Groth16Proof) -> (r: ProtocolResult<
    Groth16Proof,
>)
    ensures
        r matches Err(ProtocolError::CryptoError(_)),
{
    Err(ProtocolError::CryptoError(String::from_str("rerandomization not yet implemented")))
}

} // verus!
