//! Forward: extend a message by one hop.

use crate::curve::{
    add_mod, fr_order, g1_generator, g2_eq, mul_mod, scalar_from_u64, scalar_rand, Scalar,
};
use crate::curve_ops::diversify_with_diversifier;
use crate::poseidon::PoseidonHash;
use crate::prf::{compute_prf, extract_routing_value, fr_inv, route_of};
use crate::routing::{in_bucket, row_of, select_next_hop, selection_fails, WeightMatrix};
use crate::types::{
    stub_proof_view, DiversifiedPublicKey, Diversifier, Hop, Message, MessageView, PrfOutput,
    Proof, ProtocolError, ProtocolResult, PublicKey, SecretKey,
};
use crate::MAX_HOPS;
use vstd::prelude::*;

verus! {

/// The scalar standing in for the previous hop's PRF output in the
/// θ-derivation: zero before the first hop (no prior output exists), and a
/// fixed scalar afterwards — the embedding of a group element into the
/// scalar field is an unresolved point of the protocol, so a placeholder
/// stands where it would go rather than an unspecified one.
pub open spec fn phi_prev_scalar(m: MessageView) -> nat {
    if m.hops.len() == 0 {
        0
    } else {
        1
    }
}

/// The hash `θ = Hash(φ_ν, sid, pid, ν)` that Forward derives for a message.
pub open spec fn forward_theta(m: MessageView) -> nat {
    (((phi_prev_scalar(m) + m.sid + m.pid + m.hops.len()) % (fr_order() as int)) as nat)
}

/// The PRF denominator `θ + sk`; Forward fails when it is zero.
pub open spec fn forward_denom(m: MessageView, sk: nat) -> nat {
    add_mod(forward_theta(m), sk)
}

/// The discrete logarithm of the PRF output `φ_{ν+1} = G^{1/(θ+sk)}`.
pub open spec fn next_phi(m: MessageView, sk: nat) -> nat {
    fr_inv(forward_denom(m, sk))
}

/// The routing value `ρ_{ν+1}` extracted from the next PRF output.
pub open spec fn next_rho(m: MessageView, sk: nat) -> u32 {
    route_of(next_phi(m, sk))
}

/// Index `i` is the position of the first published key equal to `k`.
pub open spec fn is_first_match(pks: Seq<PublicKey>, k: nat, i: int) -> bool {
    &&& 0 <= i < pks.len()
    &&& pks[i].pk@ == k
    &&& forall|j: int| 0 <= j < i ==> pks[j].pk@ != k
}

/// When Forward's next-hop selection fails: the caller's key is not
/// published at all, or selection fails on the caller's own row.
pub open spec fn forward_selection_fails(
    m: MessageView,
    sk: nat,
    wm: Seq<Seq<(usize, u32)>>,
    pks: Seq<PublicKey>,
    pk: nat,
) -> bool {
    ||| forall|i: int| 0 <= i < pks.len() ==> pks[i].pk@ != pk
    ||| exists|i: int| #[trigger] is_first_match(pks, pk, i) && selection_fails(
        row_of(wm, i),
        next_rho(m, sk) as int,
        pks.len() as int,
    )
}

/// How the result message of a successful Forward relates to its input: the
/// identifiers and the Spawn data are kept, and exactly one hop is appended.
pub open spec fn is_forward_step(m1: MessageView, m2: MessageView) -> bool {
    &&& m1.hops.len() < MAX_HOPS
    &&& m2.pid == m1.pid
    &&& m2.sid == m1.sid
    &&& m2.ppk_0 == m1.ppk_0
    &&& m2.pi_0 == m1.pi_0
    &&& m2.hops.len() == m1.hops.len() + 1
    &&& m2.hops.drop_last() == m1.hops
}

/// Everything Forward promises of a successful result: the step shape, the
/// new hop's PRF output, its routing-consistent receiver, its freshly
/// diversified key, and its attestation.
pub open spec fn forward_ok(
    m1: MessageView,
    sk: nat,
    wm: Seq<Seq<(usize, u32)>>,
    pks: Seq<PublicKey>,
    pk: nat,
    m2: MessageView,
    receiver: usize,
    d: nat,
) -> bool {
    let hop = m2.hops.last();
    &&& is_forward_step(m1, m2)
    &&& forward_denom(m1, sk) != 0
    &&& hop.phi == next_phi(m1, sk)
    &&& exists|i: int|
        #[trigger] is_first_match(pks, pk, i) && exists|j: int|
            in_bucket(row_of(wm, i), j, next_rho(m1, sk) as int) && (#[trigger] row_of(wm, i)[j]).0
                == receiver
    &&& receiver < pks.len()
    &&& d < fr_order()
    &&& hop.ppk.ppk_1 == mul_mod(pks[receiver as int].pk@, d)
    &&& hop.ppk.ppk_2 == d
    &&& hop.pi == stub_proof_view()
}

/// Forward: extend a message by one hop.
///
/// Derives `θ` from the latest PRF output and the message identifiers,
/// computes `φ_{ν+1} = G^{1/(θ+sk)}`, extracts the routing value, selects
/// the next hop from the caller's own row of the weight matrix, diversifies
/// the chosen key with a fresh random diversifier, attaches the attestation,
/// and appends the hop.
///
/// Fails with `MaxHopsExceeded` exactly when the message already has
/// `MAX_HOPS` hops; with a `CryptoError` exactly when `θ + sk` is the zero
/// element; and with `InvalidWeightSelection` exactly when the caller's key
/// is not published or its row cannot place the routing value.
pub fn forward(
    pk: &PublicKey,
    sk: &SecretKey,
    message: &Message,
    weight_matrix: &WeightMatrix,
    all_public_keys: &[PublicKey],
    rng: &mut rand::rngs::ThreadRng,
) -> (r: ProtocolResult<(Message, usize, Diversifier)>)
    ensures
        r matches Err(ProtocolError::MaxHopsExceeded) <==> message@.hops.len() >= MAX_HOPS,
        r matches Err(ProtocolError::CryptoError(_)) <==> message@.hops.len() < MAX_HOPS
            && forward_denom(message@, sk.sk@) == 0,
        r matches Err(ProtocolError::InvalidWeightSelection) <==> message@.hops.len() < MAX_HOPS
            && forward_denom(message@, sk.sk@) != 0 && forward_selection_fails(
            message@,
            sk.sk@,
            weight_matrix@,
            all_public_keys@,
            pk.pk@,
        ),
        r is Ok <==> message@.hops.len() < MAX_HOPS && forward_denom(message@, sk.sk@) != 0
            && !forward_selection_fails(
            message@,
            sk.sk@,
            weight_matrix@,
            all_public_keys@,
            pk.pk@,
        ),
        r is Ok ==> forward_ok(
            message@,
            sk.sk@,
            weight_matrix@,
            all_public_keys@,
            pk.pk@,
            r.unwrap().0@,
            r.unwrap().1,
            r.unwrap().2.d@,
        ),
{
    let nu = message.hop_count();
    if nu >= MAX_HOPS {
        return Err(ProtocolError::MaxHopsExceeded);
    }
    // θ = Hash(φ_ν, sid, pid, ν), with the placeholder field embedding of φ_ν.
    let hasher = PoseidonHash::new();
    let phi_prev: Scalar = if nu == 0 {
        scalar_from_u64(0)
    } else {
        scalar_from_u64(1)
    };
    let theta = hasher.hash_theta(&phi_prev, message.sid, message.pid, nu);

    // φ_{ν+1} = G^{1/(θ+sk)}
    let generator = g1_generator();
    let phi_nu_plus_1 = match compute_prf(&theta, sk, &generator) {
        Some(p) => p,
        None => {
            return Err(
                ProtocolError::CryptoError(String::from_str("PRF computation failed: theta + sk = 0")),
            );
        },
    };
    proof {
        let e = next_phi(message@, sk.sk@);
        assert(mul_mod(forward_denom(message@, sk.sk@), 0) == 0) by {
            vstd::arithmetic::div_mod::lemma_small_mod(0nat, fr_order());
        }
        assert(e != 0);
        vstd::arithmetic::div_mod::lemma_small_mod(e, fr_order());
        assert(phi_nu_plus_1.phi@ == e);
    }

    // ρ_{ν+1}, and the next hop selected from the caller's own row.
    let rho_nu_plus_1 = extract_routing_value(&phi_nu_plus_1);
    let current_node = match find_key_index(all_public_keys, pk) {
        Some(i) => i,
        None => {
            return Err(ProtocolError::InvalidWeightSelection);
        },
    };
    let (k_r, pk_nu_plus_1) = match select_next_hop(
        rho_nu_plus_1,
        weight_matrix,
        current_node,
        all_public_keys,
    ) {
        Ok(sel) => sel,
        Err(e) => {
            proof {
                assert(is_first_match(all_public_keys@, pk.pk@, current_node as int));
            }
            return Err(e);
        },
    };

    // Fresh diversifier for the chosen key.
    let d = Diversifier { d: scalar_rand(rng) };
    let (ppk_nu_plus_1, _) = diversify_with_diversifier(&pk_nu_plus_1, &d);

    // π_{ν+1}
    let pi_nu_plus_1 = match generate_forward_proof(
        pk,
        sk,
        message,
        &theta,
        &phi_nu_plus_1,
        &ppk_nu_plus_1,
        k_r,
        &d,
        weight_matrix,
    ) {
        Ok(p) => p,
        Err(e) => {
            return Err(e);
        },
    };

    let mut new_message = message.clone();
    new_message.hops.push(Hop { ppk: ppk_nu_plus_1, phi: phi_nu_plus_1, pi: pi_nu_plus_1 });
    proof {
        assert(new_message@.hops =~= message@.hops.push(new_message@.hops.last()));
        assert(new_message@.hops.drop_last() =~= message@.hops);
        assert(is_first_match(all_public_keys@, pk.pk@, current_node as int));
        let row = row_of(weight_matrix@, current_node as int);
        let rho = next_rho(message@, sk.sk@) as int;
        let jw = choose|j: int| in_bucket(row, j, rho) && (#[trigger] row[j]).0 == k_r;
        assert forall|j2: int| in_bucket(row, j2, rho) implies (#[trigger] row[j2]).0
            < all_public_keys@.len() by {
            crate::routing::lemma_selection_unique(row, rho, jw, j2);
        }
        assert(!selection_fails(row, rho, all_public_keys@.len() as int));
        assert(!forward_selection_fails(
            message@,
            sk.sk@,
            weight_matrix@,
            all_public_keys@,
            pk.pk@,
        )) by {
            assert(forall|i: int|
                is_first_match(all_public_keys@, pk.pk@, i) ==> i == current_node as int);
            assert(!selection_fails(row, rho, all_public_keys@.len() as int));
        }
    }
    Ok((new_message, k_r, d))
}

/// The position of the caller's key in the published list, or `None` where
/// it is absent.
fn find_key_index(pks: &[PublicKey], pk: &PublicKey) -> (r: Option<usize>)
    ensures
        match r {
            Some(i) => is_first_match(pks@, pk.pk@, i as int),
            None => forall|j: int| 0 <= j < pks@.len() ==> pks@[j].pk@ != pk.pk@,
        },
{
    let mut i: usize = 0;
    while i < pks.len()
        invariant
            i <= pks@.len(),
            forall|j: int| 0 <= j < i ==> pks@[j].pk@ != pk.pk@,
        decreases pks@.len() - i,
    {
        if g2_eq(&pks[i].pk, &pk.pk) {
            return Some(i);
        }
        i = i + 1;
    }
    None
}

/// Generate the forward attestation `π_{ν+1}` over its five statements
/// (sender membership, weight-subtree correctness, receiver membership,
/// Schnorr bridging, key-operation correctness).  The succinct-proof backend
/// is a stub, so the statement bytes are fixed zeroes.
fn generate_forward_proof(
    _pk: &PublicKey,
    _sk: &SecretKey,
    _message: &Message,
    _theta: &Scalar,
    _phi_nu_plus_1: &PrfOutput,
    _ppk_nu_plus_1: &DiversifiedPublicKey,
    _k_r: usize,
    _d: &Diversifier,
    _weight_matrix: &WeightMatrix,
) -> (r: ProtocolResult<Proof>)
    ensures
        r is Ok,
        r.unwrap()@ == stub_proof_view(),
{
    let _circuit = crate::circuits::ForwardCircuit::new();
    Ok(Proof::stub())
}

/// Law: hop counts count Forward calls.  Along any chain of messages that
/// starts from a spawned message (no hops) and where each link is one
/// successful Forward step, the `k`-th message has exactly `k` hops.
pub proof fn lemma_hop_count_counts_forwards(trace: Seq<MessageView>)
    requires
        trace.len() > 0,
        trace[0].hops.len() == 0,
        forall|i: int| 0 <= i < trace.len() - 1 ==> is_forward_step(#[trigger] trace[i], trace[i + 1]),
    ensures
        forall|k: int| 0 <= k < trace.len() ==> (#[trigger] trace[k]).hops.len() == k,
    decreases trace.len(),
{
    if trace.len() > 1 {
        lemma_hop_count_counts_forwards(trace.drop_last());
        assert(is_forward_step(trace[trace.len() - 2], trace[trace.len() - 1]));
        assert(forall|k: int|
            0 <= k < trace.len() - 1 ==> (#[trigger] trace[k]).hops.len() == k) by {
            assert(forall|k: int|
                0 <= k < trace.len() - 1 ==> trace[k] == #[trigger] trace.drop_last()[k]);
        }
    }
}

} // verus!
