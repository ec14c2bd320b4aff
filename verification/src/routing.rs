//! Weight-based next-hop selection.
//!
//! A node's neighbor list partitions `[0, WEIGHT_SUM)` into contiguous
//! buckets in list order; the routing value `ρ` selects the neighbor whose
//! bucket contains it, with half-open interval semantics.

use crate::types::{ProtocolError, ProtocolResult, PublicKey};
use vstd::arithmetic::div_mod::lemma_fundamental_div_mod;
use vstd::arithmetic::mul::{lemma_mul_inequality, lemma_mul_is_distributive_add_other_way};
use vstd::prelude::*;

verus! {

/// Sum of the weights of a neighbor row.
pub open spec fn weight_sum(row: Seq<(usize, u32)>) -> int
    decreases row.len(),
{
    if row.len() == 0 {
        0
    } else {
        weight_sum(row.drop_last()) + row.last().1
    }
}

/// Sum of the weights of the first `j` entries of a row: the lower boundary
/// of bucket `j`.
pub open spec fn cum_weight(row: Seq<(usize, u32)>, j: int) -> int
    decreases j,
{
    if j <= 0 {
        0
    } else {
        cum_weight(row, j - 1) + row[j - 1].1
    }
}

/// Bucket `j` owns the half-open interval
/// `[cum_weight(row, j), cum_weight(row, j) + row[j].1)`.
pub open spec fn in_bucket(row: Seq<(usize, u32)>, j: int, rho: int) -> bool {
    &&& 0 <= j < row.len()
    &&& cum_weight(row, j) <= rho
    &&& rho < cum_weight(row, j) + row[j].1
}

/// The neighbor row of `node` in a weight matrix, empty where the node is
/// out of range.
pub open spec fn row_of(m: Seq<Seq<(usize, u32)>>, node: int) -> Seq<(usize, u32)> {
    if 0 <= node < m.len() {
        m[node]
    } else {
        Seq::empty()
    }
}

/// Weight matrix for routing decisions: for each node, a list of
/// `(neighbor_index, weight)` pairs in insertion order.
pub struct WeightMatrix {
    /// For each node, its list of `(neighbor_index, weight)` pairs.
    pub adjacency: Vec<Vec<(usize, u32)>>,
}

impl View for WeightMatrix {
    type V = Seq<Seq<(usize, u32)>>;

    open spec fn view(&self) -> Seq<Seq<(usize, u32)>> {
        self.adjacency@.map_values(|row: Vec<(usize, u32)>| row@)
    }
}

impl Clone for WeightMatrix {
    fn clone(&self) -> (r: Self)
        ensures
            r@ == self@,
    {
        let mut adjacency: Vec<Vec<(usize, u32)>> = Vec::new();
        let mut i: usize = 0;
        while i < self.adjacency.len()
            invariant
                i <= self.adjacency@.len(),
                adjacency@.len() == i as nat,
                forall|j: int| 0 <= j < i ==> adjacency@[j]@ == self.adjacency@[j]@,
            decreases self.adjacency@.len() - i,
        {
            let mut row: Vec<(usize, u32)> = Vec::new();
            let mut k: usize = 0;
            while k < self.adjacency[i].len()
                invariant
                    i < self.adjacency@.len(),
                    k <= self.adjacency@[i as int]@.len(),
                    row@ == self.adjacency@[i as int]@.subrange(0, k as int),
                decreases self.adjacency@[i as int]@.len() - k,
            {
                row.push(self.adjacency[i][k]);
                proof {
                    assert(row@ =~= self.adjacency@[i as int]@.subrange(0, k + 1 as int));
                }
                k = k + 1;
            }
            proof {
                assert(row@ =~= self.adjacency@[i as int]@);
            }
            adjacency.push(row);
            i = i + 1;
        }
        let r = WeightMatrix { adjacency };
        proof {
            assert(r@ =~= self@);
        }
        r
    }
}

impl WeightMatrix {
    /// A matrix of `num_nodes` nodes with no edges yet.
    pub fn new(num_nodes: usize) -> (r: Self)
        ensures
            r@.len() == num_nodes,
            forall|i: int| 0 <= i < num_nodes ==> r@[i].len() == 0,
    {
        let mut adjacency: Vec<Vec<(usize, u32)>> = Vec::new();
        let mut i: usize = 0;
        while i < num_nodes
            invariant
                i <= num_nodes,
                adjacency@.len() == i as nat,
                forall|j: int| 0 <= j < i ==> adjacency@[j]@.len() == 0,
            decreases num_nodes - i,
        {
            adjacency.push(Vec::new());
            i = i + 1;
        }
        WeightMatrix { adjacency }
    }

    /// Add an edge `from -> to` with the given weight; out-of-range sources
    /// are ignored.
    pub fn add_edge(&mut self, from: usize, to: usize, weight: u32)
        ensures
            from < old(self)@.len() ==> final(self)@ == old(self)@.update(
                from as int,
                old(self)@[from as int].push((to, weight)),
            ),
            from >= old(self)@.len() ==> final(self)@ == old(self)@,
    {
        if from < self.adjacency.len() {
            let mut row = self.adjacency.remove(from);
            row.push((to, weight));
            self.adjacency.insert(from, row);
            proof {
                assert(self@ =~= old(self)@.update(
                    from as int,
                    old(self)@[from as int].push((to, weight)),
                ));
            }
        }
    }

    /// The neighbor row of one node.
    pub fn get_weights(&self, node_index: usize) -> (r: &Vec<(usize, u32)>)
        requires
            node_index < self@.len(),
        ensures
            r@ == self@[node_index as int],
    {
        &self.adjacency[node_index]
    }

    /// An all-to-all topology: every node has `num_nodes - 1` neighbors of
    /// weight `⌊total_weight / (num_nodes - 1)⌋`, with the integer remainder
    /// distributed one unit each to the first neighbors in list order, so
    /// that every node's weights sum to `total_weight` exactly.
    ///
    /// The precondition is what the 32-bit weight type forces: the total
    /// must be expressible as a sum of `num_nodes - 1` weights.
    pub fn uniform(num_nodes: usize, total_weight: u64) -> (r: Self)
        requires
            num_nodes > 1 ==> total_weight as int <= (num_nodes - 1) * 0xffff_ffff,
        ensures
            r@.len() == num_nodes,
            num_nodes <= 1 ==> forall|i: int| 0 <= i < num_nodes ==> r@[i].len() == 0,
            num_nodes > 1 ==> forall|i: int|
                0 <= i < num_nodes ==> uniform_row_ok(
                    #[trigger] r@[i],
                    i,
                    num_nodes as int,
                    total_weight as int,
                ),
    {
        if num_nodes <= 1 {
            return WeightMatrix::new(num_nodes);
        }
        let nm1 = num_nodes - 1;
        let per64 = total_weight / (nm1 as u64);
        let rem = total_weight % (nm1 as u64);
        proof {
            lemma_fundamental_div_mod(total_weight as int, nm1 as int);
            assert(total_weight as int == (nm1 as int) * (per64 as int) + rem as int);
            assert(per64 <= 0xffff_ffff) by {
                if per64 > 0xffff_ffff {
                    lemma_mul_inequality(0x1_0000_0000, per64 as int, nm1 as int);
                    vstd::arithmetic::mul::lemma_mul_is_commutative(nm1 as int, per64 as int);
                    assert((nm1 as int) * (per64 as int) == (per64 as int) * (nm1 as int));
                    assert((nm1 as int) * 0x1_0000_0000 == (nm1 as int) * 0xffff_ffff + (
                    nm1 as int));
                    assert(total_weight as int == (nm1 as int) * (per64 as int) + rem as int);
                }
            }
            assert(rem > 0 && per64 == 0xffff_ffff ==> false) by {
                if rem > 0 && per64 == 0xffff_ffff {
                    assert(total_weight as int == (nm1 as int) * 0xffff_ffff + rem as int);
                }
            }
        }
        let per = per64 as u32;
        proof {
            assert(per == per64);
        }
        let mut adjacency: Vec<Vec<(usize, u32)>> = Vec::new();
        let mut i: usize = 0;
        while i < num_nodes
            invariant
                num_nodes > 1,
                nm1 == num_nodes - 1,
                per == total_weight as int / (nm1 as int),
                rem == total_weight as int % (nm1 as int),
                rem < nm1,
                rem > 0 ==> per < 0xffff_ffff,
                i <= num_nodes,
                adjacency@.len() == i as nat,
                forall|j: int|
                    0 <= j < i ==> uniform_row_ok(
                        #[trigger] adjacency@[j]@,
                        j,
                        num_nodes as int,
                        total_weight as int,
                    ),
            decreases num_nodes - i,
        {
            let row = Self::uniform_row(i, num_nodes, per, rem);
            proof {
                lemma_fundamental_div_mod(total_weight as int, nm1 as int);
            }
            adjacency.push(row);
            i = i + 1;
        }
        let r = WeightMatrix { adjacency };
        proof {
            assert(forall|i: int|
                0 <= i < num_nodes ==> r@[i] == r.adjacency@[i]@);
        }
        r
    }

    /// One row of the uniform topology: node `i`'s neighbors in index order,
    /// the first `rem` of them one unit heavier.
    fn uniform_row(i: usize, num_nodes: usize, per: u32, rem: u64) -> (row: Vec<(usize, u32)>)
        requires
            i < num_nodes,
            num_nodes > 1,
            rem < num_nodes - 1,
            rem > 0 ==> per < 0xffff_ffff,
        ensures
            row@.len() == num_nodes - 1,
            forall|k: int|
                0 <= k < num_nodes - 1 ==> (#[trigger] row@[k]).0 == (if k < i {
                    k
                } else {
                    k + 1
                }),
            forall|k: int|
                0 <= k < num_nodes - 1 ==> (#[trigger] row@[k]).1 == per + (if k < rem {
                    1int
                } else {
                    0int
                }),
            weight_sum(row@) == (num_nodes - 1) * per + rem,
    {
        let mut row: Vec<(usize, u32)> = Vec::new();
        let mut j: usize = 0;
        while j < num_nodes
            invariant
                i < num_nodes,
                num_nodes > 1,
                rem < num_nodes - 1,
                rem > 0 ==> per < 0xffff_ffff,
                j <= num_nodes,
                j <= i ==> row@.len() == j as nat,
                j > i ==> row@.len() == j - 1,
                row@.len() <= num_nodes - 1,
                forall|k: int|
                    0 <= k < row@.len() ==> (#[trigger] row@[k]).0 == (if k < i {
                        k
                    } else {
                        k + 1
                    }),
                forall|k: int|
                    0 <= k < row@.len() ==> (#[trigger] row@[k]).1 == per + (if k < rem {
                        1int
                    } else {
                        0int
                    }),
                weight_sum(row@) == row@.len() * per + (if row@.len() <= rem {
                    row@.len() as int
                } else {
                    rem as int
                }),
            decreases num_nodes - j,
        {
            if j != i {
                let k = row.len();
                let weight = if (k as u64) < rem {
                    per + 1
                } else {
                    per
                };
                let ghost pre = row@;
                row.push((j, weight));
                proof {
                    assert(row@.drop_last() =~= pre);
                    lemma_mul_is_distributive_add_other_way(per as int, k as int, 1);
                }
            }
            j = j + 1;
        }
        row
    }
}

/// What one row of `WeightMatrix::uniform` looks like for node `i` in a
/// network of `n` nodes with total weight `total`.
pub open spec fn uniform_row_ok(row: Seq<(usize, u32)>, i: int, n: int, total: int) -> bool {
    let per = total / (n - 1);
    let rem = total % (n - 1);
    &&& row.len() == n - 1
    &&& forall|k: int| 0 <= k < n - 1 ==> (#[trigger] row[k]).0 == (if k < i { k } else { k + 1 })
    &&& forall|k: int|
        0 <= k < n - 1 ==> (#[trigger] row[k]).1 == per + (if k < rem { 1int } else { 0int })
    &&& weight_sum(row) == total
}

/// The cumulative weight of a prefix does not change when entries past the
/// prefix are dropped.
proof fn lemma_cum_prefix(row: Seq<(usize, u32)>, j: int)
    requires
        0 <= j < row.len(),
    ensures
        cum_weight(row, j) == cum_weight(row.drop_last(), j),
    decreases j,
{
    if j > 0 {
        lemma_cum_prefix(row, j - 1);
    }
}

/// The cumulative weight of the whole row is its weight sum.
proof fn lemma_cum_full(row: Seq<(usize, u32)>)
    ensures
        cum_weight(row, row.len() as int) == weight_sum(row),
    decreases row.len(),
{
    if row.len() > 0 {
        lemma_cum_full(row.drop_last());
        lemma_cum_prefix(row, row.len() - 1);
    }
}

/// Cumulative weights are monotone in the prefix length.
proof fn lemma_cum_monotonic(row: Seq<(usize, u32)>, i: int, j: int)
    requires
        0 <= i <= j,
    ensures
        cum_weight(row, i) <= cum_weight(row, j),
    decreases j - i,
{
    if i < j {
        lemma_cum_monotonic(row, i, j - 1);
    }
}

/// Law: selection is total.  For any row whose weights sum to `total` and
/// any routing value in `[0, total)`, some bucket contains the value — in
/// particular, with weights summing to `WEIGHT_SUM`, every 32-bit routing
/// value selects a neighbor.
pub proof fn lemma_selection_total(row: Seq<(usize, u32)>, rho: int)
    requires
        0 <= rho < weight_sum(row),
    ensures
        exists|j: int| in_bucket(row, j, rho),
    decreases row.len(),
{
    if row.len() == 0 {
        assert(weight_sum(row) == 0);
    } else {
        let prefix = row.drop_last();
        if rho < weight_sum(prefix) {
            lemma_selection_total(prefix, rho);
            let j = choose|j: int| in_bucket(prefix, j, rho);
            lemma_cum_prefix(row, j);
            lemma_cum_prefix(row, j + 1);
            assert(cum_weight(row, j + 1) == cum_weight(row, j) + row[j].1);
            assert(cum_weight(prefix, j + 1) == cum_weight(prefix, j) + prefix[j].1);
            assert(in_bucket(row, j, rho));
        } else {
            lemma_cum_full(prefix);
            lemma_cum_prefix(row, row.len() - 1);
            assert(in_bucket(row, row.len() - 1, rho));
        }
    }
}

/// Law: on a well-formed topology — a row whose weights sum to exactly
/// `WEIGHT_SUM` and whose neighbor indices all point at published keys —
/// selection succeeds for *every* 32-bit routing value: `select_next_hop`
/// cannot return an error there.
pub proof fn lemma_selection_total_on_valid_row(row: Seq<(usize, u32)>, rho: u32, num_keys: int)
    requires
        weight_sum(row) == crate::WEIGHT_SUM,
        forall|k: int| 0 <= k < row.len() ==> (#[trigger] row[k]).0 < num_keys,
        num_keys > 0,
    ensures
        !selection_fails(row, rho as int, num_keys),
{
    lemma_selection_total(row, rho as int);
}

/// Law: buckets are disjoint, so the selected neighbor is unique.
pub proof fn lemma_selection_unique(row: Seq<(usize, u32)>, rho: int, j1: int, j2: int)
    requires
        in_bucket(row, j1, rho),
        in_bucket(row, j2, rho),
    ensures
        j1 == j2,
{
    if j1 < j2 {
        assert(cum_weight(row, j1 + 1) == cum_weight(row, j1) + row[j1].1);
        lemma_cum_monotonic(row, j1 + 1, j2);
    }
    if j2 < j1 {
        assert(cum_weight(row, j2 + 1) == cum_weight(row, j2) + row[j2].1);
        lemma_cum_monotonic(row, j2 + 1, j1);
    }
}

/// Law: a routing value equal to a cumulative boundary belongs to the *next*
/// bucket, never the one ending there — the half-open interval semantics.
pub proof fn lemma_boundary_selects_next(row: Seq<(usize, u32)>, j: int)
    requires
        0 <= j < row.len(),
        row[j].1 > 0,
    ensures
        in_bucket(row, j, cum_weight(row, j)),
        j > 0 ==> !in_bucket(row, j - 1, cum_weight(row, j)),
{
    if j > 0 {
        assert(cum_weight(row, j) == cum_weight(row, j - 1) + row[j - 1].1);
    }
}

/// When next-hop selection fails on a row: no keys are published, the row is
/// empty, `rho` falls past every bucket, or the selected neighbor index is
/// out of range of the published keys.
pub open spec fn selection_fails(row: Seq<(usize, u32)>, rho: int, num_keys: int) -> bool {
    ||| num_keys == 0
    ||| row.len() == 0
    ||| forall|j: int| !in_bucket(row, j, rho)
    ||| exists|j: int| in_bucket(row, j, rho) && (#[trigger] row[j]).0 >= num_keys
}

/// Select the next hop for routing value `rho`, keyed off the caller's own
/// position `current_node` in the topology.
///
/// The current node's row partitions `[0, sum of its weights)` into
/// half-open buckets in list order; the neighbor whose bucket contains
/// `rho` is selected.  Fails with `InvalidWeightSelection` exactly when the
/// key list or the row is empty, when `rho` falls past every bucket (a
/// topology whose weights do not sum to `WEIGHT_SUM` is misconstructed, not
/// silently masked), or when the selected neighbor index is out of range of
/// `all_public_keys`.
pub fn select_next_hop(
    rho: u32,
    weight_matrix: &WeightMatrix,
    current_node: usize,
    all_public_keys: &[PublicKey],
) -> (r: ProtocolResult<(usize, PublicKey)>)
    ensures
        match r {
            Ok(sel) => {
                let row = row_of(weight_matrix@, current_node as int);
                &&& exists|j: int| in_bucket(row, j, rho as int) && (#[trigger] row[j]).0 == sel.0
                &&& sel.0 < all_public_keys@.len()
                &&& sel.1 == all_public_keys@[sel.0 as int]
            },
            Err(e) => {
                let row = row_of(weight_matrix@, current_node as int);
                &&& e is InvalidWeightSelection
                &&& selection_fails(row, rho as int, all_public_keys@.len() as int)
            },
        },
{
    if all_public_keys.len() == 0 {
        return Err(ProtocolError::InvalidWeightSelection);
    }
    if current_node >= weight_matrix.adjacency.len() {
        return Err(ProtocolError::InvalidWeightSelection);
    }
    let weights = &weight_matrix.adjacency[current_node];
    let ghost row = row_of(weight_matrix@, current_node as int);
    proof {
        assert(row == weights@);
    }
    if weights.len() == 0 {
        return Err(ProtocolError::InvalidWeightSelection);
    }
    let mut cumulative: u64 = 0;
    let mut i: usize = 0;
    while i < weights.len()
        invariant
            row == weights@,
            row == row_of(weight_matrix@, current_node as int),
            i <= row.len(),
            cumulative == cum_weight(row, i as int),
            cumulative <= rho,
            forall|j: int| 0 <= j < i ==> !in_bucket(row, j, rho as int),
        decreases row.len() - i,
    {
        let entry = weights[i];
        let node_idx = entry.0;
        let w = entry.1;
        cumulative = cumulative + (w as u64);
        proof {
            assert(cum_weight(row, i + 1 as int) == cum_weight(row, i as int) + row[i as int].1);
        }
        if (rho as u64) < cumulative {
            proof {
                assert(in_bucket(row, i as int, rho as int));
            }
            if node_idx >= all_public_keys.len() {
                return Err(ProtocolError::InvalidWeightSelection);
            }
            return Ok((node_idx, all_public_keys[node_idx]));
        }
        i = i + 1;
    }
    proof {
        assert(forall|j: int| !in_bucket(row, j, rho as int));
    }
    Err(ProtocolError::InvalidWeightSelection)
}

} // verus!

