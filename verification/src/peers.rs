//! Which other nodes a node names as its persistent peers.
//!
//! Without discovery every node of a local testnet is connected to every other
//! node. With discovery a node starts from a random handful of them; the
//! random choice is made by `rand`, and what is proved holds of every choice.
use itertools::Itertools;
use rand::seq::IteratorRandom;
use rand::Rng;
use vstd::prelude::*;

verus! {

broadcast use vstd::seq_lib::group_seq_properties, vstd::seq_lib::group_to_multiset_ensures;

/// A sequence of node indices, read as mathematical integers.
pub open spec fn as_ints(s: Seq<usize>) -> Seq<int> {
    s.map_values(|j: usize| j as int)
}

/// The nodes `0..n` other than `index`, in ascending order.
pub open spec fn other_nodes(index: int, n: nat) -> Seq<int>
    decreases n,
{
    if n == 0 {
        seq![]
    } else {
        let before = other_nodes(index, (n - 1) as nat);
        if n - 1 == index {
            before
        } else {
            before.push(n - 1)
        }
    }
}

/// The nodes `lo..hi`, in ascending order.
pub open spec fn node_range(lo: int, hi: int) -> Seq<int> {
    Seq::new(if lo <= hi { (hi - lo) as nat } else { 0 }, |k: int| lo + k)
}

/// What a random choice of discovery peers for node `index` out of `total`
/// satisfies: between one and half of the nodes (none when the node is
/// alone), each named once, none of them the node itself.
pub open spec fn is_discovery_choice(index: int, total: int, peers: Seq<int>) -> bool {
    &&& if total > 1 { 1 <= peers.len() <= total / 2 } else { peers.len() == 0 }
    &&& peers.no_duplicates()
    &&& forall|k: int| 0 <= k < peers.len() ==> 0 <= #[trigger] peers[k] < total && peers[k] != index
}

/// The elements of `s` in order, each kept at its first occurrence only.
pub open spec fn first_occurrences(s: Seq<usize>) -> Seq<usize>
    decreases s.len(),
{
    if s.len() == 0 {
        seq![]
    } else {
        let before = first_occurrences(s.drop_last());
        if before.contains(s.last()) {
            before
        } else {
            before.push(s.last())
        }
    }
}

/// The members of `other_nodes`, its order and its length.
pub proof fn lemma_other_nodes(index: int, n: nat)
    ensures
        forall|x: int| other_nodes(index, n).contains(x) <==> 0 <= x < n && x != index,
        forall|i: int, j: int|
            0 <= i < j < other_nodes(index, n).len() ==> other_nodes(index, n)[i] < other_nodes(
                index,
                n,
            )[j],
        other_nodes(index, n).no_duplicates(),
        other_nodes(index, n).len() == if 0 <= index < n { n - 1 } else { n as int },
    decreases n,
{
    if n > 0 {
        lemma_other_nodes(index, (n - 1) as nat);
        let before = other_nodes(index, (n - 1) as nat);
        if n - 1 != index {
            assert forall|x: int| other_nodes(index, n).contains(x) <==> 0 <= x < n && x != index by {
                if x == n - 1 {
                    assert(other_nodes(index, n)[before.len() as int] == x);
                }
                if other_nodes(index, n).contains(x) {
                    let k = choose|k: int| 0 <= k < other_nodes(index, n).len() && other_nodes(index, n)[k] == x;
                    if k < before.len() {
                        assert(before.contains(x));
                    }
                } else if 0 <= x < n - 1 && x != index {
                    let k = choose|k: int| 0 <= k < before.len() && before[k] == x;
                    assert(other_nodes(index, n)[k] == x);
                }
            }
            assert forall|i: int, j: int|
                0 <= i < j < other_nodes(index, n).len() implies other_nodes(index, n)[i] < other_nodes(index, n)[j] by {
                if j == before.len() {
                    assert(before.contains(before[i]));
                }
            }
        }
    }
}

/// A sequence without repeated elements is its own first occurrences.
pub proof fn lemma_first_occurrences_distinct(s: Seq<usize>)
    requires
        s.no_duplicates(),
    ensures
        first_occurrences(s) == s,
    decreases s.len(),
{
    if s.len() > 0 {
        let init = s.drop_last();
        assert(init.no_duplicates());
        lemma_first_occurrences_distinct(init);
        if init.contains(s.last()) {
            let k = choose|k: int| 0 <= k < init.len() && init[k] == s.last();
            assert(s[k] == s[s.len() - 1]);
        }
        assert(init.push(s.last()) =~= s);
    }
}

/// The nodes `0..total` other than `index`, ascending.
pub fn other_node_indices(index: usize, total: usize) -> (r: Vec<usize>)
    ensures
        as_ints(r@) == other_nodes(index as int, total as nat),
{
    let mut r: Vec<usize> = Vec::new();
    let mut j: usize = 0;
    while j < total
        invariant
            j <= total,
            as_ints(r@) == other_nodes(index as int, j as nat),
        decreases total - j,
    {
        if j != index {
            r.push(j);
        }
        j = j + 1;
        assert(as_ints(r@) =~= other_nodes(index as int, j as nat));
    }
    r
}

/// The nodes `lo..hi`, ascending.
pub fn node_range_indices(lo: usize, hi: usize) -> (r: Vec<usize>)
    ensures
        as_ints(r@) == node_range(lo as int, hi as int),
{
    let mut r: Vec<usize> = Vec::new();
    if hi <= lo {
        assert(as_ints(r@) =~= node_range(lo as int, hi as int));
        return r;
    }
    let mut j: usize = lo;
    while j < hi
        invariant
            lo <= j <= hi,
            as_ints(r@) =~= node_range(lo as int, j as int),
        decreases hi - j,
    {
        let ghost prev = r@;
        r.push(j);
        assert(as_ints(r@) =~= as_ints(prev).push(j as int));
        assert(node_range(lo as int, j + 1) =~= node_range(lo as int, j as int).push(j as int));
        j = j + 1;
    }
    r
}

/// A random number from `low` to `high`, both included (`rand`'s
/// `Rng::gen_range` over `low..=high`, with the thread's generator). The
/// number is random: only its range is stated.
#[verifier::external_body]
fn random_in_range(low: usize, high: usize) -> (r: usize)
    requires
        low <= high,
    ensures
        low <= r <= high,
{
    rand::thread_rng().gen_range(low..=high)
}

/// `amount` of the `candidates` picked at random (`rand`'s
/// `IteratorRandom::choose_multiple`, with the thread's generator). By its
/// source the result keeps `amount` of them, or all when there are fewer,
/// each taken from a distinct position; which ones, and their order, are
/// random and left unsaid.
#[verifier::external_body]
fn choose_multiple(candidates: Vec<usize>, amount: usize) -> (r: Vec<usize>)
    ensures
        r.len() == if amount <= candidates.len() { amount } else { candidates.len() },
        r@.to_multiset().subset_of(candidates@.to_multiset()),
{
    candidates.into_iter().choose_multiple(&mut rand::thread_rng(), amount)
}

/// The elements of `v` with later repetitions dropped (`itertools`'
/// `Itertools::unique`, which by its documentation and source keeps the
/// first occurrence of each element, in order).
#[verifier::external_body]
pub(crate) fn unique(v: &Vec<usize>) -> (r: Vec<usize>)
    ensures
        r@ == first_occurrences(v@),
{
    v.iter().copied().unique().collect()
}

/// A random set of discovery peers for node `index` of `total`.
pub fn discovery_peer_indices(index: usize, total: usize) -> (r: Vec<usize>)
    ensures
        is_discovery_choice(index as int, total as int, as_ints(r@)),
{
    let count: usize = if total > 1 { random_in_range(1, total / 2) } else { 0 };
    let candidates = other_node_indices(index, total);
    let ghost cands = candidates@;
    proof {
        lemma_other_nodes(index as int, total as nat);
        assert forall|i: int, j: int| 0 <= i < cands.len() && 0 <= j < cands.len() && i != j implies cands[i] != cands[j] by {
            assert(as_ints(cands)[i] != as_ints(cands)[j]);
        }
        assert forall|x: usize| cands.contains(x) <==> (x as int) < total && x != index by {
            if cands.contains(x) {
                let k = choose|k: int| 0 <= k < cands.len() && cands[k] == x;
                assert(as_ints(cands)[k] == x as int);
                assert(other_nodes(index as int, total as nat).contains(x as int));
            }
            if (x as int) < total && x != index {
                assert(other_nodes(index as int, total as nat).contains(x as int));
                let k = choose|k: int| 0 <= k < cands.len() && as_ints(cands)[k] == x as int;
                assert(cands[k] == x);
            }
        }
    }
    let chosen = choose_multiple(candidates, count);
    proof {
        cands.lemma_multiset_has_no_duplicates();
        assert forall|x: usize| chosen@.to_multiset().contains(x) implies chosen@.to_multiset().count(x) == 1 by {
            assert(chosen@.to_multiset().count(x) <= cands.to_multiset().count(x));
        }
        chosen@.lemma_multiset_has_no_duplicates_conv();
        lemma_first_occurrences_distinct(chosen@);
        assert forall|k: int| 0 <= k < chosen@.len() implies (chosen@[k] as int) < total && chosen@[k] != index by {
            assert(chosen@.contains(chosen@[k]));
            assert(chosen@.to_multiset().count(chosen@[k]) <= cands.to_multiset().count(chosen@[k]));
        }
    }
    let r = unique(&chosen);
    proof {
        let s = as_ints(r@);
        assert forall|i: int, j: int| 0 <= i < s.len() && 0 <= j < s.len() && i != j implies s[i] != s[j] by {
            assert(r@[i] != r@[j]);
        }
    }
    r
}

} // verus!
