//! End-of-round ranking: ordering the (miner identity, donated gold) entries
//! by donation, highest first, with ties kept in their original relative
//! order. The sort's contract carries an explicit permutation witness, so
//! callers can recover where every participant ended up.
use vstd::prelude::*;

verus! {

/// Entries are ordered by donated gold, highest first.
pub open spec fn sorted_desc(s: Seq<(usize, u64)>) -> bool {
    forall|i: int, j: int| 0 <= i < j < s.len() ==> #[trigger] s[i].1 >= #[trigger] s[j].1
}

/// No two entries name the same miner.
pub open spec fn distinct_ids(s: Seq<(usize, u64)>) -> bool {
    forall|i: int, j: int| 0 <= i < j < s.len() ==> (#[trigger] s[i]).0 != (#[trigger] s[j]).0
}

/// `perm` witnesses that `output` is `input` reordered: position `k` of the
/// output holds the entry from position `perm[k]` of the input, every input
/// position is used exactly once (`inv` names, for each input position, the
/// output position it went to), and entries with equal donations keep their
/// input order (stability).
pub open spec fn is_stable_rank_perm(
    input: Seq<(usize, u64)>,
    output: Seq<(usize, u64)>,
    perm: Seq<int>,
    inv: Seq<int>,
) -> bool {
    &&& output.len() == input.len()
    &&& perm.len() == output.len()
    &&& inv.len() == input.len()
    &&& forall|k: int|
        0 <= k < perm.len() ==> 0 <= #[trigger] perm[k] < input.len() && output[k]
            == input[perm[k]]
    &&& forall|k: int, l: int| 0 <= k < l < perm.len() ==> #[trigger] perm[k] != #[trigger] perm[l]
    &&& forall|q: int| 0 <= q < input.len() ==> 0 <= #[trigger] inv[q] < perm.len() && perm[inv[q]]
        == q
    &&& forall|k: int, l: int|
        0 <= k < l < output.len() && (#[trigger] output[k]).1 == (#[trigger] output[l]).1
            ==> perm[k] < perm[l]
}

/// `output` ranks `input`: some stable permutation relates the two.
pub open spec fn is_ranking(input: Seq<(usize, u64)>, output: Seq<(usize, u64)>) -> bool {
    exists|perm: Seq<int>, inv: Seq<int>| is_stable_rank_perm(input, output, perm, inv)
}

/// A ranking of entries with pairwise distinct identities again has pairwise
/// distinct identities.
pub proof fn lemma_ranking_distinct_ids(input: Seq<(usize, u64)>, output: Seq<(usize, u64)>)
    requires
        is_ranking(input, output),
        distinct_ids(input),
    ensures
        distinct_ids(output),
{
    let (perm, inv) = choose|perm: Seq<int>, inv: Seq<int>|
        is_stable_rank_perm(input, output, perm, inv);
    assert forall|i: int, j: int| 0 <= i < j < output.len() implies (#[trigger] output[i]).0 != (
    #[trigger] output[j]).0 by {
        assert(output[i] == input[perm[i]]);
        assert(output[j] == input[perm[j]]);
        assert(perm[i] != perm[j]);
        if perm[i] < perm[j] {
            assert(input[perm[i]].0 != input[perm[j]].0);
        } else {
            assert(input[perm[j]].0 != input[perm[i]].0);
        }
    }
}

/// Every input entry appears somewhere in a ranking of it.
pub proof fn lemma_ranking_complete(input: Seq<(usize, u64)>, output: Seq<(usize, u64)>)
    requires
        is_ranking(input, output),
    ensures
        forall|q: int| 0 <= q < input.len() ==> #[trigger] output.contains(input[q]),
{
    let (perm, inv) = choose|perm: Seq<int>, inv: Seq<int>|
        is_stable_rank_perm(input, output, perm, inv);
    assert forall|q: int| 0 <= q < input.len() implies #[trigger] output.contains(input[q]) by {
        let k = inv[q];
        assert(0 <= k < output.len());
        assert(output[k] == input[q]);
    }
}

/// Every entry of a ranking came from the input.
pub proof fn lemma_ranking_members(input: Seq<(usize, u64)>, output: Seq<(usize, u64)>)
    requires
        is_ranking(input, output),
    ensures
        forall|k: int| 0 <= k < output.len() ==> #[trigger] input.contains(output[k]),
{
    let (perm, inv) = choose|perm: Seq<int>, inv: Seq<int>|
        is_stable_rank_perm(input, output, perm, inv);
    assert forall|k: int| 0 <= k < output.len() implies #[trigger] input.contains(output[k]) by {
        let q = perm[k];
        assert(0 <= q < input.len());
        assert(input[q] == output[k]);
    }
}

/// Stable insertion sort, descending by donated gold: each entry is placed
/// after every entry that donated at least as much, so equal donations keep
/// their original relative order.
pub fn rank_descending(v: &Vec<(usize, u64)>) -> (r: Vec<(usize, u64)>)
    ensures
        r@.len() == v@.len(),
        sorted_desc(r@),
        is_ranking(v@, r@),
{
    let mut out: Vec<(usize, u64)> = Vec::new();
    let ghost mut perm: Seq<int> = Seq::empty();
    let ghost mut inv_perm: Seq<int> = Seq::empty();
    let mut i: usize = 0;
    while i < v.len()
        invariant
            i <= v.len(),
            out@.len() == i,
            perm.len() == i,
            inv_perm.len() == i,
            sorted_desc(out@),
            forall|k: int| 0 <= k < i ==> 0 <= #[trigger] perm[k] < i && out@[k] == v@[perm[k]],
            forall|k: int, l: int| 0 <= k < l < i ==> #[trigger] perm[k] != #[trigger] perm[l],
            forall|q: int|
                0 <= q < i ==> 0 <= #[trigger] inv_perm[q] < i && perm[inv_perm[q]] == q,
            forall|k: int, l: int|
                0 <= k < l < i && (#[trigger] out@[k]).1 == (#[trigger] out@[l]).1 ==> perm[k]
                    < perm[l],
        decreases v.len() - i,
    {
        let x = v[i];
        let ghost old_out = out@;
        let ghost old_perm = perm;
        let mut p: usize = 0;
        while p < out.len() && out[p].1 >= x.1
            invariant
                p <= out@.len(),
                forall|k: int| 0 <= k < p ==> (#[trigger] out@[k]).1 >= x.1,
            decreases out@.len() - p,
        {
            p = p + 1;
        }
        out.insert(p, x);
        proof {
            perm = perm.insert(p as int, i as int);
            inv_perm = inv_perm.map_values(
                |k: int|
                    if k < p {
                        k
                    } else {
                        k + 1
                    },
            ).push(p as int);
            old_out.insert_ensures(p as int, x);
            old_perm.insert_ensures(p as int, i as int);
        }
        i = i + 1;
    }
    proof {
        assert(is_stable_rank_perm(v@, out@, perm, inv_perm));
    }
    out
}

} // verus!
