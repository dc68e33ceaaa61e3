//! Comparison sorting: the ordering predicate, the sorter contract, and a
//! sortedness check.
use vstd::prelude::*;

verus! {

/// Whether the entries are in non-decreasing order.
pub open spec fn sorted(s: Seq<i64>) -> bool {
    forall|i: int, j: int| 0 <= i <= j < s.len() ==> s[i] <= s[j]
}

/// A sequence whose adjacent pairs are ordered is sorted.
pub proof fn lemma_sorted_from_adjacent(s: Seq<i64>)
    requires
        forall|k: int| 0 < k < s.len() ==> #[trigger] s[k - 1] <= s[k],
    ensures
        sorted(s),
{
    assert forall|i: int, j: int| 0 <= i <= j < s.len() implies s[i] <= s[j] by {
        lemma_chain_le(s, i, j);
    }
}

/// Adjacent order propagates along any span.
proof fn lemma_chain_le(s: Seq<i64>, i: int, j: int)
    requires
        forall|k: int| 0 < k < s.len() ==> #[trigger] s[k - 1] <= s[k],
        0 <= i <= j < s.len(),
    ensures
        s[i] <= s[j],
    decreases j - i,
{
    if i < j {
        lemma_chain_le(s, i, j - 1);
    }
}

/// Overwriting one entry trades its old value for the new one in the
/// multiset of entries.
pub proof fn lemma_update_multiset(s: Seq<i64>, i: int, v: i64)
    requires
        0 <= i < s.len(),
    ensures
        s.update(i, v).to_multiset() == s.to_multiset().remove(s[i]).insert(v),
    decreases s.len(),
{
    broadcast use vstd::seq_lib::group_to_multiset_ensures;
    broadcast use vstd::multiset::group_multiset_axioms;

    let dl = s.drop_last();
    if i == s.len() - 1 {
        assert(s =~= dl.push(s[i]));
        assert(s.update(i, v) =~= dl.push(v));
        assert(s.to_multiset() =~= dl.to_multiset().insert(s[i]));
        assert(s.update(i, v).to_multiset() =~= dl.to_multiset().insert(v));
        assert(dl.to_multiset().insert(s[i]).remove(s[i]) =~= dl.to_multiset());
    } else {
        let last = s.last();
        lemma_update_multiset(dl, i, v);
        assert(s =~= dl.push(last));
        assert(s.update(i, v) =~= dl.update(i, v).push(last));
        assert(s.to_multiset() =~= dl.to_multiset().insert(last));
        assert(s.update(i, v).to_multiset() =~= dl.update(i, v).to_multiset().insert(last));
        assert(dl.contains(s[i])) by {
            assert(dl[i] == s[i]);
        }
        assert(dl.to_multiset().count(s[i]) > 0);
        assert(s.to_multiset().remove(s[i]).insert(v) =~= dl.to_multiset().remove(
            s[i],
        ).insert(v).insert(last));
    }
}

/// Swapping two entries leaves the multiset of entries unchanged.
pub proof fn lemma_swap_multiset(s: Seq<i64>, i: int, j: int)
    requires
        0 <= i < s.len(),
        0 <= j < s.len(),
    ensures
        s.update(i, s[j]).update(j, s[i]).to_multiset() == s.to_multiset(),
{
    broadcast use vstd::seq_lib::group_to_multiset_ensures;
    broadcast use vstd::multiset::group_multiset_axioms;

    if i == j {
        assert(s.update(i, s[j]).update(j, s[i]) =~= s);
    } else {
        let t = s.update(i, s[j]);
        lemma_update_multiset(s, i, s[j]);
        lemma_update_multiset(t, j, s[i]);
        assert(t[j] == s[j]);
        assert(s.contains(s[i])) by {
            assert(s[i] == s[i]);
        }
        assert(s.to_multiset().count(s[i]) > 0);
        assert(s.to_multiset().remove(s[i]).insert(s[j]).remove(s[j]).insert(s[i])
            =~= s.to_multiset());
    }
}

/// Splitting a sequence splits the multiset of its entries.
pub proof fn lemma_subrange_multiset(s: Seq<i64>, a: int, b: int, c: int)
    requires
        0 <= a <= b <= c <= s.len(),
    ensures
        s.subrange(a, c).to_multiset() == s.subrange(a, b).to_multiset().add(
            s.subrange(b, c).to_multiset(),
        ),
{
    assert(s.subrange(a, c) =~= s.subrange(a, b) + s.subrange(b, c));
    vstd::seq_lib::lemma_multiset_commutative(s.subrange(a, b), s.subrange(b, c));
}

/// The contract of a comparison sorter: sorting reorders the entries of
/// the vector, in place, into non-decreasing order.
pub trait Sorter {
    /// Sorts the vector in place.
    fn sort(xs: &mut Vec<i64>)
        ensures
            sorted(final(xs)@),
            final(xs)@.to_multiset() == old(xs)@.to_multiset(),
    ;
}

/// Returns whether the entries are in non-decreasing order.  The scan
/// starts from the first entry, which must exist.
pub fn is_sorted(xs: &Vec<i64>) -> (r: bool)
    requires
        xs@.len() >= 1,
    ensures
        r == sorted(xs@),
{
    let n = xs.len();
    let mut next: usize = 1;
    while next < n
        invariant
            1 <= next <= n,
            n == xs@.len(),
            forall|k: int| 0 < k < next ==> #[trigger] xs@[k - 1] <= xs@[k],
        decreases n - next,
    {
        if xs[next - 1] > xs[next] {
            return false;
        }
        next = next + 1;
    }
    proof {
        lemma_sorted_from_adjacent(xs@);
    }
    true
}

} // verus!
