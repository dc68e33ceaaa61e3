//! Merge sort.
use crate::sorting::{lemma_subrange_multiset, sorted, Sorter};
use vstd::prelude::*;

verus! {

/// Divide-and-conquer merge sort.
pub struct MergeSort;

impl Sorter for MergeSort {
    fn sort(xs: &mut Vec<i64>) {
        broadcast use vstd::seq_lib::group_to_multiset_ensures;

        if xs.len() <= 1 {
            return;
        }
        let top = xs.len() - 1;
        merge_sort(xs, 0, top);
        proof {
            assert(xs@.subrange(0, xs@.len() as int) =~= xs@);
            assert(old(xs)@.subrange(0, old(xs)@.len() as int) =~= old(xs)@);
        }
    }
}

/// Recursively sorts the inclusive index range `[low, top]`, leaving the
/// rest of the vector untouched: divide and conquer.
pub fn merge_sort(xs: &mut Vec<i64>, low: usize, top: usize)
    requires
        low <= top < old(xs)@.len(),
    ensures
        final(xs)@.len() == old(xs)@.len(),
        sorted(final(xs)@.subrange(low as int, top as int + 1)),
        final(xs)@.subrange(low as int, top as int + 1).to_multiset() == old(xs)@.subrange(
            low as int,
            top as int + 1,
        ).to_multiset(),
        forall|k: int| 0 <= k < low ==> final(xs)@[k] == old(xs)@[k],
        forall|k: int| top < k < old(xs)@.len() ==> final(xs)@[k] == old(xs)@[k],
    decreases top - low,
{
    if low < top {
        let mid = low + (top - low) / 2;
        let ghost s0 = xs@;
        merge_sort(xs, low, mid);
        let ghost s1 = xs@;
        merge_sort(xs, mid + 1, top);
        let ghost s2 = xs@;
        proof {
            assert(s2.subrange(low as int, mid as int + 1) =~= s1.subrange(
                low as int,
                mid as int + 1,
            ));
            assert(s1.subrange(mid as int + 1, top as int + 1) =~= s0.subrange(
                mid as int + 1,
                top as int + 1,
            ));
        }
        merge(xs, low, mid, top);
        proof {
            lemma_subrange_multiset(s2, low as int, mid as int + 1, top as int + 1);
            lemma_subrange_multiset(s0, low as int, mid as int + 1, top as int + 1);
        }
    } else {
        proof {
            assert(sorted(xs@.subrange(low as int, top as int + 1)));
        }
    }
}

/// Merges the two sorted runs `[low, mid]` and `[mid + 1, top]` of `xs`
/// into one sorted run `[low, top]`, in place; everything outside the
/// range is untouched.  Takes time linear in `top - low + 1`.
pub fn merge(xs: &mut Vec<i64>, low: usize, mid: usize, top: usize)
    requires
        low <= mid < top < old(xs)@.len(),
        sorted(old(xs)@.subrange(low as int, mid as int + 1)),
        sorted(old(xs)@.subrange(mid as int + 1, top as int + 1)),
    ensures
        final(xs)@.len() == old(xs)@.len(),
        sorted(final(xs)@.subrange(low as int, top as int + 1)),
        final(xs)@.subrange(low as int, top as int + 1).to_multiset() == old(xs)@.subrange(
            low as int,
            top as int + 1,
        ).to_multiset(),
        forall|k: int| 0 <= k < low ==> final(xs)@[k] == old(xs)@[k],
        forall|k: int| top < k < old(xs)@.len() ==> final(xs)@[k] == old(xs)@[k],
{
    broadcast use vstd::seq_lib::group_to_multiset_ensures;
    broadcast use vstd::multiset::group_multiset_axioms;

    let n = xs.len();
    // Copy out the two sorted runs
    let mut left: Vec<i64> = Vec::new();
    let mut c: usize = low;
    while c <= mid
        invariant
            n == xs@.len(),
            mid < n,
            low <= c <= mid + 1,
            xs@ == old(xs)@,
            left@ =~= xs@.subrange(low as int, c as int),
        decreases mid + 1 - c,
    {
        left.push(xs[c]);
        c = c + 1;
    }
    let mut right: Vec<i64> = Vec::new();
    let mut c: usize = mid + 1;
    while c <= top
        invariant
            n == xs@.len(),
            top < n,
            mid + 1 <= c <= top + 1,
            xs@ == old(xs)@,
            right@ =~= xs@.subrange(mid as int + 1, c as int),
        decreases top + 1 - c,
    {
        right.push(xs[c]);
        c = c + 1;
    }
    let ll = left.len();
    let rl = right.len();
    proof {
        assert(left@ == old(xs)@.subrange(low as int, mid as int + 1));
        assert(right@ == old(xs)@.subrange(mid as int + 1, top as int + 1));
    }

    // Merge `left` and `right` back into `xs`
    let mut i: usize = 0;
    let mut j: usize = 0;
    while i < ll || j < rl
        invariant
            low <= mid < top < old(xs)@.len(),
            ll == left@.len() == mid + 1 - low,
            rl == right@.len() == top - mid,
            left@ == old(xs)@.subrange(low as int, mid as int + 1),
            right@ == old(xs)@.subrange(mid as int + 1, top as int + 1),
            sorted(left@),
            sorted(right@),
            i <= ll,
            j <= rl,
            xs@.len() == old(xs)@.len(),
            forall|k: int| 0 <= k < low ==> xs@[k] == old(xs)@[k],
            forall|k: int| top < k < old(xs)@.len() ==> xs@[k] == old(xs)@[k],
            sorted(xs@.subrange(low as int, low as int + i + j)),
            xs@.subrange(low as int, low as int + i + j).to_multiset() == left@.subrange(
                0,
                i as int,
            ).to_multiset().add(right@.subrange(0, j as int).to_multiset()),
            i < ll ==> forall|k: int|
                low <= k < low + i + j ==> #[trigger] xs@[k] <= left@[i as int],
            j < rl ==> forall|k: int|
                low <= k < low + i + j ==> #[trigger] xs@[k] <= right@[j as int],
        decreases ll + rl - i - j,
    {
        let ghost prev = xs@;
        let w = low + i + j;
        let take_left = if i < ll && j < rl {
            left[i] <= right[j]
        } else {
            i < ll
        };
        let ghost written = prev.subrange(low as int, w as int);
        if take_left {
            let ghost v = left@[i as int];
            xs[w] = left[i];
            proof {
                broadcast use vstd::seq_lib::group_to_multiset_ensures;
                broadcast use vstd::multiset::group_multiset_axioms;

                assert(written.push(v).to_multiset() =~= written.to_multiset().insert(v));
                assert(left@.subrange(0, i as int).push(v).to_multiset() =~= left@.subrange(
                    0,
                    i as int,
                ).to_multiset().insert(v));
                assert(xs@.subrange(low as int, w as int + 1) =~= written.push(v));
                assert(left@.subrange(0, i as int + 1) =~= left@.subrange(0, i as int).push(v));
                assert(xs@.subrange(low as int, w as int + 1).to_multiset() =~= left@.subrange(
                    0,
                    i as int + 1,
                ).to_multiset().add(right@.subrange(0, j as int).to_multiset()));
            }
            i = i + 1;
        } else {
            let ghost v = right@[j as int];
            xs[w] = right[j];
            proof {
                broadcast use vstd::seq_lib::group_to_multiset_ensures;
                broadcast use vstd::multiset::group_multiset_axioms;

                assert(written.push(v).to_multiset() =~= written.to_multiset().insert(v));
                assert(right@.subrange(0, j as int).push(v).to_multiset() =~= right@.subrange(
                    0,
                    j as int,
                ).to_multiset().insert(v));
                assert(xs@.subrange(low as int, w as int + 1) =~= written.push(v));
                assert(right@.subrange(0, j as int + 1) =~= right@.subrange(0, j as int).push(v));
                assert(xs@.subrange(low as int, w as int + 1).to_multiset() =~= left@.subrange(
                    0,
                    i as int,
                ).to_multiset().add(right@.subrange(0, j as int + 1).to_multiset()));
            }
            j = j + 1;
        }
    }
    proof {
        assert(left@.subrange(0, ll as int) =~= left@);
        assert(right@.subrange(0, rl as int) =~= right@);
        lemma_subrange_multiset(old(xs)@, low as int, mid as int + 1, top as int + 1);
        vstd::seq_lib::lemma_multiset_commutative(left@, right@);
    }
}

} // verus!
