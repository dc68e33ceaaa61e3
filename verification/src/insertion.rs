//! Insertion sort.
use crate::sorting::{lemma_swap_multiset, sorted, Sorter};
use vstd::prelude::*;

verus! {

/// In-place insertion sort: each new entry is swapped leftwards until the
/// prefix is in order.
pub struct InsertionSort;

impl Sorter for InsertionSort {
    fn sort(xs: &mut Vec<i64>) {
        let n = xs.len();
        let mut not_sorted: usize = 1;
        while not_sorted < n
            invariant
                n == xs@.len(),
                xs@.to_multiset() == old(xs)@.to_multiset(),
                forall|a: int, b: int| 0 <= a <= b < not_sorted ==> xs@[a] <= xs@[b],
            decreases n - not_sorted,
        {
            let mut i = not_sorted;
            while i > 0 && xs[i - 1] > xs[i]
                invariant
                    n == xs@.len(),
                    0 <= i <= not_sorted < n,
                    xs@.to_multiset() == old(xs)@.to_multiset(),
                    forall|a: int, b: int|
                        0 <= a <= b <= not_sorted && b != i ==> xs@[a] <= xs@[b],
                decreases i,
            {
                let ghost before = xs@;
                let lo = xs[i - 1];
                let hi = xs[i];
                xs[i - 1] = hi;
                xs[i] = lo;
                proof {
                    assert(xs@ =~= before.update(i - 1, before[i as int]).update(
                        i as int,
                        before[i - 1],
                    ));
                    lemma_swap_multiset(before, i - 1, i as int);
                }
                i = i - 1;
            }
            not_sorted = not_sorted + 1;
        }
        proof {
            if n == 0 {
            }
            assert(sorted(xs@));
        }
    }
}

} // verus!
