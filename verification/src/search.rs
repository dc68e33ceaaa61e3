//! Searching: binary search over a sorted vector, and the two-sum check.
use crate::sorting::sorted;
use vstd::prelude::*;

verus! {

/// Binary searches for `search`; the vector must be sorted and non-empty.
/// If the element is found at index `idx`, returns `Some(idx)`, otherwise
/// returns `None`.
pub fn binary_search(xs: &Vec<i64>, search: &i64) -> (r: Option<usize>)
    requires
        xs@.len() >= 1,
        sorted(xs@),
    ensures
        match r {
            Some(idx) => idx < xs@.len() && xs@[idx as int] == *search,
            None => forall|k: int| 0 <= k < xs@.len() ==> xs@[k] != *search,
        },
{
    _binary_search(xs, 0, xs.len() - 1, search)
}

/// Recursive binary search over the inclusive index range `[low, top]`;
/// an already-crossed pair (`top < low`) means the element is absent.
fn _binary_search(xs: &Vec<i64>, low: usize, top: usize, search: &i64) -> (r: Option<usize>)
    requires
        sorted(xs@),
        top < xs@.len(),
    ensures
        match r {
            Some(idx) => low <= idx <= top && xs@[idx as int] == *search,
            None => forall|k: int| low <= k <= top ==> xs@[k] != *search,
        },
    decreases top + 1 - low,
{
    if top < low {
        // The element was not found
        return None;
    }
    let n = xs.len();
    assert(top < n);

    let mid = low + (top - low) / 2;
    let x = xs[mid];

    if x == *search {
        // Element found
        Some(mid)
    } else if x < *search {
        // Search the right slice: everything at or before `mid` is smaller
        let r = _binary_search(xs, mid + 1, top, search);
        proof {
            assert forall|k: int| low <= k <= mid implies xs@[k] != *search by {
                assert(xs@[k] <= xs@[mid as int]);
            }
        }
        r
    } else {
        // Search the left slice: everything at or after `mid` is larger
        if mid == 0 {
            proof {
                assert forall|k: int| low <= k <= top implies xs@[k] != *search by {
                    assert(xs@[0] <= xs@[k]);
                }
            }
            return None;
        }
        let r = _binary_search(xs, low, mid - 1, search);
        proof {
            assert forall|k: int| mid <= k <= top implies xs@[k] != *search by {
                assert(xs@[mid as int] <= xs@[k]);
            }
        }
        r
    }
}

/// Given `sum`, determines whether there is at least one pair of distinct
/// elements of `xs` whose sum equals `sum`.
pub fn has_two_sum(xs: &Vec<i64>, sum: i64) -> (r: bool)
    ensures
        r == exists|i: int, j: int|
            0 <= i < xs@.len() && 0 <= j < xs@.len() && i != j && xs@[i] + xs@[j] == sum,
{
    let n = xs.len();
    for i in 0..n
        invariant
            n == xs@.len(),
            forall|a: int, b: int|
                0 <= a < i && 0 <= b < n && a != b ==> xs@[a] + xs@[b] != sum,
    {
        for j in 0..n
            invariant
                n == xs@.len(),
                0 <= i < n,
                forall|a: int, b: int|
                    0 <= a < i && 0 <= b < n && a != b ==> xs@[a] + xs@[b] != sum,
                forall|b: int| 0 <= b < j && b != i ==> xs@[i as int] + xs@[b] != sum,
        {
            if j != i && (xs[i] as i128) + (xs[j] as i128) == (sum as i128) {
                return true;
            }
        }
        proof {
            assert forall|a: int, b: int|
                0 <= a < i + 1 && 0 <= b < n && a != b implies xs@[a] + xs@[b] != sum by {
                if a == i {
                    assert(xs@[a] + xs@[b] != sum);
                }
            }
        }
    }
    false
}

} // verus!
