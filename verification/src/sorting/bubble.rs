//! Bubble sort with early exit.

use vstd::prelude::*;
use crate::sorting::order::{le, gt, sorted, permutation, total_order, lemma_total_order, lemma_swap_permutation};

verus! {

/// Sort `arr` in place by repeatedly exchanging adjacent elements that are
/// out of order, stopping as soon as a whole pass exchanges nothing.
///
/// The slice always ends as a rearrangement of what it held; when the element
/// type is totally ordered it ends sorted.
pub fn bubble_sort<T: Ord>(arr: &mut [T])
    ensures
        final(arr)@.len() == old(arr)@.len(),
        permutation(old(arr)@, final(arr)@),
        total_order::<T>() ==> sorted(final(arr)@),
{
    let n: usize = arr.len();
    proof {
        if total_order::<T>() {
            lemma_total_order::<T>();
        }
    }
    if n < 2 {
        return;
    }
    let ghost start = arr@;
    let mut i: usize = 0;
    let mut was_swap: bool = true;
    while i < n - 1 && was_swap
        invariant
            n == arr@.len(),
            n >= 2,
            i <= n - 1,
            permutation(start, arr@),
            // the last `i` positions hold their final elements
            total_order::<T>() ==> forall|p: int, q: int|
                0 <= p <= q < n && n - i <= q ==> le(arr@[p], arr@[q]),
            total_order::<T>() && !was_swap ==> sorted(arr@),
        decreases n - i,
    {
        was_swap = false;
        let mut j: usize = 0;
        proof {
            if total_order::<T>() {
                lemma_total_order::<T>();
            }
        }
        while j < n - 1 - i
            invariant
                n == arr@.len(),
                n >= 2,
                i < n - 1,
                j <= n - 1 - i,
                permutation(start, arr@),
                total_order::<T>() ==> forall|p: int, q: int|
                    0 <= p <= q < n && n - i <= q ==> le(arr@[p], arr@[q]),
                // the element at `j` is the largest of the prefix
                total_order::<T>() ==> forall|p: int| 0 <= p <= j ==> le(arr@[p], arr@[j as int]),
                // without an exchange so far, the prefix is in order
                total_order::<T>() && !was_swap ==> forall|p: int, q: int|
                    0 <= p <= q <= j ==> le(arr@[p], arr@[q]),
            decreases n - 1 - i - j,
        {
            proof {
                if total_order::<T>() {
                    lemma_total_order::<T>();
                }
            }
            let ghost before = arr@;
            let out_of_order: bool = arr[j] > arr[j + 1];
            proof {
                if total_order::<T>() {
                    assert(out_of_order == gt(before[j as int], before[j + 1]));
                }
            }
            if out_of_order {
                arr.swap(j, j + 1);
                was_swap = true;
                proof {
                    lemma_swap_permutation(before, j as int, j + 1);
                }
            }
            j += 1;
        }
        proof {
            if total_order::<T>() {
                lemma_total_order::<T>();
            }
        }
        i += 1;
    }
    proof {
        if total_order::<T>() {
            lemma_total_order::<T>();
        }
    }
}

} // verus!
