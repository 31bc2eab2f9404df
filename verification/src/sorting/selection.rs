//! Selection sort.

use vstd::prelude::*;
use crate::sorting::order::{le, lt, sorted, permutation, total_order, lemma_total_order, lemma_swap_permutation};

verus! {

/// Sort `arr` in place by moving, for each position in turn, the least of the
/// remaining elements into it.
///
/// The slice always ends as a rearrangement of what it held; when the element
/// type is totally ordered it ends sorted.
pub fn selection_sort<T: Ord>(arr: &mut [T])
    ensures
        final(arr)@.len() == old(arr)@.len(),
        permutation(old(arr)@, final(arr)@),
        total_order::<T>() ==> sorted(final(arr)@),
{
    let n: usize = arr.len();
    proof {
        if total_order::<T>() {
            lemma_total_order::<T>();
        }
    }
    if n < 2 {
        return;
    }
    let ghost start = arr@;
    let mut i: usize = 0;
    while i < n - 1
        invariant
            n == arr@.len(),
            n >= 2,
            i <= n - 1,
            permutation(start, arr@),
            // the first `i` positions hold their final elements
            total_order::<T>() ==> forall|p: int, q: int|
                0 <= p <= q < n && p < i ==> le(arr@[p], arr@[q]),
        decreases n - i,
    {
        proof {
            if total_order::<T>() {
                lemma_total_order::<T>();
            }
        }
        let mut min_index: usize = i;
        let mut j: usize = i + 1;
        while j < n
            invariant
                n == arr@.len(),
                i <= min_index < j <= n,
                total_order::<T>() ==> forall|p: int|
                    i <= p < j ==> le(arr@[min_index as int], arr@[p]),
            decreases n - j,
        {
            proof {
                if total_order::<T>() {
                    lemma_total_order::<T>();
                }
            }
            let smaller: bool = arr[j] < arr[min_index];
            proof {
                if total_order::<T>() {
                    assert(smaller == lt(arr@[j as int], arr@[min_index as int]));
                }
            }
            if smaller {
                min_index = j;
            }
            j += 1;
        }
        if min_index != i {
            proof {
                lemma_swap_permutation(arr@, min_index as int, i as int);
            }
            arr.swap(min_index, i);
        }
        i += 1;
    }
}

} // verus!
