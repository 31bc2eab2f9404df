//! Quick sort with the last element as pivot.

use vstd::prelude::*;
use crate::sorting::order::{le, lt, sorted, permutation, total_order, lemma_total_order, lemma_swap_permutation, lemma_permutation_contains, lemma_concat_permutation};

verus! {

/// Sort `arr` in place: split it around a pivot, then sort the part before the
/// pivot and the part after it.
///
/// The slice always ends as a rearrangement of what it held; when the element
/// type is totally ordered it ends sorted.
pub fn quick_sort<T: Ord>(arr: &mut [T])
    ensures
        final(arr)@.len() == old(arr)@.len(),
        permutation(old(arr)@, final(arr)@),
        total_order::<T>() ==> sorted(final(arr)@),
    decreases old(arr)@.len(),
{
    proof {
        if total_order::<T>() {
            lemma_total_order::<T>();
        }
    }
    if arr.len() <= 1 {
        return;
    }
    let ghost start = arr@;
    let p: usize = partition(arr);
    let ghost split = arr@;
    let (left, right) = arr.split_at_mut(p);
    let ghost left_before = left@;
    let ghost right_before = right@;
    quick_sort(left);
    let (pivot, rest) = right.split_at_mut(1);
    let ghost pivot_before = pivot@;
    let ghost rest_before = rest@;
    quick_sort(rest);
    proof {
        let l = left@;
        let m = pivot@;
        let r = rest@;
        assert(m =~= pivot_before);
        assert(right_before =~= pivot_before + rest_before);
        assert(split =~= left_before + (pivot_before + rest_before));
        lemma_concat_permutation(pivot_before, rest_before, m, r);
        lemma_concat_permutation(left_before, pivot_before + rest_before, l, m + r);
        assert(arr@ =~= l + (m + r));
        if total_order::<T>() {
            let x = split[p as int];
            lemma_permutation_contains(left_before, l);
            lemma_permutation_contains(rest_before, r);
            assert forall|k: int| 0 <= k < l.len() implies lt(#[trigger] l[k], x) by {
                assert(l.contains(l[k]));
                let w = choose|w: int| 0 <= w < left_before.len() && left_before[w] == l[k];
                assert(left_before[w] == split[w]);
            }
            assert forall|k: int| 0 <= k < r.len() implies le(x, #[trigger] r[k]) by {
                assert(r.contains(r[k]));
                let w = choose|w: int| 0 <= w < rest_before.len() && rest_before[w] == r[k];
                assert(rest_before[w] == split[p + 1 + w]);
            }
            let s = arr@;
            assert forall|i: int, j: int| 0 <= i <= j < s.len() implies le(s[i], s[j]) by {
                if j < p {
                    assert(s[i] == l[i] && s[j] == l[j]);
                } else if i > p {
                    assert(s[i] == r[i - p - 1] && s[j] == r[j - p - 1]);
                } else if i == p {
                    assert(s[i] == x);
                    if j > p {
                        assert(s[j] == r[j - p - 1]);
                    }
                } else {
                    assert(s[i] == l[i]);
                    assert(lt(l[i], x));
                    if j > p {
                        assert(s[j] == r[j - p - 1]);
                        assert(le(x, r[j - p - 1]));
                    } else {
                        assert(s[j] == x);
                    }
                }
            }
        }
    }
}

/// Rearrange `arr` around its last element, the pivot, and return the pivot's
/// new position: under a total order every element before that position is
/// strictly less than the pivot and none after it is.
fn partition<T: Ord>(arr: &mut [T]) -> (score: usize)
    requires
        old(arr)@.len() >= 1,
    ensures
        score < old(arr)@.len(),
        final(arr)@.len() == old(arr)@.len(),
        permutation(old(arr)@, final(arr)@),
        final(arr)@[score as int] == old(arr)@[old(arr)@.len() - 1],
        total_order::<T>() ==> forall|k: int|
            0 <= k < score ==> lt(#[trigger] final(arr)@[k], final(arr)@[score as int]),
        total_order::<T>() ==> forall|k: int|
            score < k < final(arr)@.len() ==> le(final(arr)@[score as int], #[trigger] final(arr)@[k]),
{
    let pivot_index: usize = arr.len() - 1;
    let ghost start = arr@;
    let mut score: usize = 0;
    let mut i: usize = 0;
    while i < pivot_index
        invariant
            arr@.len() == start.len(),
            pivot_index == start.len() - 1,
            score <= i <= pivot_index,
            permutation(start, arr@),
            arr@[pivot_index as int] == start[pivot_index as int],
            total_order::<T>() ==> forall|k: int|
                0 <= k < score ==> lt(#[trigger] arr@[k], arr@[pivot_index as int]),
            total_order::<T>() ==> forall|k: int|
                score <= k < i ==> le(arr@[pivot_index as int], #[trigger] arr@[k]),
        decreases pivot_index - i,
    {
        proof {
            if total_order::<T>() {
                lemma_total_order::<T>();
            }
        }
        let below: bool = arr[i] < arr[pivot_index];
        proof {
            if total_order::<T>() {
                assert(below == lt(arr@[i as int], arr@[pivot_index as int]));
            }
        }
        if below {
            proof {
                lemma_swap_permutation(arr@, i as int, score as int);
            }
            arr.swap(i, score);
            score += 1;
        }
        i += 1;
    }
    proof {
        lemma_swap_permutation(arr@, pivot_index as int, score as int);
    }
    arr.swap(pivot_index, score);
    score
}

} // verus!
