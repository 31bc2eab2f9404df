//! Heap sort over an implicit binary max-heap.

use vstd::prelude::*;
use crate::sorting::order::{le, gt, sorted, permutation, swapped, total_order, lemma_total_order, lemma_swap_permutation, lemma_permutation_contains};

verus! {

/// Within the first `size` positions, neither child of position `k` is
/// greater than the element at `k`.
pub open spec fn node_ok<T: Ord>(s: Seq<T>, k: int, size: int) -> bool {
    &&& 2 * k + 1 < size ==> le(s[2 * k + 1], s[k])
    &&& 2 * k + 2 < size ==> le(s[2 * k + 2], s[k])
}

/// Every position from `lo` up to `size` dominates its children.
pub open spec fn heap_from<T: Ord>(s: Seq<T>, lo: int, size: int) -> bool {
    forall|k: int| lo <= k < size ==> node_ok(s, k, size)
}

/// Position `k` lies in the subtree whose root is `root`: it is the root, or
/// its parent lies in that subtree.
pub open spec fn in_subtree(root: int, k: int) -> bool
    decreases k,
{
    if k <= root || k <= 0 {
        k == root
    } else {
        in_subtree(root, (k - 1) / 2)
    }
}

/// Within the first `size` positions, the subtree whose root is `root` is a
/// max-heap: every position of it dominates its children.
pub open spec fn heap_at<T: Ord>(s: Seq<T>, root: int, size: int) -> bool {
    forall|k: int| 0 <= k < size && #[trigger] in_subtree(root, k) ==> node_ok(s, k, size)
}

/// Every position at or behind `size`, and every position outside the
/// subtree of `i`, holds in `after` what it held in `before`.
pub open spec fn kept_outside<T>(before: Seq<T>, after: Seq<T>, i: int, size: int) -> bool {
    forall|k: int|
        0 <= k < after.len() && (k >= size || !in_subtree(i, k)) ==> #[trigger] after[k]
            == before[k]
}

/// What `after` holds at `i` is what `before` held there or, within the
/// first `size` positions, at one of the children of `i`.
pub open spec fn top_from_family<T>(before: Seq<T>, after: Seq<T>, i: int, size: int) -> bool {
    ||| after[i] == before[i]
    ||| 2 * i + 1 < size && after[i] == before[2 * i + 1]
    ||| 2 * i + 2 < size && after[i] == before[2 * i + 2]
}

/// What lies in the subtree of a child lies in the subtree of its parent,
/// below the parent.
proof fn lemma_subtree_of_child(root: int, k: int)
    requires
        0 <= root,
        in_subtree(2 * root + 1, k) || in_subtree(2 * root + 2, k),
    ensures
        in_subtree(root, k),
        k > root,
    decreases k,
{
    let child = if in_subtree(2 * root + 1, k) {
        2 * root + 1
    } else {
        2 * root + 2
    };
    if k <= child {
        assert((child - 1) / 2 == root);
        assert(in_subtree(root, root));
    } else {
        lemma_subtree_of_child(root, (k - 1) / 2);
    }
}

/// What lies in a subtree and is not its root lies in the subtree of one of
/// the root's children.
proof fn lemma_subtree_splits(root: int, k: int)
    requires
        0 <= root,
        in_subtree(root, k),
        k != root,
    ensures
        in_subtree(2 * root + 1, k) || in_subtree(2 * root + 2, k),
    decreases k,
{
    let parent = (k - 1) / 2;
    if parent != root {
        lemma_subtree_splits(root, parent);
    }
}

/// The subtrees of the two children of a position have nothing in common.
proof fn lemma_subtrees_apart(root: int, k: int)
    requires
        0 <= root,
    ensures
        !(in_subtree(2 * root + 1, k) && in_subtree(2 * root + 2, k)),
    decreases k,
{
    if k > 2 * root + 2 {
        lemma_subtrees_apart(root, (k - 1) / 2);
    } else if k == 2 * root + 2 {
        assert((k - 1) / 2 == root);
        assert(!in_subtree(2 * root + 1, root));
    }
}

/// Every position lies in the subtree of the first.
proof fn lemma_all_below_the_top(k: int)
    requires
        0 <= k,
    ensures
        in_subtree(0, k),
    decreases k,
{
    if k > 0 {
        lemma_all_below_the_top((k - 1) / 2);
    }
}

/// The root of a heap is not less than any element of the heap.
proof fn lemma_root_is_greatest<T: Ord>(s: Seq<T>, size: int, k: int)
    requires
        total_order::<T>(),
        0 <= k < size <= s.len(),
        heap_from(s, 0, size),
    ensures
        le(s[k], s[0]),
    decreases k,
{
    lemma_total_order::<T>();
    if k > 0 {
        let parent = (k - 1) / 2;
        assert(node_ok(s, parent, size));
        assert(2 * parent + 1 == k || 2 * parent + 2 == k);
        lemma_root_is_greatest(s, size, parent);
    }
}

/// Sort `arr` in place: arrange it as a max-heap, then repeatedly move the
/// greatest remaining element behind the shrinking heap.
///
/// The slice always ends as a rearrangement of what it held; when the element
/// type is totally ordered it ends sorted.
pub fn heap_sort<T: Ord>(arr: &mut [T])
    ensures
        final(arr)@.len() == old(arr)@.len(),
        permutation(old(arr)@, final(arr)@),
        total_order::<T>() ==> sorted(final(arr)@),
{
    let size: usize = arr.len();
    proof {
        if total_order::<T>() {
            lemma_total_order::<T>();
        }
    }
    if size <= 1 {
        return;
    }
    let ghost start = arr@;
    let mut i: usize = size / 2;
    while i > 0
        invariant
            size == arr@.len(),
            i <= size / 2,
            permutation(start, arr@),
            total_order::<T>() ==> heap_from(arr@, i as int, size as int),
        decreases i,
    {
        i -= 1;
        let ghost before = arr@;
        proof {
            if total_order::<T>() {
                assert forall|k: int|
                    0 <= k < size && #[trigger] in_subtree(2 * i + 1, k) implies node_ok(
                    before,
                    k,
                    size as int,
                ) by {
                    lemma_subtree_of_child(i as int, k);
                }
                assert forall|k: int|
                    0 <= k < size && #[trigger] in_subtree(2 * i + 2, k) implies node_ok(
                    before,
                    k,
                    size as int,
                ) by {
                    lemma_subtree_of_child(i as int, k);
                }
            }
        }
        heappify(arr, i, size);
        proof {
            if total_order::<T>() {
                let after = arr@;
                assert forall|k: int| i <= k < size implies node_ok(after, k, size as int) by {
                    if !in_subtree(i as int, k) {
                        assert(node_ok(before, k, size as int));
                        assert(!in_subtree(i as int, 2 * k + 1));
                        assert(!in_subtree(i as int, 2 * k + 2));
                    }
                }
            }
        }
    }
    let mut i: usize = size - 1;
    while i > 0
        invariant
            size == arr@.len(),
            i < size,
            permutation(start, arr@),
            total_order::<T>() ==> heap_from(arr@, 0, i + 1),
            // what lies behind the heap is in its final place
            total_order::<T>() ==> forall|p: int, q: int|
                0 <= p <= q < size && i < q ==> le(arr@[p], arr@[q]),
        decreases i,
    {
        let ghost before = arr@;
        proof {
            lemma_swap_permutation(before, i as int, 0);
            if total_order::<T>() {
                lemma_total_order::<T>();
                assert forall|k: int| 0 <= k <= i implies le(#[trigger] before[k], before[0]) by {
                    lemma_root_is_greatest(before, i + 1, k);
                }
            }
        }
        arr.swap(i, 0);
        let ghost mid = arr@;
        proof {
            if total_order::<T>() {
                assert forall|k: int| 0 <= k < i && #[trigger] in_subtree(1, k) implies node_ok(
                    mid,
                    k,
                    i as int,
                ) by {
                    lemma_subtree_of_child(0, k);
                    assert(node_ok(before, k, i + 1));
                }
                assert forall|k: int| 0 <= k < i && #[trigger] in_subtree(2, k) implies node_ok(
                    mid,
                    k,
                    i as int,
                ) by {
                    lemma_subtree_of_child(0, k);
                    assert(node_ok(before, k, i + 1));
                }
            }
        }
        heappify(arr, 0, i);
        proof {
            if total_order::<T>() {
                let after = arr@;
                assert forall|k: int| 0 <= k < i implies node_ok(after, k, i as int) by {
                    lemma_all_below_the_top(k);
                }
                lemma_permutation_contains(mid.subrange(0, i as int), after.subrange(0, i as int));
                assert forall|p: int, q: int| 0 <= p <= q < size && i - 1 < q implies le(
                    after[p],
                    after[q],
                ) by {
                    assert(after[q] == mid[q]);
                    if p >= i {
                        assert(after[p] == mid[p]);
                    } else {
                        let head = after.subrange(0, i as int);
                        assert(head[p] == after[p]);
                        assert(head.contains(after[p]));
                        let w = choose|w: int|
                            0 <= w < i && mid.subrange(0, i as int)[w] == after[p];
                        assert(mid[w] == after[p]);
                    }
                }
            }
        }
        i -= 1;
    }
}

/// Sift the element at `i` down until it dominates its children, looking only
/// at the first `size` positions. Given that the subtrees of the two children
/// of `i` are max-heaps, the subtree of `i` is one afterwards. Only positions
/// of that subtree change, and what ends up at `i` is what was there or at
/// one of its children.
fn heappify<T: Ord>(arr: &mut [T], i: usize, size: usize)
    requires
        i < size <= old(arr)@.len(),
        total_order::<T>() ==> heap_at(old(arr)@, 2 * i + 1, size as int),
        total_order::<T>() ==> heap_at(old(arr)@, 2 * i + 2, size as int),
    ensures
        final(arr)@.len() == old(arr)@.len(),
        permutation(old(arr)@, final(arr)@),
        permutation(old(arr)@.subrange(0, size as int), final(arr)@.subrange(0, size as int)),
        kept_outside(old(arr)@, final(arr)@, i as int, size as int),
        top_from_family(old(arr)@, final(arr)@, i as int, size as int),
        total_order::<T>() ==> heap_at(final(arr)@, i as int, size as int),
    decreases size - i,
{
    proof {
        if total_order::<T>() {
            lemma_total_order::<T>();
        }
    }
    let ghost before = arr@;
    if i >= size / 2 {
        proof {
            assert forall|k: int|
                0 <= k < size && #[trigger] in_subtree(i as int, k) implies node_ok(
                before,
                k,
                size as int,
            ) by {
                if k != i {
                    lemma_subtree_splits(i as int, k);
                }
            }
        }
        return;
    }
    let mut largest: usize = i;
    let left: usize = 2 * i + 1;
    let right: usize = 2 * i + 2;

    let left_greater: bool = arr[left] > arr[largest];
    proof {
        if total_order::<T>() {
            assert(left_greater == gt(before[left as int], before[i as int]));
        }
    }
    if left_greater {
        largest = left;
    }
    if right < size {
        let right_greater: bool = arr[right] > arr[largest];
        proof {
            if total_order::<T>() {
                assert(right_greater == gt(before[right as int], before[largest as int]));
            }
        }
        if right_greater {
            largest = right;
        }
    }
    if largest != i {
        proof {
            lemma_swap_permutation(before, i as int, largest as int);
            lemma_swap_permutation(before.subrange(0, size as int), i as int, largest as int);
            assert(swapped(before, i as int, largest as int).subrange(0, size as int) =~= swapped(
                before.subrange(0, size as int),
                i as int,
                largest as int,
            ));
        }
        arr.swap(i, largest);
        let ghost mid = arr@;
        proof {
            if total_order::<T>() {
                assert(heap_at(before, largest as int, size as int));
                assert forall|k: int|
                    0 <= k < size && #[trigger] in_subtree(2 * largest + 1, k) implies node_ok(
                    mid,
                    k,
                    size as int,
                ) by {
                    lemma_subtree_of_child(largest as int, k);
                    assert(node_ok(before, k, size as int));
                }
                assert forall|k: int|
                    0 <= k < size && #[trigger] in_subtree(2 * largest + 2, k) implies node_ok(
                    mid,
                    k,
                    size as int,
                ) by {
                    lemma_subtree_of_child(largest as int, k);
                    assert(node_ok(before, k, size as int));
                }
            }
        }
        heappify(arr, largest, size);
        proof {
            let after = arr@;
            assert((largest - 1) / 2 == i);
            assert(in_subtree(i as int, i as int));
            assert(in_subtree(i as int, largest as int));
            assert(!in_subtree(largest as int, i as int));
            assert forall|k: int|
                0 <= k < after.len() && (k >= size || !in_subtree(i as int, k)) implies #[trigger] after[k]
                == before[k] by {
                if in_subtree(largest as int, k) {
                    lemma_subtree_of_child(i as int, k);
                }
            }
            if total_order::<T>() {
                let other: int = if largest == left {
                    right as int
                } else {
                    left as int
                };
                assert(in_subtree(other, other));
                lemma_subtrees_apart(i as int, other);
                assert(!in_subtree(largest as int, other));
                assert(in_subtree(largest as int, largest as int));
                assert(node_ok(before, largest as int, size as int));
                assert(le(before[i as int], before[largest as int]));
                if other < size {
                    assert(mid[other] == before[other]);
                    assert(after[other] == mid[other]);
                    assert(le(before[other], before[largest as int]));
                }
                assert(node_ok(after, i as int, size as int));
                assert forall|k: int|
                    0 <= k < size && #[trigger] in_subtree(i as int, k) implies node_ok(
                    after,
                    k,
                    size as int,
                ) by {
                    if k != i && !in_subtree(largest as int, k) {
                        lemma_subtree_splits(i as int, k);
                        assert(in_subtree(other, k));
                        assert(node_ok(before, k, size as int));
                        assert(in_subtree(other, 2 * k + 1));
                        assert(in_subtree(other, 2 * k + 2));
                        lemma_subtrees_apart(i as int, 2 * k + 1);
                        lemma_subtrees_apart(i as int, 2 * k + 2);
                        lemma_subtree_of_child(i as int, k);
                    }
                }
            }
        }
    } else {
        proof {
            if total_order::<T>() {
                assert forall|k: int|
                    0 <= k < size && #[trigger] in_subtree(i as int, k) implies node_ok(
                    before,
                    k,
                    size as int,
                ) by {
                    if k != i {
                        lemma_subtree_splits(i as int, k);
                    }
                }
            }
        }
    }
}

} // verus!
