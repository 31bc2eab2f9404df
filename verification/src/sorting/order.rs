//! The ordering vocabulary shared by the sorting routines: what it means for
//! one element to come no later than another, for a sequence to be sorted, and
//! the facts about a lawful total order that the proofs rely on.

use vstd::prelude::*;
use vstd::std_specs::cmp::PartialOrdSpec;
use vstd::std_specs::cmp::PartialEqSpec;
use vstd::std_specs::cmp::OrdSpec;
use core::cmp::Ordering;

verus! {

/// `a` is strictly before `b`.
pub open spec fn lt<T: Ord>(a: T, b: T) -> bool {
    a.partial_cmp_spec(&b) == Some(Ordering::Less)
}

/// `a` is strictly after `b`.
pub open spec fn gt<T: Ord>(a: T, b: T) -> bool {
    a.partial_cmp_spec(&b) == Some(Ordering::Greater)
}

/// `a` is before `b` or ranks equal to it.
pub open spec fn le<T: Ord>(a: T, b: T) -> bool {
    a.partial_cmp_spec(&b) matches Some(Ordering::Less | Ordering::Equal)
}

/// Every element is before or equal to each element that follows it.
pub open spec fn sorted<T: Ord>(s: Seq<T>) -> bool {
    forall|i: int, j: int| 0 <= i <= j < s.len() ==> le(s[i], s[j])
}

/// `t` holds the same elements as `s`, each as many times.
pub open spec fn permutation<T>(s: Seq<T>, t: Seq<T>) -> bool {
    s.to_multiset() == t.to_multiset()
}

/// `s` with the elements at `i` and `j` exchanged.
pub open spec fn swapped<T>(s: Seq<T>, i: int, j: int) -> Seq<T> {
    s.update(i, s[j]).update(j, s[i])
}

/// The comparison operators of the element type do what their specification
/// says, and that specification is a total order: any two elements are
/// comparable, `le` is transitive, and `lt` and `gt` are its strict forms.
pub open spec fn total_order<T: Ord>() -> bool {
    &&& T::obeys_partial_cmp_spec()
    &&& forall|a: T, b: T| #[trigger] le(a, b) || le(b, a)
    &&& forall|a: T, b: T, c: T| #[trigger] le(a, b) && #[trigger] le(b, c) ==> le(a, c)
    &&& forall|a: T, b: T| #[trigger] gt(a, b) <==> !le(a, b)
    &&& forall|a: T, b: T| #[trigger] lt(a, b) <==> !le(b, a)
}

/// What the sorting proofs take from a total order, with the one fact that
/// follows from the rest: every element is `le` itself.
pub proof fn lemma_total_order<T: Ord>()
    requires
        total_order::<T>(),
    ensures
        T::obeys_partial_cmp_spec(),
        forall|a: T| #[trigger] le(a, a),
        forall|a: T, b: T| #[trigger] gt(a, b) <==> !le(a, b),
        forall|a: T, b: T| #[trigger] lt(a, b) <==> !le(b, a),
        forall|a: T, b: T| #[trigger] le(a, b) || le(b, a),
        forall|a: T, b: T, c: T| #[trigger] le(a, b) && #[trigger] le(b, c) ==> le(a, c),
{
    assert forall|a: T| #[trigger] le(a, a) by {
        assert(le(a, a) || le(a, a));
    }
}

/// A type whose comparisons keep the laws that the standard traits ask for
/// is totally ordered.
pub proof fn lemma_lawful_is_total<T: Ord>()
    requires
        vstd::laws_cmp::obeys_cmp::<T>(),
    ensures
        total_order::<T>(),
{
    reveal(vstd::laws_cmp::obeys_partial_cmp_spec_properties);
    reveal(vstd::laws_cmp::obeys_cmp_partial_ord);
    reveal(vstd::laws_cmp::obeys_cmp_ord);
    reveal(vstd::laws_eq::obeys_eq_spec_properties);
    assert forall|a: T, b: T| #[trigger] lt(a, b) <==> !le(b, a) by {
        let _ = b.partial_cmp_spec(&a);
        let _ = a.cmp_spec(&b);
        let _ = b.cmp_spec(&a);
    }
    assert forall|a: T, b: T| #[trigger] gt(a, b) <==> !le(a, b) by {
        let _ = a.cmp_spec(&b);
    }
    assert forall|a: T, b: T| #[trigger] le(a, b) || le(b, a) by {
        let _ = a.cmp_spec(&b);
        let _ = b.cmp_spec(&a);
        let _ = b.partial_cmp_spec(&a);
    }
    assert forall|a: T, b: T, c: T| #[trigger] le(a, b) && #[trigger] le(b, c) implies le(
        a,
        c,
    ) by {
        let _ = a.cmp_spec(&b);
        let _ = b.cmp_spec(&c);
        let _ = a.cmp_spec(&c);
        let _ = c.cmp_spec(&a);
        let _ = c.partial_cmp_spec(&a);
        let _ = c.partial_cmp_spec(&b);
        let _ = b.partial_cmp_spec(&a);
        let _ = a.eq_spec(&b);
        let _ = b.eq_spec(&c);
        let _ = a.eq_spec(&c);
        let _ = c.eq_spec(&a);
        let _ = c.eq_spec(&b);
        let _ = b.eq_spec(&a);
    }
}

/// The machine integers are totally ordered, so the sorting routines leave
/// every slice of them sorted.
pub proof fn law_integers_are_totally_ordered()
    ensures
        total_order::<u8>(),
        total_order::<u16>(),
        total_order::<u32>(),
        total_order::<u64>(),
        total_order::<u128>(),
        total_order::<usize>(),
        total_order::<i8>(),
        total_order::<i16>(),
        total_order::<i32>(),
        total_order::<i64>(),
        total_order::<i128>(),
        total_order::<isize>(),
{
    broadcast use vstd::laws_cmp::group_laws_cmp;
    lemma_lawful_is_total::<u8>();
    lemma_lawful_is_total::<u16>();
    lemma_lawful_is_total::<u32>();
    lemma_lawful_is_total::<u64>();
    lemma_lawful_is_total::<u128>();
    lemma_lawful_is_total::<usize>();
    lemma_lawful_is_total::<i8>();
    lemma_lawful_is_total::<i16>();
    lemma_lawful_is_total::<i32>();
    lemma_lawful_is_total::<i64>();
    lemma_lawful_is_total::<i128>();
    lemma_lawful_is_total::<isize>();
}

/// Among machine integers `le` is the numeric order, so a sorted slice of
/// them is one whose numbers never decrease.
pub proof fn law_integer_order_is_numeric()
    ensures
        forall|a: u8, b: u8| #[trigger] le(a, b) <==> a <= b,
        forall|a: u16, b: u16| #[trigger] le(a, b) <==> a <= b,
        forall|a: u32, b: u32| #[trigger] le(a, b) <==> a <= b,
        forall|a: u64, b: u64| #[trigger] le(a, b) <==> a <= b,
        forall|a: u128, b: u128| #[trigger] le(a, b) <==> a <= b,
        forall|a: usize, b: usize| #[trigger] le(a, b) <==> a <= b,
        forall|a: i8, b: i8| #[trigger] le(a, b) <==> a <= b,
        forall|a: i16, b: i16| #[trigger] le(a, b) <==> a <= b,
        forall|a: i32, b: i32| #[trigger] le(a, b) <==> a <= b,
        forall|a: i64, b: i64| #[trigger] le(a, b) <==> a <= b,
        forall|a: i128, b: i128| #[trigger] le(a, b) <==> a <= b,
        forall|a: isize, b: isize| #[trigger] le(a, b) <==> a <= b,
{
}

/// Exchanging two elements of a sequence keeps its multiset of elements.
pub proof fn lemma_swap_permutation<T>(s: Seq<T>, i: int, j: int)
    requires
        0 <= i < s.len(),
        0 <= j < s.len(),
    ensures
        permutation(s, swapped(s, i, j)),
{
    broadcast use vstd::seq_lib::to_multiset_update;
    broadcast use vstd::multiset::group_multiset_axioms;
    broadcast use vstd::seq_lib::to_multiset_contains;
    let m = s.to_multiset();
    assert(s.contains(s[i]) && s.contains(s[j]));
    let u = s.update(i, s[j]);
    assert(u.len() == s.len());
    assert(u[j] == s[j]);
    assert(u.to_multiset() == m.insert(s[j]).remove(s[i]));
    assert(u.update(j, s[i]).to_multiset() == u.to_multiset().insert(s[i]).remove(s[j]));
    assert(m.insert(s[j]).remove(s[i]).insert(s[i]).remove(s[j]) =~= m);
}

/// Two sequences with the same elements contain the same values.
pub proof fn lemma_permutation_contains<T>(s: Seq<T>, t: Seq<T>)
    requires
        permutation(s, t),
    ensures
        s.len() == t.len(),
        forall|x: T| s.contains(x) <==> t.contains(x),
{
    broadcast use vstd::seq_lib::to_multiset_contains;
    broadcast use vstd::seq_lib::to_multiset_len;
    assert(s.len() == s.to_multiset().len());
    assert(t.len() == t.to_multiset().len());
    assert forall|x: T| s.contains(x) <==> t.contains(x) by {
        assert(s.contains(x) <==> s.to_multiset().count(x) > 0);
        assert(t.contains(x) <==> t.to_multiset().count(x) > 0);
    }
}

/// Rearranging the two halves of a concatenation rearranges the whole.
pub proof fn lemma_concat_permutation<T>(a: Seq<T>, b: Seq<T>, c: Seq<T>, d: Seq<T>)
    requires
        permutation(a, c),
        permutation(b, d),
    ensures
        permutation(a + b, c + d),
{
    vstd::seq_lib::lemma_multiset_commutative(a, b);
    vstd::seq_lib::lemma_multiset_commutative(c, d);
}

/// Exchange two elements of a slice: `<[T]>::swap`. Both indices must be in
/// bounds, since the standard routine panics otherwise; afterwards the two
/// positions hold each other's former element and every other position is
/// untouched.
pub assume_specification<Item>[ <[Item]>::swap ](slice: &mut [Item], a: usize, b: usize)
    requires
        a < old(slice)@.len(),
        b < old(slice)@.len(),
    ensures
        final(slice)@ == swapped(old(slice)@, a as int, b as int),
;

} // verus!
