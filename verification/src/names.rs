//! Names of a package's artifacts, ordered as dictionaries order words: by
//! the first character in which two names differ, a name coming before every
//! longer name that begins with it.

use vstd::prelude::*;
use vstd::string::StrSliceExecFns;
use core::cmp::Ordering;
use crate::sorting::order::{gt, le, lt, permutation, sorted, total_order};
use crate::sorting::heap_sort::heap_sort;

verus! {

/// How `a` stands to `b` in the order of names: `-1` where `a` comes first,
/// `1` where `b` does, `0` where the two are the same.
pub open spec fn lex_sign(a: Seq<char>, b: Seq<char>) -> int
    decreases a.len(),
{
    if a.len() == 0 {
        if b.len() == 0 {
            0
        } else {
            -1
        }
    } else if b.len() == 0 {
        1
    } else if a.first() < b.first() {
        -1
    } else if a.first() > b.first() {
        1
    } else {
        lex_sign(a.drop_first(), b.drop_first())
    }
}

/// Two texts that agree in their first `k` characters stand to each other as
/// what follows those characters.
pub proof fn lemma_lex_sign_skip(a: Seq<char>, b: Seq<char>, k: int)
    requires
        0 <= k <= a.len(),
        k <= b.len(),
        forall|i: int| 0 <= i < k ==> a[i] == b[i],
    ensures
        lex_sign(a, b) == lex_sign(a.skip(k), b.skip(k)),
    decreases k,
{
    if k == 0 {
        assert(a.skip(0) =~= a);
        assert(b.skip(0) =~= b);
    } else {
        assert(a.first() == b.first());
        let x = a.drop_first();
        let y = b.drop_first();
        assert forall|i: int| 0 <= i < k - 1 implies x[i] == y[i] by {
            assert(x[i] == a[i + 1]);
            assert(y[i] == b[i + 1]);
        }
        lemma_lex_sign_skip(x, y, k - 1);
        assert(x.skip(k - 1) =~= a.skip(k));
        assert(y.skip(k - 1) =~= b.skip(k));
    }
}

/// The order of names is an order: the sign is one of three, it turns round
/// with its arguments, and it is zero exactly between equal texts.
pub proof fn lemma_lex_sign_basics(a: Seq<char>, b: Seq<char>)
    ensures
        -1 <= lex_sign(a, b) <= 1,
        lex_sign(b, a) == -lex_sign(a, b),
        lex_sign(a, b) == 0 <==> a == b,
    decreases a.len(),
{
    if a.len() > 0 && b.len() > 0 {
        lemma_lex_sign_basics(a.drop_first(), b.drop_first());
        if a.first() == b.first() && lex_sign(a, b) == 0 {
            assert(a =~= seq![a.first()] + a.drop_first());
            assert(b =~= seq![b.first()] + b.drop_first());
        }
    } else if a.len() == 0 && b.len() == 0 {
        assert(a =~= b);
    }
}

/// A name that is not after a second, which is not after a third, is not
/// after the third.
pub proof fn lemma_lex_sign_transitive(a: Seq<char>, b: Seq<char>, c: Seq<char>)
    requires
        lex_sign(a, b) <= 0,
        lex_sign(b, c) <= 0,
    ensures
        lex_sign(a, c) <= 0,
    decreases a.len(),
{
    if a.len() > 0 && b.len() > 0 && c.len() > 0 {
        if a.first() == b.first() && b.first() == c.first() {
            lemma_lex_sign_transitive(a.drop_first(), b.drop_first(), c.drop_first());
        }
    }
}

/// How `a` stands to `b` in the order of names.
pub fn compare_texts(a: &str, b: &str) -> (r: i8)
    ensures
        r == lex_sign(a@, b@),
{
    let n: usize = a.unicode_len();
    let m: usize = b.unicode_len();
    let mut i: usize = 0;
    while i < n && i < m
        invariant
            n == a@.len(),
            m == b@.len(),
            i <= n,
            i <= m,
            forall|k: int| 0 <= k < i ==> a@[k] == b@[k],
        decreases n - i,
    {
        let x: char = a.get_char(i);
        let y: char = b.get_char(i);
        if x != y {
            proof {
                lemma_lex_sign_skip(a@, b@, i as int);
                assert(a@.skip(i as int).first() == x);
                assert(b@.skip(i as int).first() == y);
            }
            if x < y {
                return -1;
            } else {
                return 1;
            }
        }
        i += 1;
    }
    proof {
        lemma_lex_sign_skip(a@, b@, i as int);
    }
    if n == m {
        0
    } else if n < m {
        -1
    } else {
        1
    }
}

/// The name of one artifact of a staging package.
#[derive(Debug, Clone, PartialEq, Eq, Ord)]
pub struct ArtifactName {
    pub text: String,
}

impl PartialOrd for ArtifactName {
    fn partial_cmp(&self, other: &Self) -> (r: Option<Ordering>) {
        let sign: i8 = compare_texts(self.text.as_str(), other.text.as_str());
        if sign < 0 {
            Some(Ordering::Less)
        } else if sign == 0 {
            Some(Ordering::Equal)
        } else {
            Some(Ordering::Greater)
        }
    }
}

impl vstd::std_specs::cmp::PartialOrdSpecImpl for ArtifactName {
    open spec fn obeys_partial_cmp_spec() -> bool {
        true
    }

    open spec fn partial_cmp_spec(&self, other: &Self) -> Option<Ordering> {
        let sign = lex_sign(self.text@, other.text@);
        if sign < 0 {
            Some(Ordering::Less)
        } else if sign == 0 {
            Some(Ordering::Equal)
        } else {
            Some(Ordering::Greater)
        }
    }
}

/// Artifact names are totally ordered, and their order is the order of
/// names: one name is `le` another exactly where it is not after it.
pub proof fn law_names_are_totally_ordered()
    ensures
        total_order::<ArtifactName>(),
        forall|a: ArtifactName, b: ArtifactName| #[trigger]
            le(a, b) <==> lex_sign(a.text@, b.text@) <= 0,
{
    assert forall|a: ArtifactName, b: ArtifactName| #[trigger]
        le(a, b) <==> lex_sign(a.text@, b.text@) <= 0 by {
        lemma_lex_sign_basics(a.text@, b.text@);
    }
    assert forall|a: ArtifactName, b: ArtifactName| #[trigger] le(a, b) || le(b, a) by {
        lemma_lex_sign_basics(a.text@, b.text@);
        lemma_lex_sign_basics(b.text@, a.text@);
    }
    assert forall|a: ArtifactName, b: ArtifactName| #[trigger] gt(a, b) <==> !le(a, b) by {
        lemma_lex_sign_basics(a.text@, b.text@);
    }
    assert forall|a: ArtifactName, b: ArtifactName| #[trigger] lt(a, b) <==> !le(b, a) by {
        lemma_lex_sign_basics(a.text@, b.text@);
        lemma_lex_sign_basics(b.text@, a.text@);
    }
    assert forall|a: ArtifactName, b: ArtifactName, c: ArtifactName| #[trigger]
        le(a, b) && #[trigger] le(b, c) implies le(a, c) by {
        lemma_lex_sign_basics(a.text@, b.text@);
        lemma_lex_sign_basics(b.text@, c.text@);
        lemma_lex_sign_basics(a.text@, c.text@);
        lemma_lex_sign_transitive(a.text@, b.text@, c.text@);
    }
}

/// Put the names of a package's artifacts in their upload order: the same
/// names, each as often as before, no name after one that follows it.
pub fn order_artifacts(names: &mut Vec<ArtifactName>)
    ensures
        final(names)@.len() == old(names)@.len(),
        permutation(old(names)@, final(names)@),
        sorted(final(names)@),
        forall|i: int, j: int|
            0 <= i <= j < final(names)@.len() ==> lex_sign(
                final(names)@[i].text@,
                final(names)@[j].text@,
            ) <= 0,
{
    proof {
        law_names_are_totally_ordered();
    }
    heap_sort(names.as_mut_slice());
    proof {
        assert forall|i: int, j: int| 0 <= i <= j < names@.len() implies lex_sign(
            names@[i].text@,
            names@[j].text@,
        ) <= 0 by {
            assert(le(names@[i], names@[j]));
        }
    }
}

} // verus!
