//! Field-by-field partial ordering of compound sizes.
//!
//! A compound value (a vector of two sizes, a box of four) is compared by its
//! fields in declaration order: the first field that is not equal decides, and
//! a field that is incomparable makes the whole incomparable, unless an earlier
//! field has already decided.

use core::cmp::Ordering;
use vstd::prelude::*;

verus! {

/// The outcome of comparing by `first`, then, where `first` finds equality,
/// by `rest`.
pub open spec fn chained(first: Option<Ordering>, rest: Option<Ordering>) -> Option<Ordering> {
    if first == Some(Ordering::Equal) {
        rest
    } else {
        first
    }
}

/// The outcome of comparing field by field, given the outcome for each field
/// in order. Values with no fields compare as equal.
pub open spec fn lexicographic(parts: Seq<Option<Ordering>>) -> Option<Ordering>
    decreases parts.len(),
{
    if parts.len() == 0 {
        Some(Ordering::Equal)
    } else {
        chained(parts[0], lexicographic(parts.drop_first()))
    }
}

/// Combines the outcomes of comparing each field, in field order, into the
/// outcome for the whole value.
pub fn lexicographic_cmp(parts: &[Option<Ordering>]) -> (r: Option<Ordering>)
    ensures
        r == lexicographic(parts@),
{
    let n = parts.len();
    let mut i: usize = 0;
    assert(parts@.subrange(0, n as int) =~= parts@);
    while i < n
        invariant
            n == parts@.len(),
            i <= n,
            forall|j: int| 0 <= j < i ==> parts@[j] == Some(Ordering::Equal),
            lexicographic(parts@) == lexicographic(parts@.subrange(i as int, n as int)),
        decreases n - i,
    {
        let ghost rest = parts@.subrange(i as int, n as int);
        assert(rest.drop_first() =~= parts@.subrange(i + 1, n as int));
        match parts[i] {
            Some(Ordering::Equal) => {},
            other => {
                return other;
            },
        }
        i = i + 1;
    }
    assert(parts@.subrange(n as int, n as int) =~= Seq::<Option<Ordering>>::empty());
    Some(Ordering::Equal)
}

/// The first field whose comparison does not find equality decides the
/// comparison of the whole value, be it less, greater or incomparable.
pub proof fn lemma_first_difference_decides(parts: Seq<Option<Ordering>>, k: int)
    requires
        0 <= k < parts.len(),
        forall|j: int| 0 <= j < k ==> parts[j] == Some(Ordering::Equal),
        parts[k] != Some(Ordering::Equal),
    ensures
        lexicographic(parts) == parts[k],
    decreases k,
{
    if k > 0 {
        lemma_first_difference_decides(parts.drop_first(), k - 1);
    }
}

/// A value compares as equal to another exactly when every field does.
pub proof fn lemma_equal_iff_fields_equal(parts: Seq<Option<Ordering>>)
    ensures
        lexicographic(parts) == Some(Ordering::Equal) <==> forall|j: int|
            0 <= j < parts.len() ==> parts[j] == Some(Ordering::Equal),
    decreases parts.len(),
{
    if parts.len() > 0 {
        lemma_equal_iff_fields_equal(parts.drop_first());
        if lexicographic(parts) == Some(Ordering::Equal) {
            assert forall|j: int| 0 <= j < parts.len() implies parts[j] == Some(
                Ordering::Equal,
            ) by {
                if j > 0 {
                    assert(parts[j] == parts.drop_first()[j - 1]);
                }
            }
        }
        if forall|j: int| 0 <= j < parts.len() ==> parts[j] == Some(Ordering::Equal) {
            assert forall|j: int| 0 <= j < parts.drop_first().len() implies parts.drop_first()[j]
                == Some(Ordering::Equal) by {
                assert(parts.drop_first()[j] == parts[j + 1]);
            }
        }
    }
}

} // verus!
