//! Lexicographic ordering of slices.

use vstd::prelude::*;

use std::cmp::Ordering;
use vstd::std_specs::cmp::PartialOrdSpec;

use super::Iter;
use super::slice::{Slice, SliceMut};

verus! {

/// How `a` compares to `b` item by item: the first pair of items that does
/// not compare equal decides; where one runs out first, it is the lesser.
pub open spec fn lexicographic<A: PartialOrd>(a: Seq<A>, b: Seq<A>) -> Option<Ordering>
    decreases a.len(),
{
    if a.len() == 0 {
        if b.len() == 0 {
            Some(Ordering::Equal)
        } else {
            Some(Ordering::Less)
        }
    } else if b.len() == 0 {
        Some(Ordering::Greater)
    } else {
        match a[0].partial_cmp_spec(&b[0]) {
            Some(Ordering::Equal) => lexicographic(a.drop_first(), b.drop_first()),
            decided => decided,
        }
    }
}

/// A sequence whose items each compare equal to themselves compares equal
/// to itself.
pub proof fn lexicographic_reflexive<A: PartialOrd>(a: Seq<A>)
    requires
        forall|i: int| 0 <= i < a.len() ==> #[trigger] a[i].partial_cmp_spec(&a[i]) == Some(Ordering::Equal),
    ensures
        lexicographic(a, a) == Some(Ordering::Equal),
    decreases a.len(),
{
    if a.len() > 0 {
        assert(a[0].partial_cmp_spec(&a[0]) == Some(Ordering::Equal));
        assert forall|i: int| 0 <= i < a.drop_first().len() implies #[trigger] a.drop_first()[i].partial_cmp_spec(
            &a.drop_first()[i],
        ) == Some(Ordering::Equal) by {
            assert(a.drop_first()[i] == a[i + 1]);
        }
        lexicographic_reflexive(a.drop_first());
    }
}

/// A proper prefix of a sequence, whose items each compare equal to
/// themselves, is less than the sequence.
pub proof fn proper_prefix_is_less<A: PartialOrd>(a: Seq<A>, k: int)
    requires
        0 <= k < a.len(),
        forall|i: int| 0 <= i < a.len() ==> #[trigger] a[i].partial_cmp_spec(&a[i]) == Some(Ordering::Equal),
    ensures
        lexicographic(a.subrange(0, k), a) == Some(Ordering::Less),
    decreases k,
{
    if k > 0 {
        let p = a.subrange(0, k);
        assert(p[0] == a[0]);
        assert(a[0].partial_cmp_spec(&a[0]) == Some(Ordering::Equal));
        let rest = a.drop_first();
        assert forall|i: int| 0 <= i < rest.len() implies #[trigger] rest[i].partial_cmp_spec(&rest[i]) == Some(
            Ordering::Equal,
        ) by {
            assert(rest[i] == a[i + 1]);
        }
        proper_prefix_is_less(rest, k - 1);
        assert(p.drop_first() =~= rest.subrange(0, k - 1));
    }
}

/// The first pair of items that does not compare equal decides the order,
/// whatever the lengths: if `a` and `b` compare equal at every position
/// before `k`, and not at `k`, they compare as `a[k]` compares to `b[k]`.
pub proof fn lexicographic_first_difference<A: PartialOrd>(a: Seq<A>, b: Seq<A>, k: int)
    requires
        0 <= k < a.len(),
        k < b.len(),
        forall|i: int| 0 <= i < k ==> #[trigger] a[i].partial_cmp_spec(&b[i]) == Some(Ordering::Equal),
        a[k].partial_cmp_spec(&b[k]) != Some(Ordering::Equal),
    ensures
        lexicographic(a, b) == a[k].partial_cmp_spec(&b[k]),
    decreases k,
{
    if k > 0 {
        assert(a[0].partial_cmp_spec(&b[0]) == Some(Ordering::Equal));
        let a1 = a.drop_first();
        let b1 = b.drop_first();
        assert forall|i: int| 0 <= i < k - 1 implies #[trigger] a1[i].partial_cmp_spec(&b1[i]) == Some(Ordering::Equal) by {
            assert(a1[i] == a[i + 1] && b1[i] == b[i + 1]);
        }
        assert(a1[k - 1] == a[k] && b1[k - 1] == b[k]);
        lexicographic_first_difference(a1, b1, k - 1);
    }
}

/// Where every pair of items that both sequences have compares equal, the
/// lengths decide: the shorter sequence is the lesser, and sequences of
/// the same length compare equal.
pub proof fn lexicographic_common_prefix<A: PartialOrd>(a: Seq<A>, b: Seq<A>)
    requires
        forall|i: int| 0 <= i < a.len() && i < b.len() ==> #[trigger] a[i].partial_cmp_spec(&b[i]) == Some(Ordering::Equal),
    ensures
        lexicographic(a, b) == (if a.len() < b.len() {
            Some(Ordering::Less)
        } else if a.len() > b.len() {
            Some(Ordering::Greater)
        } else {
            Some(Ordering::Equal)
        }),
    decreases a.len(),
{
    if a.len() > 0 && b.len() > 0 {
        assert(a[0].partial_cmp_spec(&b[0]) == Some(Ordering::Equal));
        let a1 = a.drop_first();
        let b1 = b.drop_first();
        assert forall|i: int| 0 <= i < a1.len() && i < b1.len() implies #[trigger] a1[i].partial_cmp_spec(&b1[i]) == Some(Ordering::Equal) by {
            assert(a1[i] == a[i + 1] && b1[i] == b[i + 1]);
        }
        lexicographic_common_prefix(a1, b1);
    }
}

/// Both laws above, for every `k`, in the form that the contracts of the
/// comparisons use.
proof fn lexicographic_laws<A: PartialOrd>(a: Seq<A>, b: Seq<A>, r: Option<Ordering>)
    requires
        r == lexicographic(a, b),
    ensures
        forall|k: int|
            #![trigger a[k].partial_cmp_spec(&b[k])]
            0 <= k < a.len() && k < b.len()
                && (forall|i: int| 0 <= i < k ==> #[trigger] a[i].partial_cmp_spec(&b[i]) == Some(Ordering::Equal))
                && a[k].partial_cmp_spec(&b[k]) != Some(Ordering::Equal)
                ==> r == a[k].partial_cmp_spec(&b[k]),
        (forall|i: int| 0 <= i < a.len() && i < b.len() ==> #[trigger] a[i].partial_cmp_spec(&b[i]) == Some(Ordering::Equal))
            ==> r == (if a.len() < b.len() {
                Some(Ordering::Less)
            } else if a.len() > b.len() {
                Some(Ordering::Greater)
            } else {
                Some(Ordering::Equal)
            }),
{
    assert forall|k: int|
        #![trigger a[k].partial_cmp_spec(&b[k])]
        0 <= k < a.len() && k < b.len()
            && (forall|i: int| 0 <= i < k ==> #[trigger] a[i].partial_cmp_spec(&b[i]) == Some(Ordering::Equal))
            && a[k].partial_cmp_spec(&b[k]) != Some(Ordering::Equal)
        implies r == a[k].partial_cmp_spec(&b[k]) by {
        lexicographic_first_difference(a, b, k);
    }
    if forall|i: int| 0 <= i < a.len() && i < b.len() ==> #[trigger] a[i].partial_cmp_spec(&b[i]) == Some(Ordering::Equal) {
        lexicographic_common_prefix(a, b);
    }
}

/// Walks both iterators to the first pair of items that does not compare
/// equal, or to the end of either.
fn iter_order<'x, 'y, A: PartialOrd, const N: usize>(a: &mut Iter<'x, A, N>, b: &mut Iter<'y, A, N>) -> (r: Option<Ordering>)
    ensures
        A::obeys_partial_cmp_spec() ==> r == lexicographic(old(a)@, old(b)@),
        old(a)@.len() == 0 && old(b)@.len() == 0 ==> r == Some(Ordering::Equal),
        old(a)@.len() == 0 && old(b)@.len() > 0 ==> r == Some(Ordering::Less),
        old(a)@.len() > 0 && old(b)@.len() == 0 ==> r == Some(Ordering::Greater),
        A::obeys_partial_cmp_spec() ==> forall|k: int|
            #![trigger old(a)@[k].partial_cmp_spec(&old(b)@[k])]
            0 <= k < old(a)@.len() && k < old(b)@.len()
                && (forall|i: int| 0 <= i < k ==> #[trigger] old(a)@[i].partial_cmp_spec(&old(b)@[i]) == Some(Ordering::Equal))
                && old(a)@[k].partial_cmp_spec(&old(b)@[k]) != Some(Ordering::Equal)
                ==> r == old(a)@[k].partial_cmp_spec(&old(b)@[k]),
        A::obeys_partial_cmp_spec()
            && (forall|i: int| 0 <= i < old(a)@.len() && i < old(b)@.len() ==> #[trigger] old(a)@[i].partial_cmp_spec(&old(b)@[i]) == Some(Ordering::Equal))
            ==> r == (if old(a)@.len() < old(b)@.len() {
                Some(Ordering::Less)
            } else if old(a)@.len() > old(b)@.len() {
                Some(Ordering::Greater)
            } else {
                Some(Ordering::Equal)
            }),
{
    let ghost a0 = old(a)@;
    let ghost b0 = old(b)@;
    let r = iter_order_walk(a, b);
    proof {
        if A::obeys_partial_cmp_spec() {
            lexicographic_laws(a0, b0, r);
        }
    }
    r
}

/// The walk itself: the item-by-item comparison, to the first pair that
/// does not compare equal.
fn iter_order_walk<'x, 'y, A: PartialOrd, const N: usize>(a: &mut Iter<'x, A, N>, b: &mut Iter<'y, A, N>) -> (r: Option<Ordering>)
    ensures
        A::obeys_partial_cmp_spec() ==> r == lexicographic(old(a)@, old(b)@),
        old(a)@.len() == 0 && old(b)@.len() == 0 ==> r == Some(Ordering::Equal),
        old(a)@.len() == 0 && old(b)@.len() > 0 ==> r == Some(Ordering::Less),
        old(a)@.len() > 0 && old(b)@.len() == 0 ==> r == Some(Ordering::Greater),
{
    loop
        invariant
            old(a)@.len() == 0 || old(b)@.len() == 0 ==> a@ == old(a)@ && b@ == old(b)@,
            A::obeys_partial_cmp_spec() ==> lexicographic(old(a)@, old(b)@) == lexicographic(a@, b@),
        decreases a@.len(),
    {
        let ghost ai = a@;
        let ghost bi = b@;
        let x = a.next();
        let y = b.next();
        match (x, y) {
            (None, None) => {
                return Some(Ordering::Equal);
            },
            (None, Some(_)) => {
                return Some(Ordering::Less);
            },
            (Some(_), None) => {
                return Some(Ordering::Greater);
            },
            (Some(x), Some(y)) => {
                match x.partial_cmp(y) {
                    Some(Ordering::Equal) => {},
                    decided => {
                        return decided;
                    },
                }
            },
        }
    }
}

impl<'a, A: PartialOrd, const N: usize> PartialOrd for Slice<'a, A, N> {
    fn partial_cmp(&self, other: &Self) -> (r: Option<Ordering>)
        ensures
            self@.len() == 0 && other@.len() == 0 ==> r == Some(Ordering::Equal),
            self@.len() == 0 && other@.len() > 0 ==> r == Some(Ordering::Less),
            self@.len() > 0 && other@.len() == 0 ==> r == Some(Ordering::Greater),
            A::obeys_partial_cmp_spec() ==> forall|k: int|
                #![trigger self@[k].partial_cmp_spec(&other@[k])]
                0 <= k < self@.len() && k < other@.len()
                    && (forall|i: int| 0 <= i < k ==> #[trigger] self@[i].partial_cmp_spec(&other@[i]) == Some(Ordering::Equal))
                    && self@[k].partial_cmp_spec(&other@[k]) != Some(Ordering::Equal)
                    ==> r == self@[k].partial_cmp_spec(&other@[k]),
            A::obeys_partial_cmp_spec()
                && (forall|i: int| 0 <= i < self@.len() && i < other@.len() ==> #[trigger] self@[i].partial_cmp_spec(&other@[i]) == Some(Ordering::Equal))
                ==> r == (if self@.len() < other@.len() {
                    Some(Ordering::Less)
                } else if self@.len() > other@.len() {
                    Some(Ordering::Greater)
                } else {
                    Some(Ordering::Equal)
                }),
    {
        iter_order(&mut self.iter(), &mut other.iter())
    }
}

impl<'a, A: PartialOrd, const N: usize> vstd::std_specs::cmp::PartialOrdSpecImpl for Slice<'a, A, N> {
    open spec fn obeys_partial_cmp_spec() -> bool {
        A::obeys_partial_cmp_spec()
    }

    open spec fn partial_cmp_spec(&self, other: &Self) -> Option<Ordering> {
        lexicographic(self@, other@)
    }
}

impl<'a, A: PartialOrd, const N: usize> PartialOrd for SliceMut<'a, A, N> {
    fn partial_cmp(&self, other: &Self) -> (r: Option<Ordering>)
        ensures
            self@.len() == 0 && other@.len() == 0 ==> r == Some(Ordering::Equal),
            self@.len() == 0 && other@.len() > 0 ==> r == Some(Ordering::Less),
            self@.len() > 0 && other@.len() == 0 ==> r == Some(Ordering::Greater),
            A::obeys_partial_cmp_spec() ==> forall|k: int|
                #![trigger self@[k].partial_cmp_spec(&other@[k])]
                0 <= k < self@.len() && k < other@.len()
                    && (forall|i: int| 0 <= i < k ==> #[trigger] self@[i].partial_cmp_spec(&other@[i]) == Some(Ordering::Equal))
                    && self@[k].partial_cmp_spec(&other@[k]) != Some(Ordering::Equal)
                    ==> r == self@[k].partial_cmp_spec(&other@[k]),
            A::obeys_partial_cmp_spec()
                && (forall|i: int| 0 <= i < self@.len() && i < other@.len() ==> #[trigger] self@[i].partial_cmp_spec(&other@[i]) == Some(Ordering::Equal))
                ==> r == (if self@.len() < other@.len() {
                    Some(Ordering::Less)
                } else if self@.len() > other@.len() {
                    Some(Ordering::Greater)
                } else {
                    Some(Ordering::Equal)
                }),
    {
        iter_order(&mut self.iter(), &mut other.iter())
    }
}

impl<'a, A: PartialOrd, const N: usize> vstd::std_specs::cmp::PartialOrdSpecImpl for SliceMut<'a, A, N> {
    open spec fn obeys_partial_cmp_spec() -> bool {
        A::obeys_partial_cmp_spec()
    }

    open spec fn partial_cmp_spec(&self, other: &Self) -> Option<Ordering> {
        lexicographic(self@, other@)
    }
}

/// Two slices compare as their first pair of items that does not compare
/// equal, whatever their lengths.
pub proof fn slice_order_first_difference<'a, 'b, A: PartialOrd, const N: usize>(s: Slice<'a, A, N>, t: Slice<'b, A, N>, k: int)
    requires
        0 <= k < s@.len(),
        k < t@.len(),
        forall|i: int| 0 <= i < k ==> #[trigger] s@[i].partial_cmp_spec(&t@[i]) == Some(Ordering::Equal),
        s@[k].partial_cmp_spec(&t@[k]) != Some(Ordering::Equal),
    ensures
        s.partial_cmp_spec(&t) == s@[k].partial_cmp_spec(&t@[k]),
{
    lexicographic_first_difference(s@, t@, k);
}

/// Two slices whose shared positions all compare equal compare by length:
/// the shorter one is the lesser, and of equal length they are equal.
pub proof fn slice_order_common_prefix<'a, 'b, A: PartialOrd, const N: usize>(s: Slice<'a, A, N>, t: Slice<'b, A, N>)
    requires
        forall|i: int| 0 <= i < s@.len() && i < t@.len() ==> #[trigger] s@[i].partial_cmp_spec(&t@[i]) == Some(Ordering::Equal),
    ensures
        s.partial_cmp_spec(&t) == (if s@.len() < t@.len() {
            Some(Ordering::Less)
        } else if s@.len() > t@.len() {
            Some(Ordering::Greater)
        } else {
            Some(Ordering::Equal)
        }),
{
    lexicographic_common_prefix(s@, t@);
}

/// Two mutable slices compare as their first pair of items that does not compare
/// equal, whatever their lengths.
pub proof fn slice_mut_order_first_difference<'a, 'b, A: PartialOrd, const N: usize>(s: SliceMut<'a, A, N>, t: SliceMut<'b, A, N>, k: int)
    requires
        0 <= k < s@.len(),
        k < t@.len(),
        forall|i: int| 0 <= i < k ==> #[trigger] s@[i].partial_cmp_spec(&t@[i]) == Some(Ordering::Equal),
        s@[k].partial_cmp_spec(&t@[k]) != Some(Ordering::Equal),
    ensures
        s.partial_cmp_spec(&t) == s@[k].partial_cmp_spec(&t@[k]),
{
    lexicographic_first_difference(s@, t@, k);
}

/// Two mutable slices whose shared positions all compare equal compare by length:
/// the shorter one is the lesser, and of equal length they are equal.
pub proof fn slice_mut_order_common_prefix<'a, 'b, A: PartialOrd, const N: usize>(s: SliceMut<'a, A, N>, t: SliceMut<'b, A, N>)
    requires
        forall|i: int| 0 <= i < s@.len() && i < t@.len() ==> #[trigger] s@[i].partial_cmp_spec(&t@[i]) == Some(Ordering::Equal),
    ensures
        s.partial_cmp_spec(&t) == (if s@.len() < t@.len() {
            Some(Ordering::Less)
        } else if s@.len() > t@.len() {
            Some(Ordering::Greater)
        } else {
            Some(Ordering::Equal)
        }),
{
    lexicographic_common_prefix(s@, t@);
}

} // verus!
