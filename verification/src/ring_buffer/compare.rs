//! Equality and ordering of slices, item by item.

use vstd::prelude::*;

use vstd::std_specs::cmp::PartialEqSpec;
use vstd::std_specs::cmp::PartialEqSpecImpl;

use super::Iter;
use super::slice::{Slice, SliceMut};

verus! {

/// Whether `a` and `b` have the same length and their items are pairwise
/// equal under `A`'s `==`.
pub open spec fn items_eq<A: PartialEq>(a: Seq<A>, b: Seq<A>) -> bool {
    &&& a.len() == b.len()
    &&& forall|i: int| 0 <= i < a.len() ==> #[trigger] a[i].eq_spec(&b[i])
}

/// A sequence whose items each equal themselves equals itself.
pub proof fn items_eq_reflexive<A: PartialEq>(a: Seq<A>)
    requires
        forall|i: int| 0 <= i < a.len() ==> #[trigger] a[i].eq_spec(&a[i]),
    ensures
        items_eq(a, a),
{
}

/// Where `A`'s equality is symmetric, so is the item-by-item equality of
/// sequences.
pub proof fn items_eq_symmetric<A: PartialEq>(a: Seq<A>, b: Seq<A>)
    requires
        forall|x: A, y: A| #[trigger] x.eq_spec(&y) ==> y.eq_spec(&x),
        items_eq(a, b),
    ensures
        items_eq(b, a),
{
    assert forall|i: int| 0 <= i < b.len() implies #[trigger] b[i].eq_spec(&a[i]) by {
        assert(a[i].eq_spec(&b[i]));
    }
}

/// Walks both iterators to the first pair of items that differ, or to the
/// end of either.
fn iter_eq<'x, 'y, A: PartialEq, const N: usize>(a: &mut Iter<'x, A, N>, b: &mut Iter<'y, A, N>) -> (r: bool)
    requires
        old(a)@.len() == old(b)@.len(),
    ensures
        <A as PartialEqSpec>::obeys_eq_spec() ==> r == items_eq(old(a)@, old(b)@),
        <A as PartialEqSpec>::obeys_eq_spec() ==> (r <==> forall|i: int|
            0 <= i < old(a)@.len() ==> #[trigger] old(a)@[i].eq_spec(&old(b)@[i])),
{
    let ghost a0 = old(a)@;
    let ghost b0 = old(b)@;
    loop
        invariant
            a0 == old(a)@,
            b0 == old(b)@,
            a@.len() == b@.len(),
            a@.len() <= a0.len(),
            a@ == a0.skip(a0.len() - a@.len()),
            b@ == b0.skip(b0.len() - b@.len()),
            a0.len() == b0.len(),
            <A as PartialEqSpec>::obeys_eq_spec() ==> forall|j: int|
                0 <= j < a0.len() - a@.len() ==> #[trigger] a0[j].eq_spec(&b0[j]),
        decreases a@.len(),
    {
        let ghost k = a0.len() - a@.len();
        let ghost ai = a@;
        let ghost bi = b@;
        let x = a.next();
        let y = b.next();
        match (x, y) {
            (Some(x), Some(y)) => {
                assert(*x == a0[k] && *y == b0[k]) by {
                    assert(ai[0] == a0.skip(k)[0]);
                    assert(bi[0] == b0.skip(k)[0]);
                }
                if !x.eq(y) {
                    assert(!items_eq(a0, b0) || !<A as PartialEqSpec>::obeys_eq_spec()) by {
                        if <A as PartialEqSpec>::obeys_eq_spec() {
                            assert(!a0[k].eq_spec(&b0[k]));
                        }
                    }
                    return false;
                }
                assert(a@ == a0.skip(k + 1)) by {
                    assert(a@ =~= a0.skip(k + 1));
                }
                assert(b@ == b0.skip(k + 1)) by {
                    assert(b@ =~= b0.skip(k + 1));
                }
            },
            _ => {
                return true;
            },
        }
    }
}

/// Walks the iterator and the slice `b` together to the first pair of
/// items that differ, or to the end.
fn iter_eq_items<'x, A: PartialEq, const N: usize>(a: &mut Iter<'x, A, N>, b: &[A]) -> (r: bool)
    requires
        old(a)@.len() == b@.len(),
    ensures
        <A as PartialEqSpec>::obeys_eq_spec() ==> r == items_eq(old(a)@, b@),
        <A as PartialEqSpec>::obeys_eq_spec() ==> (r <==> forall|i: int|
            0 <= i < old(a)@.len() ==> #[trigger] old(a)@[i].eq_spec(&b@[i])),
{
    let ghost a0 = old(a)@;
    let mut i: usize = 0;
    while i < b.len()
        invariant
            a0 == old(a)@,
            a0.len() == b@.len(),
            i <= b@.len(),
            a@ == a0.skip(i as int),
            <A as PartialEqSpec>::obeys_eq_spec() ==> forall|j: int|
                0 <= j < i ==> #[trigger] a0[j].eq_spec(&b@[j]),
        decreases b@.len() - i,
    {
        let ghost ai = a@;
        let x = a.next();
        match x {
            Some(x) => {
                assert(*x == a0[i as int]) by {
                    assert(ai[0] == a0.skip(i as int)[0]);
                }
                if !x.eq(&b[i]) {
                    assert(!items_eq(a0, b@) || !<A as PartialEqSpec>::obeys_eq_spec()) by {
                        if <A as PartialEqSpec>::obeys_eq_spec() {
                            assert(!a0[i as int].eq_spec(&b@[i as int]));
                        }
                    }
                    return false;
                }
                assert(a@ =~= a0.skip(i + 1));
            },
            None => {
                return true;
            },
        }
        i = i + 1;
    }
    true
}

impl<'a, A: PartialEq, const N: usize> PartialEq for Slice<'a, A, N> {
    fn eq(&self, other: &Self) -> (r: bool)
        ensures
            self@.len() != other@.len() ==> !r,
            <A as PartialEqSpec>::obeys_eq_spec() ==> (r <==> (self@.len() == other@.len()
                && forall|i: int| 0 <= i < self@.len() ==> #[trigger] self@[i].eq_spec(&other@[i]))),
    {
        self.len() == other.len() && iter_eq(&mut self.iter(), &mut other.iter())
    }
}

impl<'a, A: PartialEq, const N: usize> PartialEqSpecImpl for Slice<'a, A, N> {
    open spec fn obeys_eq_spec() -> bool {
        <A as PartialEqSpec>::obeys_eq_spec()
    }

    open spec fn eq_spec(&self, other: &Self) -> bool {
        items_eq(self@, other@)
    }
}

impl<'a, A: Eq, const N: usize> Eq for Slice<'a, A, N> {
}

impl<'a, A: PartialEq, const N: usize> PartialEq<Vec<A>> for Slice<'a, A, N> {
    fn eq(&self, other: &Vec<A>) -> (r: bool)
        ensures
            self@.len() != other@.len() ==> !r,
            <A as PartialEqSpec>::obeys_eq_spec() ==> (r <==> (self@.len() == other@.len()
                && forall|i: int| 0 <= i < self@.len() ==> #[trigger] self@[i].eq_spec(&other@[i]))),
    {
        self.len() == other.len() && iter_eq_items(&mut self.iter(), other.as_slice())
    }
}

impl<'a, A: PartialEq, const N: usize> PartialEqSpecImpl<Vec<A>> for Slice<'a, A, N> {
    open spec fn obeys_eq_spec() -> bool {
        <A as PartialEqSpec>::obeys_eq_spec()
    }

    open spec fn eq_spec(&self, other: &Vec<A>) -> bool {
        items_eq(self@, other@)
    }
}

impl<'a, A: PartialEq, const N: usize> PartialEq for SliceMut<'a, A, N> {
    fn eq(&self, other: &Self) -> (r: bool)
        ensures
            self@.len() != other@.len() ==> !r,
            <A as PartialEqSpec>::obeys_eq_spec() ==> (r <==> (self@.len() == other@.len()
                && forall|i: int| 0 <= i < self@.len() ==> #[trigger] self@[i].eq_spec(&other@[i]))),
    {
        self.len() == other.len() && iter_eq(&mut self.iter(), &mut other.iter())
    }
}

impl<'a, A: PartialEq, const N: usize> PartialEqSpecImpl for SliceMut<'a, A, N> {
    open spec fn obeys_eq_spec() -> bool {
        <A as PartialEqSpec>::obeys_eq_spec()
    }

    open spec fn eq_spec(&self, other: &Self) -> bool {
        items_eq(self@, other@)
    }
}

impl<'a, A: Eq, const N: usize> Eq for SliceMut<'a, A, N> {
}

impl<'a, A: PartialEq, const N: usize> PartialEq<Vec<A>> for SliceMut<'a, A, N> {
    fn eq(&self, other: &Vec<A>) -> (r: bool)
        ensures
            self@.len() != other@.len() ==> !r,
            <A as PartialEqSpec>::obeys_eq_spec() ==> (r <==> (self@.len() == other@.len()
                && forall|i: int| 0 <= i < self@.len() ==> #[trigger] self@[i].eq_spec(&other@[i]))),
    {
        self.len() == other.len() && iter_eq_items(&mut self.iter(), other.as_slice())
    }
}

impl<'a, A: PartialEq, const N: usize> PartialEqSpecImpl<Vec<A>> for SliceMut<'a, A, N> {
    open spec fn obeys_eq_spec() -> bool {
        <A as PartialEqSpec>::obeys_eq_spec()
    }

    open spec fn eq_spec(&self, other: &Vec<A>) -> bool {
        items_eq(self@, other@)
    }
}

impl<'a, 's, A: PartialEq, const N: usize> PartialEq<&'s [A]> for Slice<'a, A, N> {
    fn eq(&self, other: &&'s [A]) -> (r: bool)
        ensures
            self@.len() != other@.len() ==> !r,
            <A as PartialEqSpec>::obeys_eq_spec() ==> (r <==> (self@.len() == other@.len()
                && forall|i: int| 0 <= i < self@.len() ==> #[trigger] self@[i].eq_spec(&other@[i]))),
    {
        self.len() == other.len() && iter_eq_items(&mut self.iter(), *other)
    }
}

impl<'a, 's, A: PartialEq, const N: usize> PartialEqSpecImpl<&'s [A]> for Slice<'a, A, N> {
    open spec fn obeys_eq_spec() -> bool {
        <A as PartialEqSpec>::obeys_eq_spec()
    }

    open spec fn eq_spec(&self, other: &&'s [A]) -> bool {
        items_eq(self@, other@)
    }
}

impl<'a, 's, A: PartialEq, const N: usize> PartialEq<&'s [A]> for SliceMut<'a, A, N> {
    fn eq(&self, other: &&'s [A]) -> (r: bool)
        ensures
            self@.len() != other@.len() ==> !r,
            <A as PartialEqSpec>::obeys_eq_spec() ==> (r <==> (self@.len() == other@.len()
                && forall|i: int| 0 <= i < self@.len() ==> #[trigger] self@[i].eq_spec(&other@[i]))),
    {
        self.len() == other.len() && iter_eq_items(&mut self.iter(), *other)
    }
}

impl<'a, 's, A: PartialEq, const N: usize> PartialEqSpecImpl<&'s [A]> for SliceMut<'a, A, N> {
    open spec fn obeys_eq_spec() -> bool {
        <A as PartialEqSpec>::obeys_eq_spec()
    }

    open spec fn eq_spec(&self, other: &&'s [A]) -> bool {
        items_eq(self@, other@)
    }
}

/// A Slice never equals another slice whose item at some position it
/// does not equal, nor one of another length.
pub proof fn slice_unequal_where_they_differ<'a, 'b, A: PartialEq, const N: usize>(s: Slice<'a, A, N>, t: Slice<'b, A, N>, k: int)
    requires
        s@.len() != t@.len() || (0 <= k < s@.len() && k < t@.len() && !s@[k].eq_spec(&t@[k])),
    ensures
        !PartialEqSpec::eq_spec(&s, &t),
{
}

/// A Slice equals another slice of the same length whose items it
/// equals position by position.
pub proof fn slice_equal_where_all_items_are<'a, 'b, A: PartialEq, const N: usize>(s: Slice<'a, A, N>, t: Slice<'b, A, N>)
    requires
        s@.len() == t@.len(),
        forall|i: int| 0 <= i < s@.len() ==> #[trigger] s@[i].eq_spec(&t@[i]),
    ensures
        PartialEqSpec::eq_spec(&s, &t),
{
}

/// A SliceMut never equals another mutable slice whose item at some position it
/// does not equal, nor one of another length.
pub proof fn slice_mut_unequal_where_they_differ<'a, 'b, A: PartialEq, const N: usize>(s: SliceMut<'a, A, N>, t: SliceMut<'b, A, N>, k: int)
    requires
        s@.len() != t@.len() || (0 <= k < s@.len() && k < t@.len() && !s@[k].eq_spec(&t@[k])),
    ensures
        !PartialEqSpec::eq_spec(&s, &t),
{
}

/// A SliceMut equals another mutable slice of the same length whose items it
/// equals position by position.
pub proof fn slice_mut_equal_where_all_items_are<'a, 'b, A: PartialEq, const N: usize>(s: SliceMut<'a, A, N>, t: SliceMut<'b, A, N>)
    requires
        s@.len() == t@.len(),
        forall|i: int| 0 <= i < s@.len() ==> #[trigger] s@[i].eq_spec(&t@[i]),
    ensures
        PartialEqSpec::eq_spec(&s, &t),
{
}

/// A Slice never equals a vector whose item at some position it
/// does not equal, nor one of another length.
pub proof fn slice_vec_unequal_where_they_differ<'a, A: PartialEq, const N: usize>(s: Slice<'a, A, N>, t: Vec<A>, k: int)
    requires
        s@.len() != t@.len() || (0 <= k < s@.len() && k < t@.len() && !s@[k].eq_spec(&t@[k])),
    ensures
        !PartialEqSpec::eq_spec(&s, &t),
{
}

/// A Slice equals a vector of the same length whose items it
/// equals position by position.
pub proof fn slice_vec_equal_where_all_items_are<'a, A: PartialEq, const N: usize>(s: Slice<'a, A, N>, t: Vec<A>)
    requires
        s@.len() == t@.len(),
        forall|i: int| 0 <= i < s@.len() ==> #[trigger] s@[i].eq_spec(&t@[i]),
    ensures
        PartialEqSpec::eq_spec(&s, &t),
{
}

/// A SliceMut never equals a vector whose item at some position it
/// does not equal, nor one of another length.
pub proof fn slice_mut_vec_unequal_where_they_differ<'a, A: PartialEq, const N: usize>(s: SliceMut<'a, A, N>, t: Vec<A>, k: int)
    requires
        s@.len() != t@.len() || (0 <= k < s@.len() && k < t@.len() && !s@[k].eq_spec(&t@[k])),
    ensures
        !PartialEqSpec::eq_spec(&s, &t),
{
}

/// A SliceMut equals a vector of the same length whose items it
/// equals position by position.
pub proof fn slice_mut_vec_equal_where_all_items_are<'a, A: PartialEq, const N: usize>(s: SliceMut<'a, A, N>, t: Vec<A>)
    requires
        s@.len() == t@.len(),
        forall|i: int| 0 <= i < s@.len() ==> #[trigger] s@[i].eq_spec(&t@[i]),
    ensures
        PartialEqSpec::eq_spec(&s, &t),
{
}

/// A Slice never equals a borrowed run of items whose item at some position it
/// does not equal, nor one of another length.
pub proof fn slice_items_unequal_where_they_differ<'a, 'b, A: PartialEq, const N: usize>(s: Slice<'a, A, N>, t: &'b [A], k: int)
    requires
        s@.len() != t@.len() || (0 <= k < s@.len() && k < t@.len() && !s@[k].eq_spec(&t@[k])),
    ensures
        !PartialEqSpec::eq_spec(&s, &t),
{
}

/// A Slice equals a borrowed run of items of the same length whose items it
/// equals position by position.
pub proof fn slice_items_equal_where_all_items_are<'a, 'b, A: PartialEq, const N: usize>(s: Slice<'a, A, N>, t: &'b [A])
    requires
        s@.len() == t@.len(),
        forall|i: int| 0 <= i < s@.len() ==> #[trigger] s@[i].eq_spec(&t@[i]),
    ensures
        PartialEqSpec::eq_spec(&s, &t),
{
}

/// A SliceMut never equals a borrowed run of items whose item at some position it
/// does not equal, nor one of another length.
pub proof fn slice_mut_items_unequal_where_they_differ<'a, 'b, A: PartialEq, const N: usize>(s: SliceMut<'a, A, N>, t: &'b [A], k: int)
    requires
        s@.len() != t@.len() || (0 <= k < s@.len() && k < t@.len() && !s@[k].eq_spec(&t@[k])),
    ensures
        !PartialEqSpec::eq_spec(&s, &t),
{
}

/// A SliceMut equals a borrowed run of items of the same length whose items it
/// equals position by position.
pub proof fn slice_mut_items_equal_where_all_items_are<'a, 'b, A: PartialEq, const N: usize>(s: SliceMut<'a, A, N>, t: &'b [A])
    requires
        s@.len() == t@.len(),
        forall|i: int| 0 <= i < s@.len() ==> #[trigger] s@[i].eq_spec(&t@[i]),
    ensures
        PartialEqSpec::eq_spec(&s, &t),
{
}

} // verus!
