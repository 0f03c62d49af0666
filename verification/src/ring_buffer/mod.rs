//! A ring buffer of at most `N` items, stored in a fixed array of `N` slots.
//!
//! The items occupy the slots `origin, origin + 1, ...` and wrap around at
//! the end of the array.

use vstd::prelude::*;

pub mod compare;
pub mod laws;
pub mod order;
pub mod slice;

pub use self::slice::{Bound, IterMut, Slice, SliceMut};

verus! {

/// Borrows the item held by slot `p` mutably.
fn slot_mut<A>(slots: &mut Vec<Option<A>>, p: usize) -> (r: Option<&mut A>)
    requires
        p < old(slots)@.len(),
    ensures
        old(slots)@[p as int] is None ==> r is None && final(slots)@ == old(slots)@,
        old(slots)@[p as int] is Some ==> r is Some && *r.unwrap() == old(slots)@[p as int]->0
            && final(slots)@ == old(slots)@.update(p as int, Some(*final(r.unwrap()))),
    no_unwind
{
    match &mut slots[p] {
        Some(x) => Some(x),
        None => None,
    }
}

/// Puts `x` into slot `p` and hands back what the slot held.
fn slot_replace<A>(slots: &mut Vec<Option<A>>, p: usize, x: Option<A>) -> (r: Option<A>)
    requires
        p < old(slots)@.len(),
    ensures
        r == old(slots)@[p as int],
        final(slots)@ == old(slots)@.update(p as int, x),
    no_unwind
{
    let mut x = x;
    std::mem::swap(&mut slots[p], &mut x);
    x
}

/// A ring buffer of at most `N` items.
pub struct RingBuffer<A, const N: usize> {
    pub(crate) origin: usize,
    pub(crate) length: usize,
    pub(crate) data: Vec<Option<A>>,
}

impl<A, const N: usize> RingBuffer<A, N> {
    /// The array slot that holds the item at logical position `i`, for `0 <= i <= N`.
    pub(crate) open spec fn slot(&self, i: int) -> int {
        if self.origin + i < N {
            self.origin + i
        } else {
            self.origin + i - N
        }
    }

    /// Whether array slot `p` holds one of the items.
    pub(crate) open spec fn live(&self, p: int) -> bool {
        if p >= self.origin {
            p - self.origin < self.length
        } else {
            p + N - self.origin < self.length
        }
    }

    #[verifier::type_invariant]
    closed spec fn inv(&self) -> bool {
        &&& self.data@.len() == N
        &&& self.length <= N
        &&& if N == 0 { self.origin == 0 } else { self.origin < N }
        &&& forall|p: int| 0 <= p < N && self.live(p) ==> (#[trigger] self.data@[p]) is Some
    }

    /// The items, front to back.
    pub closed spec fn contents(&self) -> Seq<A> {
        Seq::new(self.length as nat, |i: int| self.data@[self.slot(i)]->0)
    }

    /// An empty buffer.
    pub fn new() -> (r: Self)
        ensures
            r@ == Seq::<A>::empty(),
    {
        let mut data: Vec<Option<A>> = Vec::new();
        let mut i: usize = 0;
        while i < N
            invariant
                i <= N,
                data@.len() == i,
            decreases N - i,
        {
            data.push(None);
            i = i + 1;
        }
        let r = RingBuffer { origin: 0, length: 0, data };
        proof {
            assert(r@ =~= Seq::<A>::empty());
        }
        r
    }

    /// The number of items the buffer can hold.
    pub fn capacity(&self) -> (r: usize)
        ensures
            r == N,
    {
        N
    }

    /// The number of items in the buffer.
    pub fn len(&self) -> (r: usize)
        ensures
            r == self@.len(),
    {
        self.length
    }

    /// Whether the buffer holds no item.
    pub fn is_empty(&self) -> (r: bool)
        ensures
            r == (self@.len() == 0),
    {
        self.length == 0
    }

    /// Whether the buffer holds `N` items.
    pub fn is_full(&self) -> (r: bool)
        ensures
            r == (self@.len() == N),
    {
        proof {
            use_type_invariant(self);
        }
        self.length == N
    }

    /// The array slot of logical position `index`, which may be one past the last item.
    pub(crate) fn raw(&self, index: usize) -> (r: usize)
        requires
            index <= self@.len(),
        ensures
            r == self.slot(index as int),
            index < self@.len() ==> r < N,
            N > 0 ==> r < N,
        no_unwind
    {
        proof {
            use_type_invariant(self);
        }
        let room = N - self.origin;
        if index < room {
            self.origin + index
        } else {
            index - room
        }
    }
}

impl<A, const N: usize> RingBuffer<A, N> {
    /// Appends an item at the back.
    ///
    /// Panics where the buffer is full; that input is left out here.
    pub fn push_back(&mut self, value: A)
        requires
            old(self)@.len() < N,
        ensures
            final(self)@ == old(self)@.push(value),
    {
        proof {
            use_type_invariant(&*self);
        }
        let p = self.raw(self.length);
        let _ = slot_replace(&mut self.data, p, Some(value));
        self.length = self.length + 1;
        proof {
            assert(final(self)@ =~= old(self)@.push(value));
        }
    }

    /// Inserts an item at the front.
    ///
    /// Panics where the buffer is full; that input is left out here.
    pub fn push_front(&mut self, value: A)
        requires
            old(self)@.len() < N,
        ensures
            final(self)@ == seq![value] + old(self)@,
    {
        proof {
            use_type_invariant(&*self);
        }
        let p = if self.origin == 0 { N - 1 } else { self.origin - 1 };
        let _ = slot_replace(&mut self.data, p, Some(value));
        self.origin = p;
        self.length = self.length + 1;
        proof {
            assert(final(self)@ =~= seq![value] + old(self)@);
        }
    }

    /// Removes the front item, or gives `None` where the buffer is empty.
    pub fn pop_front(&mut self) -> (r: Option<A>)
        ensures
            old(self)@.len() == 0 ==> r is None && final(self)@ == old(self)@,
            old(self)@.len() > 0 ==> r == Some(old(self)@[0]) && final(self)@ == old(self)@.drop_first(),
    {
        proof {
            use_type_invariant(&*self);
        }
        if self.length == 0 {
            return None;
        }
        let p = self.origin;
        let next = self.raw(1);
        self.length = self.length - 1;
        self.origin = next;
        let item = slot_replace(&mut self.data, p, None);
        proof {
            assert(old(self).data@[old(self).slot(0)] is Some);
            assert(final(self)@ =~= old(self)@.drop_first());
        }
        item
    }

    /// Removes the back item, or gives `None` where the buffer is empty.
    pub fn pop_back(&mut self) -> (r: Option<A>)
        ensures
            old(self)@.len() == 0 ==> r is None && final(self)@ == old(self)@,
            old(self)@.len() > 0 ==> r == Some(old(self)@.last()) && final(self)@ == old(self)@.drop_last(),
    {
        proof {
            use_type_invariant(&*self);
        }
        if self.length == 0 {
            return None;
        }
        let p = self.raw(self.length - 1);
        self.length = self.length - 1;
        let item = slot_replace(&mut self.data, p, None);
        proof {
            assert(old(self).data@[old(self).slot(old(self).length - 1)] is Some);
            assert(final(self)@ =~= old(self)@.drop_last());
        }
        item
    }

    /// A reference to the item at `index`, or `None` past the end.
    pub fn get(&self, index: usize) -> (r: Option<&A>)
        ensures
            index < self@.len() ==> r == Some(&self@[index as int]),
            index >= self@.len() ==> r is None,
    {
        proof {
            use_type_invariant(self);
        }
        if index < self.length {
            let p = self.raw(index);
            assert(self.data@[self.slot(index as int)] is Some);
            self.data[p].as_ref()
        } else {
            None
        }
    }

    /// A reference to the item at `index`.
    ///
    /// Panics past the end; that input is left out here.
    pub fn index(&self, index: usize) -> (r: &A)
        requires
            index < self@.len(),
        ensures
            *r == self@[index as int],
    {
        proof {
            use_type_invariant(self);
        }
        let p = self.raw(index);
        assert(self.data@[self.slot(index as int)] is Some);
        self.data[p].as_ref().unwrap()
    }

    /// A mutable reference to the item at `index`, or `None` past the end.
    pub fn get_mut(&mut self, index: usize) -> (r: Option<&mut A>)
        ensures
            index >= old(self)@.len() ==> r is None && final(self)@ == old(self)@,
            index < old(self)@.len() ==> r is Some && *r.unwrap() == old(self)@[index as int]
                && final(self)@ == old(self)@.update(index as int, *final(r.unwrap())),
        no_unwind
    {
        proof {
            use_type_invariant(&*self);
        }
        if index < self.length {
            let p = self.raw(index);
            assert(self.data@[self.slot(index as int)] is Some);
            slot_mut(&mut self.data, p)
        } else {
            None
        }
    }

    /// Replaces the item at `index` by `value` and gives back the item it held.
    ///
    /// Panics past the end; that input is left out here.
    pub fn set(&mut self, index: usize, value: A) -> (r: A)
        requires
            index < old(self)@.len(),
        ensures
            r == old(self)@[index as int],
            final(self)@ == old(self)@.update(index as int, value),
        no_unwind
    {
        proof {
            use_type_invariant(&*self);
        }
        let p = self.raw(index);
        assert(self.data@[self.slot(index as int)] is Some);
        let old_item = slot_replace(&mut self.data, p, Some(value));
        proof {
            assert(final(self)@ =~= old(self)@.update(index as int, value));
        }
        match old_item {
            Some(item) => item,
            None => vstd::pervasive::unreached(),
        }
    }
}

impl<A, const N: usize> RingBuffer<A, N> {
    /// An iterator over references to the items, front to back.
    pub fn iter(&self) -> (r: Iter<'_, A, N>)
        ensures
            r@ == self@,
    {
        let r = Iter::new(self, 0, self.len());
        proof {
            assert(self@.subrange(0, self@.len() as int) =~= self@);
        }
        r
    }
}

impl<A, const N: usize> View for RingBuffer<A, N> {
    type V = Seq<A>;

    open spec fn view(&self) -> Seq<A> {
        self.contents()
    }
}

/// An iterator over references to a run of the items of a `RingBuffer`,
/// which it walks by array slot from both ends.
pub struct Iter<'a, A, const N: usize> {
    pub(crate) buffer: &'a RingBuffer<A, N>,
    pub(crate) left_index: usize,
    pub(crate) right_index: usize,
    pub(crate) remaining: usize,
}

impl<'a, A, const N: usize> Iter<'a, A, N> {
    /// The logical position of the item in array slot `left_index`.
    pub(crate) open spec fn offset(&self) -> int {
        if self.left_index >= self.buffer.origin {
            self.left_index - self.buffer.origin
        } else {
            self.left_index + N - self.buffer.origin
        }
    }

    #[verifier::type_invariant]
    closed spec fn inv(&self) -> bool {
        &&& self.left_index < N || (N == 0 && self.left_index == 0)
        &&& self.offset() + self.remaining <= self.buffer@.len()
        &&& self.right_index == self.buffer.slot(self.offset() + self.remaining)
    }

    /// The items that the iterator has yet to hand out, front to back.
    pub closed spec fn remaining_items(&self) -> Seq<A> {
        self.buffer@.subrange(self.offset(), self.offset() + self.remaining)
    }

    /// An iterator over the items of `buffer` at positions `start .. start + len`.
    pub(crate) fn new(buffer: &'a RingBuffer<A, N>, start: usize, len: usize) -> (r: Self)
        requires
            start + len <= buffer@.len(),
        ensures
            r@ == buffer@.subrange(start as int, start + len),
    {
        proof {
            use_type_invariant(buffer);
        }
        let left_index = buffer.raw(start);
        let right_index = buffer.raw(start + len);
        let r = Iter { buffer, left_index, right_index, remaining: len };
        proof {
            if start == N {
                assert(r@ =~= buffer@.subrange(start as int, start + len));
            }
        }
        r
    }

    /// The number of items left.
    pub fn len(&self) -> (r: usize)
        ensures
            r == self@.len(),
    {
        proof {
            use_type_invariant(self);
            use_type_invariant(self.buffer);
        }
        self.remaining
    }

    /// Hands out the front item that is left, or `None` where none is.
    pub fn next(&mut self) -> (r: Option<&'a A>)
        ensures
            old(self)@.len() == 0 ==> r is None && final(self)@ == old(self)@,
            old(self)@.len() > 0 ==> r == Some(&old(self)@[0]) && final(self)@ == old(self)@.drop_first(),
    {
        proof {
            use_type_invariant(&*self);
            use_type_invariant(self.buffer);
        }
        if self.remaining == 0 {
            return None;
        }
        let buffer = self.buffer;
        let p = self.left_index;
        assert(buffer.live(p as int));
        let item = buffer.data[p].as_ref().unwrap();
        let next_left = if p + 1 == N { 0 } else { p + 1 };
        *self = Iter {
            buffer,
            left_index: next_left,
            right_index: self.right_index,
            remaining: self.remaining - 1,
        };
        proof {
            assert(final(self)@ =~= old(self)@.drop_first());
        }
        Some(item)
    }

    /// Hands out the back item that is left, or `None` where none is.
    pub fn next_back(&mut self) -> (r: Option<&'a A>)
        ensures
            old(self)@.len() == 0 ==> r is None && final(self)@ == old(self)@,
            old(self)@.len() > 0 ==> r == Some(&old(self)@.last()) && final(self)@ == old(self)@.drop_last(),
    {
        proof {
            use_type_invariant(&*self);
            use_type_invariant(self.buffer);
        }
        if self.remaining == 0 {
            return None;
        }
        let buffer = self.buffer;
        let p = if self.right_index == 0 { N - 1 } else { self.right_index - 1 };
        assert(p == buffer.slot(self.offset() + self.remaining - 1));
        assert(buffer.live(p as int));
        let item = buffer.data[p].as_ref().unwrap();
        *self = Iter {
            buffer,
            left_index: self.left_index,
            right_index: p,
            remaining: self.remaining - 1,
        };
        proof {
            assert(final(self)@ =~= old(self)@.drop_last());
        }
        Some(item)
    }
}

impl<'a, A, const N: usize> View for Iter<'a, A, N> {
    type V = Seq<A>;

    open spec fn view(&self) -> Seq<A> {
        self.remaining_items()
    }
}

} // verus!
