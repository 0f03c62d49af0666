//! Indexable views of a run of the items of a `RingBuffer`.

use vstd::prelude::*;

use super::{Iter, RingBuffer};

verus! {

/// One end of a range of positions, as in `std::ops::Bound`.
#[derive(Clone, Copy, Debug, PartialEq, Eq)]
pub enum Bound {
    Included(usize),
    Excluded(usize),
    Unbounded,
}

/// The first position that a range starting at `start` covers.
pub open spec fn start_index(start: Bound) -> int {
    match start {
        Bound::Included(i) => i as int,
        Bound::Excluded(i) => i + 1,
        Bound::Unbounded => 0,
    }
}

/// The position just past the last one that a range ending at `end` covers,
/// in a slice of length `len`.
pub open spec fn end_index(end: Bound, len: int) -> int {
    match end {
        Bound::Included(i) => i + 1,
        Bound::Excluded(i) => i as int,
        Bound::Unbounded => len,
    }
}

/// Whether a slice of length `len` can be narrowed to the range from `start`
/// to `end`: an excluded start is not supported, and the range must lie
/// within the slice and not run backwards.
pub open spec fn valid_range(start: Bound, end: Bound, len: int) -> bool {
    &&& !(start is Excluded)
    &&& start_index(start) <= end_index(end, len) <= len
}

/// An indexable representation of a subset of a `RingBuffer`.
pub struct Slice<'a, A, const N: usize> {
    pub(crate) buffer: &'a RingBuffer<A, N>,
    pub(crate) range: std::ops::Range<usize>,
}

impl<'a, A, const N: usize> Slice<'a, A, N> {
    #[verifier::type_invariant]
    closed spec fn inv(&self) -> bool {
        self.range.start <= self.range.end <= self.buffer@.len()
    }

    /// The items of the whole buffer the slice looks into.
    pub closed spec fn buffer_view(&self) -> Seq<A> {
        self.buffer@
    }

    /// The position in the buffer of the slice's first item.
    pub closed spec fn range_start(&self) -> int {
        self.range.start as int
    }

    /// The position in the buffer just past the slice's last item.
    pub closed spec fn range_end(&self) -> int {
        self.range.end as int
    }

    /// The items of the slice, in order.
    pub closed spec fn contents(&self) -> Seq<A> {
        self.buffer@.subrange(self.range.start as int, self.range.end as int)
    }

    /// The slice over all the items of `buffer`.
    pub closed spec fn whole(buffer: &'a RingBuffer<A, N>) -> Self {
        Slice { range: std::ops::Range { start: 0, end: buffer@.len() as usize }, buffer }
    }

    /// Where the slice's items sit: its range lies within the buffer, and
    /// its items are the buffer's items over that range.
    pub open spec fn placed(&self) -> bool {
        &&& 0 <= self.range_start() <= self.range_end() <= self.buffer_view().len()
        &&& self@ == self.buffer_view().subrange(self.range_start(), self.range_end())
    }

    /// Get the length of the slice.
    pub fn len(&self) -> (r: usize)
        ensures
            r == self@.len(),
            r == self.range_end() - self.range_start(),
            self.placed(),
    {
        proof {
            use_type_invariant(self);
        }
        self.range.end - self.range.start
    }

    /// Test if the slice is empty.
    pub fn is_empty(&self) -> (r: bool)
        ensures
            r == (self@.len() == 0),
    {
        self.len() == 0
    }

    /// Get a reference to the value at a given index.
    pub fn get(&self, index: usize) -> (r: Option<&'a A>)
        ensures
            index < self@.len() ==> r == Some(&self@[index as int]),
            index >= self@.len() ==> r is None,
    {
        proof {
            use_type_invariant(self);
        }
        if index >= self.len() {
            None
        } else {
            self.buffer.get(self.range.start + index)
        }
    }

    /// Get a reference to the first value in the slice.
    pub fn first(&self) -> (r: Option<&A>)
        ensures
            self@.len() > 0 ==> r == Some(&self@[0]),
            self@.len() == 0 ==> r is None,
    {
        self.get(0)
    }

    /// Get a reference to the last value in the slice.
    pub fn last(&self) -> (r: Option<&A>)
        ensures
            self@.len() > 0 ==> r == Some(&self@.last()),
            self@.len() == 0 ==> r is None,
    {
        if self.is_empty() {
            None
        } else {
            self.get(self.len() - 1)
        }
    }

    /// Get a reference to the value at a given index.
    ///
    /// Panics past the end of the slice; that input is left out here.
    pub fn index(&self, index: usize) -> (r: &'a A)
        requires
            index < self@.len(),
        ensures
            *r == self@[index as int],
    {
        proof {
            use_type_invariant(self);
        }
        self.buffer.index(self.range.start + index)
    }

    /// Get an iterator over references to the items in the slice in order.
    pub fn iter(&self) -> (r: Iter<'_, A, N>)
        ensures
            r@ == self@,
    {
        proof {
            use_type_invariant(self);
        }
        Iter::new(self.buffer, self.range.start, self.len())
    }

    /// Create a subslice of this slice, over the positions from `start` to `end`.
    ///
    /// This consumes the slice. To create a subslice without consuming it,
    /// clone it first: `my_slice.clone().slice(Bound::Included(1), Bound::Excluded(2))`.
    ///
    /// Panics where the range is not within the slice, or where `start` is
    /// excluded; those inputs are left out here.
    pub fn slice(self, start: Bound, end: Bound) -> (r: Slice<'a, A, N>)
        requires
            valid_range(start, end, self@.len() as int),
        ensures
            r@ == self@.subrange(start_index(start), end_index(end, self@.len() as int)),
            r.placed(),
            r.buffer_view() == self.buffer_view(),
            r.range_start() == self.range_start() + start_index(start),
            r.range_end() == self.range_start() + end_index(end, self@.len() as int),
    {
        proof {
            use_type_invariant(&self);
        }
        let len = self.len();
        let lo: usize = match start {
            Bound::Included(index) => index,
            Bound::Excluded(index) => index,
            Bound::Unbounded => 0,
        };
        let hi: usize = match end {
            Bound::Included(index) => index + 1,
            Bound::Excluded(index) => index,
            Bound::Unbounded => len,
        };
        let r = Slice {
            buffer: self.buffer,
            range: std::ops::Range { start: self.range.start + lo, end: self.range.start + hi },
        };
        proof {
            assert(r@ =~= self@.subrange(start_index(start), end_index(end, self@.len() as int)));
        }
        r
    }

    /// Split the slice into two subslices at the given index.
    ///
    /// Panics where `index` is past the end of the slice; that input is left out here.
    pub fn split_at(self, index: usize) -> (r: (Slice<'a, A, N>, Slice<'a, A, N>))
        requires
            index <= self@.len(),
        ensures
            r.0@ == self@.subrange(0, index as int),
            r.1@ == self@.subrange(index as int, self@.len() as int),
            r.0@ + r.1@ == self@,
            r.0.placed(),
            r.1.placed(),
            r.0.buffer_view() == self.buffer_view(),
            r.1.buffer_view() == self.buffer_view(),
            r.0.range_start() == self.range_start(),
            r.0.range_end() == self.range_start() + index,
            r.1.range_start() == self.range_start() + index,
            r.1.range_end() == self.range_end(),
    {
        proof {
            use_type_invariant(&self);
        }
        let index = self.range.start + index;
        let r = (
            Slice { buffer: self.buffer, range: std::ops::Range { start: self.range.start, end: index } },
            Slice { buffer: self.buffer, range: std::ops::Range { start: index, end: self.range.end } },
        );
        proof {
            assert(r.0@ =~= self@.subrange(0, index - self.range.start));
            assert(r.1@ =~= self@.subrange(index - self.range.start, self@.len() as int));
            assert(r.0@ + r.1@ =~= self@);
        }
        r
    }

    /// Construct a new `RingBuffer` by copying the elements in this slice.
    pub fn to_owned(&self) -> (r: RingBuffer<A, N>)
        where
            A: Clone,
        ensures
            r@.len() == self@.len(),
            forall|i: int| 0 <= i < self@.len() ==> cloned::<A>(self@[i], #[trigger] r@[i]),
    {
        proof {
            use_type_invariant(self);
            use_type_invariant(self.buffer);
        }
        let len = self.len();
        let mut out: RingBuffer<A, N> = RingBuffer::new();
        let mut i: usize = 0;
        while i < len
            invariant
                i <= len,
                len == self@.len(),
                len <= N,
                out@.len() == i,
                forall|j: int| 0 <= j < i ==> cloned::<A>(self@[j], #[trigger] out@[j]),
            decreases len - i,
        {
            let item = self.index(i).clone();
            out.push_back(item);
            i = i + 1;
        }
        out
    }
}

impl<'a, A, const N: usize> View for Slice<'a, A, N> {
    type V = Seq<A>;

    open spec fn view(&self) -> Seq<A> {
        self.contents()
    }
}

impl<'a, A, const N: usize> From<&'a RingBuffer<A, N>> for Slice<'a, A, N> {
    fn from(buffer: &'a RingBuffer<A, N>) -> (r: Self)
        ensures
            r@ == buffer@,
            r.placed(),
            r.buffer_view() == buffer@,
            r.range_start() == 0,
            r.range_end() == buffer@.len(),
    {
        let r = Slice { range: std::ops::Range { start: 0, end: buffer.len() }, buffer };
        proof {
            assert(r@ =~= buffer@);
        }
        r
    }
}

impl<'a, A, const N: usize> vstd::std_specs::convert::FromSpecImpl<&'a RingBuffer<A, N>> for Slice<'a, A, N> {
    open spec fn obeys_from_spec() -> bool {
        true
    }

    open spec fn from_spec(buffer: &'a RingBuffer<A, N>) -> Self {
        Slice::whole(buffer)
    }
}

impl<'a, A, const N: usize> Clone for Slice<'a, A, N> {
    fn clone(&self) -> (r: Self)
        ensures
            r == *self,
    {
        proof {
            use_type_invariant(self);
        }
        Slice { buffer: self.buffer, range: std::ops::Range { start: self.range.start, end: self.range.end } }
    }
}

} // verus!

verus! {

/// An indexable representation of a mutable subset of a `RingBuffer`.
///
/// A mutable slice offers no `split_at`: its two halves would each hold a
/// mutable reference to the same buffer, which safe code cannot make. Narrow
/// it with `slice` instead, one part at a time.
pub struct SliceMut<'a, A, const N: usize> {
    pub(crate) buffer: &'a mut RingBuffer<A, N>,
    pub(crate) range: std::ops::Range<usize>,
}

impl<'a, A, const N: usize> SliceMut<'a, A, N> {
    #[verifier::type_invariant]
    closed spec fn inv(&self) -> bool {
        self.range.start <= self.range.end <= self.buffer@.len()
    }

    /// The buffer the slice looks into.
    pub closed spec fn buffer_ref(&self) -> &'a mut RingBuffer<A, N> {
        self.buffer
    }

    /// The items of the whole buffer the slice looks into.
    pub open spec fn buffer_view(&self) -> Seq<A> {
        (*self.buffer_ref())@
    }

    /// The position in the buffer of the slice's first item.
    pub closed spec fn range_start(&self) -> int {
        self.range.start as int
    }

    /// The position in the buffer just past the slice's last item.
    pub closed spec fn range_end(&self) -> int {
        self.range.end as int
    }

    /// The items of the slice, in order.
    pub closed spec fn contents(&self) -> Seq<A> {
        self.buffer@.subrange(self.range.start as int, self.range.end as int)
    }

    /// The slice over all the items of `buffer`.
    pub closed spec fn whole(buffer: &'a mut RingBuffer<A, N>) -> Self {
        SliceMut { range: std::ops::Range { start: 0, end: buffer@.len() as usize }, buffer }
    }

    /// The non-mutable slice over the same items.
    pub closed spec fn downgraded(self) -> Slice<'a, A, N> {
        Slice { buffer: &*self.buffer, range: self.range }
    }

    /// Once a slice will never be written through again, the buffer it
    /// borrows ends up holding what the slice holds now.
    pub proof fn lemma_resolved(s: SliceMut<'a, A, N>)
        requires
            has_resolved(s),
        ensures
            *final(s.buffer_ref()) == *s.buffer_ref(),
    {
    }

    /// Downgrade this slice into a non-mutable slice.
    pub fn unmut(self) -> (r: Slice<'a, A, N>)
        ensures
            r == self.downgraded(),
            r@ == self@,
            r.placed(),
            r.buffer_view() == self.buffer_view(),
            r.range_start() == self.range_start(),
            r.range_end() == self.range_end(),
            *final(self.buffer_ref()) == *self.buffer_ref(),
    {
        proof {
            use_type_invariant(&self);
        }
        let SliceMut { buffer, range } = self;
        Slice { buffer, range }
    }

    /// Where the slice's items sit: its range lies within the buffer, and
    /// its items are the buffer's items over that range.
    pub open spec fn placed(&self) -> bool {
        &&& 0 <= self.range_start() <= self.range_end() <= self.buffer_view().len()
        &&& self@ == self.buffer_view().subrange(self.range_start(), self.range_end())
    }

    /// Get the length of the slice.
    pub fn len(&self) -> (r: usize)
        ensures
            r == self@.len(),
            r == self.range_end() - self.range_start(),
            self.placed(),
        no_unwind
    {
        proof {
            use_type_invariant(self);
        }
        self.range.end - self.range.start
    }

    /// Test if the slice is empty.
    pub fn is_empty(&self) -> (r: bool)
        ensures
            r == (self@.len() == 0),
    {
        self.len() == 0
    }

    /// Get a reference to the value at a given index.
    pub fn get(&self, index: usize) -> (r: Option<&A>)
        ensures
            index < self@.len() ==> r == Some(&self@[index as int]),
            index >= self@.len() ==> r is None,
    {
        proof {
            use_type_invariant(self);
        }
        if index >= self.len() {
            None
        } else {
            self.buffer.get(self.range.start + index)
        }
    }

    /// Get a mutable reference to the value at a given index.
    ///
    /// What is written through it lands in the buffer at the position
    /// `range_start() + index`, and nowhere else.
    pub fn get_mut(&mut self, index: usize) -> (r: Option<&mut A>)
        ensures
            *final(final(self).buffer_ref()) == *final(old(self).buffer_ref()),
            old(self).placed(),
            final(self).placed(),
            final(self).range_start() == old(self).range_start(),
            final(self).range_end() == old(self).range_end(),
            index >= old(self)@.len() ==> r is None && final(self).buffer_view() == old(self).buffer_view()
                && final(self)@ == old(self)@,
            index < old(self)@.len() ==> r is Some && *r.unwrap() == old(self)@[index as int]
                && final(self).buffer_view() == old(self).buffer_view().update(
                    old(self).range_start() + index,
                    *final(r.unwrap()),
                )
                && final(self)@ == old(self)@.update(index as int, *final(r.unwrap())),
        no_unwind
    {
        proof {
            use_type_invariant(&*self);
        }
        if index >= self.len() {
            None
        } else {
            self.buffer.get_mut(self.range.start + index)
        }
    }

    /// Get a reference to the first value in the slice.
    pub fn first(&self) -> (r: Option<&A>)
        ensures
            self@.len() > 0 ==> r == Some(&self@[0]),
            self@.len() == 0 ==> r is None,
    {
        self.get(0)
    }

    /// Get a mutable reference to the first value in the slice.
    pub fn first_mut(&mut self) -> (r: Option<&mut A>)
        ensures
            *final(final(self).buffer_ref()) == *final(old(self).buffer_ref()),
            old(self).placed(),
            final(self).placed(),
            final(self).range_start() == old(self).range_start(),
            final(self).range_end() == old(self).range_end(),
            old(self)@.len() == 0 ==> r is None && final(self).buffer_view() == old(self).buffer_view(),
            old(self)@.len() > 0 ==> r is Some && *r.unwrap() == old(self)@[0]
                && final(self).buffer_view() == old(self).buffer_view().update(
                    old(self).range_start(),
                    *final(r.unwrap()),
                ),
    {
        self.get_mut(0)
    }

    /// Get a reference to the last value in the slice.
    pub fn last(&self) -> (r: Option<&A>)
        ensures
            self@.len() > 0 ==> r == Some(&self@.last()),
            self@.len() == 0 ==> r is None,
    {
        if self.is_empty() {
            None
        } else {
            self.get(self.len() - 1)
        }
    }

    /// Get a mutable reference to the last value in the slice.
    pub fn last_mut(&mut self) -> (r: Option<&mut A>)
        ensures
            *final(final(self).buffer_ref()) == *final(old(self).buffer_ref()),
            old(self).placed(),
            final(self).placed(),
            final(self).range_start() == old(self).range_start(),
            final(self).range_end() == old(self).range_end(),
            old(self)@.len() == 0 ==> r is None && final(self).buffer_view() == old(self).buffer_view(),
            old(self)@.len() > 0 ==> r is Some && *r.unwrap() == old(self)@.last()
                && final(self).buffer_view() == old(self).buffer_view().update(
                    old(self).range_end() - 1,
                    *final(r.unwrap()),
                ),
    {
        proof {
            use_type_invariant(&*self);
        }
        if self.is_empty() {
            None
        } else {
            let index = self.len() - 1;
            self.get_mut(index)
        }
    }

    /// Get a reference to the value at a given index.
    ///
    /// Panics past the end of the slice; that input is left out here.
    pub fn index(&self, index: usize) -> (r: &A)
        requires
            index < self@.len(),
        ensures
            *r == self@[index as int],
    {
        proof {
            use_type_invariant(self);
        }
        self.buffer.index(self.range.start + index)
    }

    /// Get a mutable reference to the value at a given index.
    ///
    /// Panics past the end of the slice; that input is left out here.
    pub fn index_mut(&mut self, index: usize) -> (r: &mut A)
        requires
            index < old(self)@.len(),
        ensures
            *final(final(self).buffer_ref()) == *final(old(self).buffer_ref()),
            old(self).placed(),
            final(self).placed(),
            final(self).range_start() == old(self).range_start(),
            final(self).range_end() == old(self).range_end(),
            *r == old(self)@[index as int],
            final(self).buffer_view() == old(self).buffer_view().update(old(self).range_start() + index, *final(r)),
    {
        proof {
            use_type_invariant(&*self);
        }
        match self.buffer.get_mut(self.range.start + index) {
            Some(item) => item,
            None => vstd::pervasive::unreached(),
        }
    }

    /// Get an iterator over references to the items in the slice in order.
    pub fn iter(&self) -> (r: Iter<'_, A, N>)
        ensures
            r@ == self@,
    {
        proof {
            use_type_invariant(self);
        }
        Iter::new(self.buffer, self.range.start, self.len())
    }

    /// Get an iterator over mutable references to the items in the slice in
    /// order.
    pub fn iter_mut(&mut self) -> (r: IterMut<'_, 'a, A, N>)
        ensures
            r@ == old(self)@,
            *r.slice_ref() == *old(self),
            *final(r.slice_ref()) == *final(self),
            r.front() == 0,
            r.back() == old(self)@.len(),
    {
        let len = self.len();
        let r = IterMut { slice: self, left_index: 0, right_index: len };
        proof {
            assert(r@ =~= old(self)@);
        }
        r
    }

    /// Create a subslice of this slice, over the positions from `start` to `end`.
    ///
    /// This consumes the slice. Because the slice works like a mutable
    /// reference, you can only have one slice over a given subset of a
    /// `RingBuffer` at any one time, so that's just how it's got to be.
    ///
    /// Panics where the range is not within the slice, or where `start` is
    /// excluded; those inputs are left out here.
    pub fn slice(self, start: Bound, end: Bound) -> (r: SliceMut<'a, A, N>)
        requires
            valid_range(start, end, self@.len() as int),
        ensures
            r@ == self@.subrange(start_index(start), end_index(end, self@.len() as int)),
            r.placed(),
            *r.buffer_ref() == *self.buffer_ref(),
            *final(r.buffer_ref()) == *final(self.buffer_ref()),
            r.range_start() == self.range_start() + start_index(start),
            r.range_end() == self.range_start() + end_index(end, self@.len() as int),
    {
        proof {
            use_type_invariant(&self);
        }
        let len = self.len();
        let lo: usize = match start {
            Bound::Included(index) => index,
            Bound::Excluded(index) => index,
            Bound::Unbounded => 0,
        };
        let hi: usize = match end {
            Bound::Included(index) => index + 1,
            Bound::Excluded(index) => index,
            Bound::Unbounded => len,
        };
        let base = self.range.start;
        let ghost items = self@;
        let SliceMut { buffer, range: _ } = self;
        let r = SliceMut { buffer, range: std::ops::Range { start: base + lo, end: base + hi } };
        proof {
            assert(r@ =~= items.subrange(start_index(start), end_index(end, items.len() as int)));
        }
        r
    }

    /// Update the value at index `index`, returning the old value.
    ///
    /// Panics if `index` is out of bounds; that input is left out here.
    pub fn set(&mut self, index: usize, value: A) -> (r: A)
        requires
            index < old(self)@.len(),
        ensures
            *final(final(self).buffer_ref()) == *final(old(self).buffer_ref()),
            old(self).placed(),
            final(self).placed(),
            final(self).range_start() == old(self).range_start(),
            final(self).range_end() == old(self).range_end(),
            r == old(self)@[index as int],
            final(self).buffer_view() == old(self).buffer_view().update(old(self).range_start() + index, value),
            final(self)@ == old(self)@.update(index as int, value),
    {
        proof {
            use_type_invariant(&*self);
        }
        let r = self.buffer.set(self.range.start + index, value);
        proof {
            assert(final(self)@ =~= old(self)@.update(index as int, value));
        }
        r
    }

    /// Construct a new `RingBuffer` by copying the elements in this slice.
    pub fn to_owned(&self) -> (r: RingBuffer<A, N>)
        where
            A: Clone,
        ensures
            r@.len() == self@.len(),
            forall|i: int| 0 <= i < self@.len() ==> cloned::<A>(self@[i], #[trigger] r@[i]),
    {
        proof {
            use_type_invariant(self);
            use_type_invariant(&*self.buffer);
        }
        let len = self.len();
        let mut out: RingBuffer<A, N> = RingBuffer::new();
        let mut i: usize = 0;
        while i < len
            invariant
                i <= len,
                len == self@.len(),
                len <= N,
                out@.len() == i,
                forall|j: int| 0 <= j < i ==> cloned::<A>(self@[j], #[trigger] out@[j]),
            decreases len - i,
        {
            let item = self.index(i).clone();
            out.push_back(item);
            i = i + 1;
        }
        out
    }
}

impl<'a, A, const N: usize> View for SliceMut<'a, A, N> {
    type V = Seq<A>;

    open spec fn view(&self) -> Seq<A> {
        self.contents()
    }
}

impl<'a, A, const N: usize> From<&'a mut RingBuffer<A, N>> for SliceMut<'a, A, N> {
    fn from(buffer: &'a mut RingBuffer<A, N>) -> (r: Self)
        ensures
            r@ == old(buffer)@,
            r.placed(),
            *r.buffer_ref() == *old(buffer),
            *final(r.buffer_ref()) == *final(buffer),
            r.range_start() == 0,
            r.range_end() == old(buffer)@.len(),
    {
        let len = buffer.len();
        let r = SliceMut { range: std::ops::Range { start: 0, end: len }, buffer };
        proof {
            assert(r@ =~= old(buffer)@);
        }
        r
    }
}

impl<'a, A, const N: usize> From<SliceMut<'a, A, N>> for Slice<'a, A, N> {
    fn from(slice: SliceMut<'a, A, N>) -> (r: Self)
        ensures
            r == slice.downgraded(),
            r@ == slice@,
            r.buffer_view() == slice.buffer_view(),
            r.range_start() == slice.range_start(),
            r.range_end() == slice.range_end(),
            *final(slice.buffer_ref()) == *slice.buffer_ref(),
    {
        slice.unmut()
    }
}

/// `from` moves the mutable reference into the slice through a reborrow, so
/// the slice it gives back is not equal, as a value, to any expression over
/// `buffer`: this impl claims nothing through `from_spec`, and the `ensures`
/// of `from` above say what the slice holds and where its writes land.
impl<'a, A, const N: usize> vstd::std_specs::convert::FromSpecImpl<&'a mut RingBuffer<A, N>> for SliceMut<'a, A, N> {
    open spec fn obeys_from_spec() -> bool {
        false
    }

    open spec fn from_spec(buffer: &'a mut RingBuffer<A, N>) -> Self {
        SliceMut::whole(buffer)
    }
}

impl<'a, A, const N: usize> vstd::std_specs::convert::FromSpecImpl<SliceMut<'a, A, N>> for Slice<'a, A, N> {
    open spec fn obeys_from_spec() -> bool {
        true
    }

    open spec fn from_spec(slice: SliceMut<'a, A, N>) -> Self {
        slice.downgraded()
    }
}

/// An iterator over mutable references to the items of a `SliceMut`, in
/// order. Each reference it hands out borrows the iterator.
pub struct IterMut<'b, 'a, A, const N: usize> {
    pub(crate) slice: &'b mut SliceMut<'a, A, N>,
    pub(crate) left_index: usize,
    pub(crate) right_index: usize,
}

impl<'b, 'a, A, const N: usize> IterMut<'b, 'a, A, N> {
    #[verifier::type_invariant]
    closed spec fn inv(&self) -> bool {
        self.left_index <= self.right_index <= self.slice@.len()
    }

    /// The slice that the iterator walks.
    pub closed spec fn slice_ref(&self) -> &'b mut SliceMut<'a, A, N> {
        self.slice
    }

    /// The index in the slice of the front item that is left.
    pub closed spec fn front(&self) -> int {
        self.left_index as int
    }

    /// The index in the slice just past the back item that is left.
    pub closed spec fn back(&self) -> int {
        self.right_index as int
    }

    /// Once an iterator will never be used again, the slice it borrows
    /// ends up holding what the iterator's slice holds now.
    pub proof fn lemma_resolved(it: IterMut<'b, 'a, A, N>)
        requires
            has_resolved(it),
        ensures
            *final(it.slice_ref()) == *it.slice_ref(),
    {
    }

    /// The items that the iterator has yet to hand out, front to back.
    pub closed spec fn remaining_items(&self) -> Seq<A> {
        self.slice@.subrange(self.left_index as int, self.right_index as int)
    }

    /// The number of items left.
    pub fn len(&self) -> (r: usize)
        ensures
            r == self@.len(),
    {
        proof {
            use_type_invariant(self);
        }
        self.right_index - self.left_index
    }

    /// Hands out the front item that is left, or `None` where none is.
    pub fn next(&mut self) -> (r: Option<&mut A>)
        ensures
            *final(final(self).slice_ref()) == *final(old(self).slice_ref()),
            *final(final(self).slice_ref().buffer_ref()) == *final(old(self).slice_ref().buffer_ref()),
            final(self).back() == old(self).back(),
            old(self)@.len() == 0 ==> r is None && final(self)@ == old(self)@
                && *final(self).slice_ref() == *old(self).slice_ref()
                && final(self).front() == old(self).front(),
            old(self)@.len() > 0 ==> r is Some && *r.unwrap() == old(self)@[0]
                && final(self).front() == old(self).front() + 1
                && final(self).slice_ref().range_start() == old(self).slice_ref().range_start()
                && final(self).slice_ref().range_end() == old(self).slice_ref().range_end()
                && final(self).slice_ref().buffer_view() == old(self).slice_ref().buffer_view().update(
                    old(self).slice_ref().range_start() + old(self).front(),
                    *final(r.unwrap()),
                )
                && (*final(self).slice_ref())@ == (*old(self).slice_ref())@.update(old(self).front(), *final(r.unwrap()))
                && final(self)@ == old(self)@.drop_first(),
    {
        proof {
            use_type_invariant(&*self);
            use_type_invariant(&*self.slice);
        }
        if self.left_index == self.right_index {
            return None;
        }
        let i = self.left_index;
        self.left_index = i + 1;
        self.slice.get_mut(i)
    }

    /// Hands out the back item that is left, or `None` where none is.
    pub fn next_back(&mut self) -> (r: Option<&mut A>)
        ensures
            *final(final(self).slice_ref()) == *final(old(self).slice_ref()),
            *final(final(self).slice_ref().buffer_ref()) == *final(old(self).slice_ref().buffer_ref()),
            final(self).front() == old(self).front(),
            old(self)@.len() == 0 ==> r is None && final(self)@ == old(self)@
                && *final(self).slice_ref() == *old(self).slice_ref()
                && final(self).back() == old(self).back(),
            old(self)@.len() > 0 ==> r is Some && *r.unwrap() == old(self)@.last()
                && final(self).back() == old(self).back() - 1
                && final(self).slice_ref().range_start() == old(self).slice_ref().range_start()
                && final(self).slice_ref().range_end() == old(self).slice_ref().range_end()
                && final(self).slice_ref().buffer_view() == old(self).slice_ref().buffer_view().update(
                    old(self).slice_ref().range_start() + old(self).back() - 1,
                    *final(r.unwrap()),
                )
                && (*final(self).slice_ref())@ == (*old(self).slice_ref())@.update(old(self).back() - 1, *final(r.unwrap()))
                && final(self)@ == old(self)@.drop_last(),
    {
        proof {
            use_type_invariant(&*self);
            use_type_invariant(&*self.slice);
        }
        if self.left_index == self.right_index {
            return None;
        }
        let i = self.right_index - 1;
        self.right_index = i;
        self.slice.get_mut(i)
    }
}

impl<'b, 'a, A, const N: usize> View for IterMut<'b, 'a, A, N> {
    type V = Seq<A>;

    open spec fn view(&self) -> Seq<A> {
        self.remaining_items()
    }
}

} // verus!
