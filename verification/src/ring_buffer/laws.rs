//! Laws that tie the operations of rings buffers and their slices together,
//! stated over the sequences that their contracts speak of.

use vstd::prelude::*;

use super::slice::{end_index, start_index, valid_range, Bound, SliceMut};

verus! {

/// Narrowing a slice by one range and then by a second range, taken within
/// the first, gives the items that narrowing once, by the second range
/// shifted to where the first one starts, gives.
pub proof fn slice_of_slice<A>(items: Seq<A>, outer_start: Bound, outer_end: Bound, inner_start: Bound, inner_end: Bound)
    requires
        valid_range(outer_start, outer_end, items.len() as int),
        valid_range(
            inner_start,
            inner_end,
            end_index(outer_end, items.len() as int) - start_index(outer_start),
        ),
    ensures
        ({
            let lo = start_index(outer_start);
            let hi = end_index(outer_end, items.len() as int);
            let inner = items.subrange(lo, hi);
            inner.subrange(start_index(inner_start), end_index(inner_end, inner.len() as int))
                == items.subrange(lo + start_index(inner_start), lo + end_index(inner_end, inner.len() as int))
        }),
{
    let lo = start_index(outer_start);
    let hi = end_index(outer_end, items.len() as int);
    let inner = items.subrange(lo, hi);
    assert(inner.subrange(start_index(inner_start), end_index(inner_end, inner.len() as int))
        =~= items.subrange(lo + start_index(inner_start), lo + end_index(inner_end, inner.len() as int)));
}

/// Narrowing a slice by the full range `..` leaves its items as they are.
pub proof fn full_range_keeps_items<A>(items: Seq<A>)
    ensures
        valid_range(Bound::Unbounded, Bound::Unbounded, items.len() as int),
        items.subrange(start_index(Bound::Unbounded), end_index(Bound::Unbounded, items.len() as int)) == items,
{
    assert(items.subrange(0, items.len() as int) =~= items);
}

/// Splitting a slice at `index` gives what narrowing it by `..index` and by
/// `index..` gives, and the two halves, put back together, are the slice.
pub proof fn split_is_two_slices<A>(items: Seq<A>, index: usize)
    requires
        index <= items.len(),
    ensures
        valid_range(Bound::Unbounded, Bound::Excluded(index), items.len() as int),
        valid_range(Bound::Included(index), Bound::Unbounded, items.len() as int),
        items.subrange(0, index as int) == items.subrange(
            start_index(Bound::Unbounded),
            end_index(Bound::Excluded(index), items.len() as int),
        ),
        items.subrange(index as int, items.len() as int) == items.subrange(
            start_index(Bound::Included(index)),
            end_index(Bound::Unbounded, items.len() as int),
        ),
        items.subrange(0, index as int) + items.subrange(index as int, items.len() as int) == items,
{
    assert(items.subrange(0, index as int) + items.subrange(index as int, items.len() as int) =~= items);
}

/// After an item is written at `index`, reading `index` gives what was
/// written, every other position reads as before, and the length stays.
pub proof fn read_after_write<A>(before: Seq<A>, index: int, value: A)
    requires
        0 <= index < before.len(),
    ensures
        before.update(index, value).len() == before.len(),
        before.update(index, value)[index] == value,
        forall|j: int| 0 <= j < before.len() && j != index ==> #[trigger] before.update(index, value)[j] == before[j],
{
}

/// Of two writes at the same position, the later one is what stays.
pub proof fn last_write_wins<A>(before: Seq<A>, index: int, first: A, second: A)
    requires
        0 <= index < before.len(),
    ensures
        before.update(index, first).update(index, second) == before.update(index, second),
{
    assert(before.update(index, first).update(index, second) =~= before.update(index, second));
}

/// Writing back the item that a position already holds changes nothing.
pub proof fn write_back_is_identity<A>(before: Seq<A>, index: int)
    requires
        0 <= index < before.len(),
    ensures
        before.update(index, before[index]) == before,
{
    assert(before.update(index, before[index]) =~= before);
}

/// Setting an item of a mutable slice and then setting back the item that
/// the first `set` returned leaves the buffer, and the slice, as they were.
///
/// `between` and `after` are the slice after the first and the second
/// `set`; the requirements are what the `ensures` of `set` give of them.
pub proof fn set_back_undoes_set<'a, A, const N: usize>(
    before: SliceMut<'a, A, N>,
    between: SliceMut<'a, A, N>,
    after: SliceMut<'a, A, N>,
    index: int,
    value: A,
    returned: A,
)
    requires
        before.placed(),
        between.placed(),
        after.placed(),
        0 <= index < before@.len(),
        returned == before@[index],
        between.range_start() == before.range_start(),
        between.range_end() == before.range_end(),
        between.buffer_view() == before.buffer_view().update(before.range_start() + index, value),
        after.range_start() == between.range_start(),
        after.range_end() == between.range_end(),
        after.buffer_view() == between.buffer_view().update(between.range_start() + index, returned),
    ensures
        after.buffer_view() == before.buffer_view(),
        after@ == before@,
{
    let p = before.range_start() + index;
    assert(before.buffer_view()[p] == returned);
    assert(after.buffer_view() =~= before.buffer_view());
}

/// Pushing an item at the back and popping from the back gives the item
/// back and leaves the buffer as it was.
pub proof fn pop_back_undoes_push_back<A>(before: Seq<A>, value: A)
    ensures
        before.push(value).last() == value,
        before.push(value).drop_last() == before,
{
    assert(before.push(value).drop_last() =~= before);
}

/// Pushing an item at the front and popping from the front gives the item
/// back and leaves the buffer as it was.
pub proof fn pop_front_undoes_push_front<A>(before: Seq<A>, value: A)
    ensures
        (seq![value] + before)[0] == value,
        (seq![value] + before).drop_first() == before,
{
    assert((seq![value] + before).drop_first() =~= before);
}

} // verus!
