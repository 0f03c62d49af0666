use std::cmp::Ordering;

use lib::ring_buffer::{Bound, RingBuffer, Slice, SliceMut};

/// The items 10, 20, 30, 40, 50, stored across the end of the slot array.
fn buffer() -> RingBuffer<i32, 6> {
    let mut b: RingBuffer<i32, 6> = RingBuffer::new();
    for x in [0, 0, 0, 10, 20, 30] {
        b.push_back(x);
    }
    for _ in 0..3 {
        b.pop_front();
    }
    b.push_back(40);
    b.push_back(50);
    b
}

fn slice_items(s: &Slice<'_, i32, 6>) -> Vec<i32> {
    let mut out = Vec::new();
    let mut it = s.iter();
    while let Some(x) = it.next() {
        out.push(*x);
    }
    out
}

fn buffer_items(b: &RingBuffer<i32, 6>) -> Vec<i32> {
    slice_items(&Slice::from(b))
}

#[test]
fn slice_of_whole_buffer() {
    let b = buffer();
    let s = Slice::from(&b);
    assert_eq!(s.len(), 5);
    assert!(!s.is_empty());
    assert_eq!(slice_items(&s), vec![10, 20, 30, 40, 50]);
    assert_eq!(s.first(), Some(&10));
    assert_eq!(s.last(), Some(&50));
    assert_eq!(s.get(2), Some(&30));
    assert_eq!(s.get(5), None);
    assert_eq!(*s.index(4), 50);
}

#[test]
fn empty_slice() {
    let b: RingBuffer<i32, 6> = RingBuffer::new();
    let s = Slice::from(&b);
    assert_eq!(s.len(), 0);
    assert!(s.is_empty());
    assert_eq!(s.first(), None);
    assert_eq!(s.last(), None);
    assert_eq!(s.get(0), None);
    assert_eq!(s.iter().next(), None);
}

#[test]
fn slicing_with_every_kind_of_bound() {
    let b = buffer();
    let s = Slice::from(&b);
    assert_eq!(slice_items(&s.clone().slice(Bound::Unbounded, Bound::Unbounded)), vec![10, 20, 30, 40, 50]);
    assert_eq!(slice_items(&s.clone().slice(Bound::Included(1), Bound::Excluded(3))), vec![20, 30]);
    assert_eq!(slice_items(&s.clone().slice(Bound::Included(1), Bound::Included(3))), vec![20, 30, 40]);
    assert_eq!(slice_items(&s.clone().slice(Bound::Included(3), Bound::Unbounded)), vec![40, 50]);
    assert_eq!(slice_items(&s.clone().slice(Bound::Unbounded, Bound::Excluded(2))), vec![10, 20]);
    assert_eq!(slice_items(&s.clone().slice(Bound::Unbounded, Bound::Included(0))), vec![10]);
    let empty = s.clone().slice(Bound::Included(5), Bound::Unbounded);
    assert!(empty.is_empty());
}

#[test]
fn slice_of_slice_composes_ranges() {
    let b = buffer();
    let s = Slice::from(&b);
    let twice = s.clone().slice(Bound::Included(1), Bound::Excluded(5)).slice(Bound::Included(1), Bound::Excluded(3));
    let once = s.slice(Bound::Included(2), Bound::Excluded(4));
    assert_eq!(slice_items(&twice), vec![30, 40]);
    assert_eq!(slice_items(&twice), slice_items(&once));
}

#[test]
fn split_at_gives_two_halves_that_rejoin() {
    let b = buffer();
    let s = Slice::from(&b);
    let (left, right) = s.clone().split_at(2);
    assert_eq!(slice_items(&left), vec![10, 20]);
    assert_eq!(slice_items(&right), vec![30, 40, 50]);
    let mut joined = slice_items(&left);
    joined.extend(slice_items(&right));
    assert_eq!(joined, slice_items(&s));
    assert_eq!(slice_items(&left), slice_items(&s.clone().slice(Bound::Unbounded, Bound::Excluded(2))));
    assert_eq!(slice_items(&right), slice_items(&s.clone().slice(Bound::Included(2), Bound::Unbounded)));
    let (all, none) = s.clone().split_at(5);
    assert_eq!(all.len(), 5);
    assert!(none.is_empty());
    let (none, all) = s.split_at(0);
    assert!(none.is_empty());
    assert_eq!(all.len(), 5);
}

#[test]
fn iterating_a_subslice_from_both_ends() {
    let b = buffer();
    let s = Slice::from(&b).slice(Bound::Included(1), Bound::Excluded(4));
    let mut it = s.iter();
    assert_eq!(it.len(), 3);
    assert_eq!(it.next_back(), Some(&40));
    assert_eq!(it.next(), Some(&20));
    assert_eq!(it.next(), Some(&30));
    assert_eq!(it.next(), None);
    assert_eq!(it.next_back(), None);
}

#[test]
fn to_owned_copies_the_items() {
    let b = buffer();
    let s = Slice::from(&b).slice(Bound::Included(1), Bound::Included(3));
    let owned = s.to_owned();
    assert_eq!(owned.len(), 3);
    assert_eq!(buffer_items(&owned), vec![20, 30, 40]);
}

#[test]
fn equality_and_ordering() {
    let b = buffer();
    let mut c: RingBuffer<i32, 6> = RingBuffer::new();
    for x in [10, 20, 30, 40, 50] {
        c.push_back(x);
    }
    let s = Slice::from(&b);
    let t = Slice::from(&c);
    assert!(s == t);
    assert!(s == vec![10, 20, 30, 40, 50]);
    assert!(s != vec![10, 20, 30, 40]);
    assert!(s != vec![10, 20, 31, 40, 50]);
    assert_eq!(s.partial_cmp(&t), Some(Ordering::Equal));
    let prefix = t.clone().slice(Bound::Unbounded, Bound::Excluded(3));
    assert!(s != prefix);
    assert_eq!(prefix.partial_cmp(&s), Some(Ordering::Less));
    assert_eq!(s.partial_cmp(&prefix), Some(Ordering::Greater));
    let tail = t.slice(Bound::Included(1), Bound::Unbounded);
    assert_eq!(s.partial_cmp(&tail), Some(Ordering::Less));
    assert!(tail > s);
}

#[test]
fn mutable_slice_reads_like_a_slice() {
    let mut b = buffer();
    let s = SliceMut::from(&mut b);
    assert_eq!(s.len(), 5);
    assert!(!s.is_empty());
    assert_eq!(s.get(1), Some(&20));
    assert_eq!(s.get(5), None);
    assert_eq!(s.first(), Some(&10));
    assert_eq!(s.last(), Some(&50));
    assert_eq!(*s.index(3), 40);
    assert!(s == vec![10, 20, 30, 40, 50]);
    let mut it = s.iter();
    assert_eq!(it.next(), Some(&10));
    assert_eq!(it.next_back(), Some(&50));
    let owned = s.to_owned();
    assert_eq!(buffer_items(&owned), vec![10, 20, 30, 40, 50]);
}

#[test]
fn writes_through_a_mutable_slice_land_in_the_buffer() {
    let mut b = buffer();
    {
        let s = SliceMut::from(&mut b);
        let mut s = s.slice(Bound::Included(1), Bound::Excluded(4));
        assert_eq!(s.set(0, 21), 20);
        assert_eq!(s.get(0), Some(&21));
        if let Some(x) = s.get_mut(1) {
            *x = 31;
        }
        assert_eq!(s.get_mut(3), None);
        if let Some(x) = s.last_mut() {
            *x = 41;
        }
        *s.index_mut(0) += 1;
    }
    assert_eq!(buffer_items(&b), vec![10, 22, 31, 41, 50]);
    {
        let mut s = SliceMut::from(&mut b);
        if let Some(x) = s.first_mut() {
            *x = 11;
        }
    }
    assert_eq!(buffer_items(&b), vec![11, 22, 31, 41, 50]);
}

#[test]
fn set_then_get_reads_what_was_written() {
    let mut b = buffer();
    let mut s = SliceMut::from(&mut b);
    let old = s.set(2, 7);
    assert_eq!(old, 30);
    assert_eq!(s.get(2), Some(&7));
    assert_eq!(s.get(1), Some(&20));
    assert_eq!(s.get(3), Some(&40));
    s.set(2, 8);
    assert_eq!(s.get(2), Some(&8));
}

#[test]
fn empty_mutable_slice() {
    let mut b: RingBuffer<i32, 6> = RingBuffer::new();
    let mut s = SliceMut::from(&mut b);
    assert!(s.is_empty());
    assert_eq!(s.first_mut(), None);
    assert_eq!(s.last_mut(), None);
    assert_eq!(s.iter_mut().next(), None);
}

#[test]
fn iter_mut_visits_every_item_in_order() {
    let mut b = buffer();
    {
        let mut s = SliceMut::from(&mut b).slice(Bound::Included(1), Bound::Unbounded);
        let mut it = s.iter_mut();
        assert_eq!(it.len(), 4);
        let mut k = 1;
        while let Some(x) = it.next() {
            *x += k;
            k += 1;
        }
        assert_eq!(s.len(), 4);
    }
    assert_eq!(buffer_items(&b), vec![10, 21, 32, 43, 54]);
    {
        let mut s = SliceMut::from(&mut b);
        let mut it = s.iter_mut();
        if let Some(x) = it.next_back() {
            *x = 0;
        }
        if let Some(x) = it.next() {
            *x = 1;
        }
    }
    assert_eq!(buffer_items(&b), vec![1, 21, 32, 43, 0]);
}

#[test]
fn downgrading_keeps_the_items() {
    let mut b = buffer();
    let s = SliceMut::from(&mut b).slice(Bound::Included(2), Bound::Unbounded);
    let t = s.unmut();
    assert_eq!(slice_items(&t), vec![30, 40, 50]);
    let mut c = buffer();
    let u: Slice<'_, i32, 6> = SliceMut::from(&mut c).into();
    assert_eq!(slice_items(&u), vec![10, 20, 30, 40, 50]);
}

#[test]
fn mutable_slices_compare_item_by_item() {
    let mut b = buffer();
    let mut c = buffer();
    let s = SliceMut::from(&mut b);
    let t = SliceMut::from(&mut c).slice(Bound::Unbounded, Bound::Excluded(4));
    assert!(s != t);
    assert_eq!(t.partial_cmp(&s), Some(Ordering::Less));
    assert_eq!(s.partial_cmp(&s), Some(Ordering::Equal));
    assert!(s == s);
}

#[test]
fn comparing_with_borrowed_slices() {
    let mut b = buffer();
    let items: &[i32] = &[10, 20, 30, 40, 50];
    let shorter: &[i32] = &[10, 20, 30];
    let other: &[i32] = &[10, 20, 30, 40, 51];
    let s = Slice::from(&b);
    assert!(s == items);
    assert!(s != shorter);
    assert!(s != other);
    assert!(s.clone().slice(Bound::Unbounded, Bound::Excluded(3)) == shorter);
    let m = SliceMut::from(&mut b);
    assert!(m == items);
    assert!(m != other);
}

#[test]
fn setting_back_the_returned_item_restores_the_buffer() {
    let mut b = buffer();
    let before = buffer_items(&b);
    {
        let mut s = SliceMut::from(&mut b).slice(Bound::Included(1), Bound::Unbounded);
        let old = s.set(2, 99);
        assert_eq!(old, 40);
        assert_eq!(s.set(2, old), 99);
    }
    assert_eq!(buffer_items(&b), before);
}

#[test]
fn length_decides_equality_and_emptiness_decides_order_for_any_item_type() {
    let mut b: RingBuffer<f64, 4> = RingBuffer::new();
    b.push_back(1.5);
    b.push_back(f64::NAN);
    let e: RingBuffer<f64, 4> = RingBuffer::new();
    let full = Slice::from(&b);
    let empty = Slice::from(&e);
    assert!(full != empty);
    assert!(full != vec![1.5]);
    assert_eq!(empty.partial_cmp(&Slice::from(&e)), Some(Ordering::Equal));
    assert_eq!(empty.partial_cmp(&full), Some(Ordering::Less));
    assert_eq!(full.partial_cmp(&empty), Some(Ordering::Greater));
}
