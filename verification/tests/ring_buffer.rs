use lib::ring_buffer::RingBuffer;

fn wrapped() -> RingBuffer<i32, 4> {
    // Leaves the items 3, 4, 5, 6 stored across the end of the slot array.
    let mut b: RingBuffer<i32, 4> = RingBuffer::new();
    b.push_back(1);
    b.push_back(2);
    b.push_back(3);
    assert_eq!(b.pop_front(), Some(1));
    assert_eq!(b.pop_front(), Some(2));
    b.push_back(4);
    b.push_back(5);
    b.push_back(6);
    b
}

fn items<const N: usize>(b: &RingBuffer<i32, N>) -> Vec<i32> {
    let mut out = Vec::new();
    let mut it = b.iter();
    while let Some(x) = it.next() {
        out.push(*x);
    }
    out
}

#[test]
fn new_buffer_is_empty() {
    let b: RingBuffer<i32, 4> = RingBuffer::new();
    assert_eq!(b.len(), 0);
    assert!(b.is_empty());
    assert!(!b.is_full());
    assert_eq!(b.capacity(), 4);
    assert_eq!(b.get(0), None);
}

#[test]
fn zero_capacity_buffer() {
    let mut b: RingBuffer<i32, 0> = RingBuffer::new();
    assert!(b.is_empty());
    assert!(b.is_full());
    assert_eq!(b.pop_front(), None);
    assert_eq!(b.pop_back(), None);
    assert_eq!(b.iter().next(), None);
}

#[test]
fn push_and_pop_at_both_ends() {
    let mut b: RingBuffer<i32, 4> = RingBuffer::new();
    b.push_back(2);
    b.push_front(1);
    b.push_back(3);
    assert_eq!(items(&b), vec![1, 2, 3]);
    assert_eq!(b.pop_back(), Some(3));
    assert_eq!(b.pop_front(), Some(1));
    assert_eq!(items(&b), vec![2]);
    assert_eq!(b.pop_front(), Some(2));
    assert_eq!(b.pop_front(), None);
    assert_eq!(b.pop_back(), None);
}

#[test]
fn items_wrap_around_the_slot_array() {
    let b = wrapped();
    assert!(b.is_full());
    assert_eq!(b.len(), 4);
    assert_eq!(items(&b), vec![3, 4, 5, 6]);
    assert_eq!(b.get(0), Some(&3));
    assert_eq!(b.get(3), Some(&6));
    assert_eq!(b.get(4), None);
    assert_eq!(*b.index(2), 5);
}

#[test]
fn push_front_wraps_below_slot_zero() {
    let mut b: RingBuffer<i32, 3> = RingBuffer::new();
    b.push_front(3);
    b.push_front(2);
    b.push_front(1);
    assert_eq!(items(&b), vec![1, 2, 3]);
    assert_eq!(b.pop_back(), Some(3));
}

#[test]
fn iterating_from_the_back() {
    let b = wrapped();
    let mut it = b.iter();
    assert_eq!(it.len(), 4);
    assert_eq!(it.next_back(), Some(&6));
    assert_eq!(it.next(), Some(&3));
    assert_eq!(it.next_back(), Some(&5));
    assert_eq!(it.len(), 1);
    assert_eq!(it.next_back(), Some(&4));
    assert_eq!(it.next_back(), None);
    assert_eq!(it.next(), None);
}

#[test]
fn set_and_get_mut() {
    let mut b = wrapped();
    assert_eq!(b.set(1, 40), 4);
    if let Some(x) = b.get_mut(3) {
        *x = 60;
    }
    assert_eq!(b.get_mut(4), None);
    assert_eq!(items(&b), vec![3, 40, 5, 60]);
}

#[test]
fn pop_back_undoes_push_back_on_values() {
    let mut b = wrapped();
    b.pop_front();
    let before = items(&b);
    b.push_back(9);
    assert_eq!(b.pop_back(), Some(9));
    assert_eq!(items(&b), before);
}

#[test]
fn pop_front_undoes_push_front_on_values() {
    let mut b = wrapped();
    b.pop_back();
    let before = items(&b);
    b.push_front(9);
    assert_eq!(b.pop_front(), Some(9));
    assert_eq!(items(&b), before);
}
