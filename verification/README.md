# Ring buffer slices, verified

A fixed-capacity ring buffer (`RingBuffer<A, N>`) and indexable views of a
run of its items: `Slice` borrows the buffer shared, `SliceMut` borrows it
mutably. Every function carries a Verus contract over the sequence of items
it sees (`@`), and the proofs check that the code meets it.

Layout of `src/ring_buffer/`:

- `mod.rs`: the buffer, its slot arithmetic and invariant, and `Iter`.
- `slice.rs`: `Bound`, `Slice`, `SliceMut` and `IterMut`.
- `compare.rs`, `order.rs`: item-by-item equality and lexicographic order.
- `laws.rs`: laws that tie the operations together.
