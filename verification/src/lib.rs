//! Fixed-capacity ring buffers and indexable views of a run of their items.

pub mod ring_buffer;

pub use crate::ring_buffer::RingBuffer;
