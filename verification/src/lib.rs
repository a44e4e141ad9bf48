//! Single-owner synchronization primitives: a single-slot value cell, a
//! two-state mutual-exclusion wrapper whose guard must be handed back to
//! release it, and a LIFO channel built on top of the mutex.

pub mod cell;
pub mod channels;
pub mod mutex;
