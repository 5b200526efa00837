//! Synchronisation on atomic memory operations, as a kernel does it.

pub mod atomic_counter;
pub mod atomic_ordering;
