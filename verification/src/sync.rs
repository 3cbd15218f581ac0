//! Synchronization primitives that are not queues.

pub mod sema;
