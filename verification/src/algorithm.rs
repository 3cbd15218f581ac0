//! Parallel algorithm helpers, reserved for future work.

pub mod bfs;
