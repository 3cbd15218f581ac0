//! A parallel helper for breadth-first traversal of graph-like data,
//! reserved for future work.

use vstd::prelude::*;

verus! {

/// The traversal driver; its operations are still to come.
pub struct Bfs {}

/// Turns one node into the many nodes reachable from it in one step.
pub trait One2Many<T> {
    type Many: Iterator<Item = T>;

    /// The nodes one step away, to be visited next.
    fn convert(&mut self) -> Self::Many;
}

} // verus!
