//! The abstract contract of a fixed-capacity blocking queue, with
//! infinite-deadline operations only.

use crate::queue::bounded::BoundedQ;
use vstd::prelude::*;

verus! {

/// A fixed-capacity blocking queue: insertion blocks while full, removal
/// blocks while empty, and neither ever fails.
pub trait BoundedBlockQueue<T>: Sized {
    /// Constructs with room for `cap` elements.
    fn new(cap: usize) -> Self;

    /// Inserts, blocking until a slot is free.
    fn enqueue(&self, ele: T);

    /// Removes and returns an element, blocking until one exists.
    fn dequeue(&self) -> T;

    /// A snapshot of the current length.
    fn len(&self) -> usize;

    /// A snapshot emptiness check.
    fn is_empty(&self) -> bool {
        self.len() == 0
    }
}

impl<T> BoundedBlockQueue<T> for BoundedQ<T> {
    fn new(cap: usize) -> (q: Self)
        ensures
            q.capacity() == cap,
    {
        BoundedQ::new(cap)
    }

    fn enqueue(&self, ele: T) {
        self.push(ele)
    }

    fn dequeue(&self) -> T {
        self.pop()
    }

    fn len(&self) -> (n: usize)
        ensures
            n <= self.capacity(),
    {
        BoundedQ::len(self)
    }
}

} // verus!
