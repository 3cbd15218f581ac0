//! The growable blocking queue: insertion never blocks and never fails;
//! only removal blocks.

use crate::monitor::QueueCell;
use crate::queue::RecvErr;
use core::time::Duration;
use vstd::prelude::*;

verus! {

/// A growable blocking queue with no capacity limit on insertion.
///
/// Wakeup policy: since no producer ever blocks, only consumers can be
/// parked, and only an empty-to-non-empty transition can satisfy one of
/// them; a push whose resulting length is exactly 1 therefore notifies
/// exactly one waiter, and every other operation notifies nobody.
#[derive(Debug)]
#[verifier::reject_recursive_types(T)]
pub struct UnboundedQ<T> {
    cell: QueueCell<T>,
}

impl<T> UnboundedQ<T> {
    /// Constructs with a small default reservation.
    pub fn new() -> Self {
        Self::with_capacity(5)
    }

    /// Constructs with empty storage reserved for `cap` elements; the
    /// reservation is a hint, not a bound.
    pub fn with_capacity(cap: usize) -> Self {
        UnboundedQ { cell: QueueCell::new(cap) }
    }

    /// Inserts without ever blocking. Notifies one waiting consumer when
    /// this push took the queue from empty to non-empty.
    pub fn push(&self, ele: T) {
        let became_nonempty = {
            let mut g = self.cell.lock();
            g.push(ele);
            g.len() == 1
        };
        if became_nonempty {
            self.cell.notify_one();
        }
    }

    /// Blocks until an element exists, then removes and returns the most
    /// recently inserted one. Never fails: this is the no-deadline mode of
    /// removal, so no deadline can expire.
    pub fn pop(&self) -> T {
        let mut g = self.cell.lock();
        self.cell.wait_nonempty(&mut g);
        g.pop().unwrap()
    }

    /// Blocks until an element exists, then removes and returns the most
    /// recently inserted one, or reports a timeout once `d` elapses.
    pub fn pop_timeout(&self, d: Duration) -> (r: Result<T, RecvErr>)
        ensures
            r matches Err(e) ==> e == RecvErr::Timeout,
    {
        let mut g = self.cell.lock();
        if self.cell.wait_nonempty_for(&mut g, d) {
            return Err(RecvErr::Timeout);
        }
        Ok(g.pop().unwrap())
    }

    /// A snapshot of the current length; it may be stale as soon as it is
    /// returned, since other threads keep operating on the queue.
    pub fn len(&self) -> usize {
        let g = self.cell.lock();
        g.len()
    }

    /// A snapshot emptiness check, as stale-prone as [`Self::len`].
    pub fn is_empty(&self) -> bool {
        self.len() == 0
    }
}

impl<T> core::default::Default for UnboundedQ<T> {
    /// The default queue starts with the small default reservation.
    fn default() -> Self {
        Self::new()
    }
}

} // verus!
