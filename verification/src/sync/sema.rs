//! A counting semaphore with batched (multi-permit) acquire and release.

use crate::monitor::CountCell;
use vstd::prelude::*;

verus! {

/// A counting semaphore. Permits are a pure counter without identity:
/// acquire and release need not be balanced by the same thread. The count
/// may start, and transiently go, negative; a negative start represents a
/// pre-existing deficit.
///
/// Notification policy: a release broadcast-wakes all waiters only when the
/// resulting count is strictly positive; when it stays at or below zero no
/// waiter could possibly be satisfied, so nobody is woken. A forced reset
/// deliberately notifies nobody; a caller relying on a reset to unblock
/// waiters must release separately.
#[derive(Debug)]
pub struct Sema {
    cell: CountCell,
    origin: i64,
}

impl Sema {
    /// The permit count fixed at construction, which [`Self::reset`]
    /// restores.
    pub closed spec fn initial(&self) -> i64 {
        self.origin
    }

    /// Constructs with both the current and the remembered initial count
    /// set to `permits`.
    pub fn new(permits: i64) -> (s: Self)
        ensures
            s.initial() == permits,
    {
        Sema { cell: CountCell::new(permits), origin: permits }
    }

    /// Blocks until at least `permits` permits are available, then takes
    /// them in one atomic step with the check.
    pub fn acquiren(&self, permits: u32) {
        let p = permits as i64;
        let mut g = self.cell.lock();
        self.cell.wait_at_least(&mut g, p);
        let have = g.get();
        g.set(have - p);
    }

    /// Adds `permits` permits, saturating at the counter's ceiling, and
    /// broadcast-wakes all waiters only if the resulting count is strictly
    /// positive.
    pub fn releasen(&self, permits: u32) {
        let p = permits as i64;
        let woke = {
            let mut g = self.cell.lock();
            let have = g.get();
            let next: i64 = if have > i64::MAX - p {
                i64::MAX
            } else {
                have + p
            };
            g.set(next);
            next > 0
        };
        if woke {
            self.cell.notify_all();
        }
    }

    /// Takes one permit, blocking until one is available.
    pub fn acquire(&self) {
        self.acquiren(1);
    }

    /// Returns one permit.
    pub fn release(&self) {
        self.releasen(1);
    }

    /// A signed convenience: a negative argument acquires that many
    /// permits, a positive one releases that many, zero does nothing.
    pub fn set(&self, permits: i32) {
        if permits < 0 {
            let n: u32 = (-(permits as i64)) as u32;
            self.acquiren(n);
        } else if permits > 0 {
            self.releasen(permits as u32);
        }
    }

    /// A snapshot of the current count; it may be stale as soon as it is
    /// returned, since other threads keep operating on the semaphore.
    pub fn available(&self) -> i64 {
        let g = self.cell.lock();
        g.get()
    }

    /// Forcibly sets the count back to the initial value, regardless of any
    /// permits outstanding. Notifies nobody.
    pub fn reset(&self) {
        let mut g = self.cell.lock();
        g.set(self.origin);
    }

    /// Forcibly sets the count to `permits`, regardless of any permits
    /// outstanding. Notifies nobody.
    pub fn reset_permits(&self, permits: i64) {
        let mut g = self.cell.lock();
        g.set(permits);
    }
}

impl core::default::Default for Sema {
    /// The default semaphore starts with no permits.
    fn default() -> (s: Self)
        ensures
            s.initial() == 0,
    {
        Self::new(0)
    }
}

} // verus!
