//! The trusted boundary around `parking_lot`.
//!
//! A monitor is one mutex paired with one condition variable. Two shapes are
//! used here: a cell protecting a growable vector (the queues) and a cell
//! protecting a signed counter (the semaphore). Everything the rest of the
//! crate does under a lock goes through the operations below; each one wraps
//! a single `parking_lot` or `Vec` call and states exactly what that call
//! does to the protected data, tracked by the ghost model carried in the
//! guard. Locking yields a guard whose contents are unknown: between two
//! lock acquisitions any other thread may have changed the protected data.
//!
//! The blocking waits use `parking_lot`'s `wait_while` family, whose source
//! re-checks the predicate in a loop after every wakeup (so a spurious
//! wakeup, or one meant for the opposite predicate on the shared condition
//! variable, never ends a wait early) and computes the deadline once, so a
//! timeout-bounded wait never exceeds the caller's budget across wakeups.
//! The predicates handed to `wait_while` only call the verified predicate
//! functions defined at the bottom of this file.
//!
//! `parking_lot::Condvar` panics when two threads wait on it with guards of
//! two different mutexes; every wait below therefore requires that the guard
//! was taken from the very cell whose condition variable it parks on, which
//! each guard records in ghost state.

use core::time::Duration;
use parking_lot::Condvar;
use parking_lot::Mutex;
use parking_lot::MutexGuard;
use std::sync::Arc;
use vstd::prelude::*;

verus! {

/// Relies on `Arc::clone`: the clone is another handle to the same
/// allocation, so it dereferences to the very same value.
#[verifier::external_body]
pub(crate) fn arc_clone<T>(v: &Arc<T>) -> (r: Arc<T>)
    ensures
        r == *v,
{
    Arc::clone(v)
}

/// One mutex protecting a vector, and the condition variable used for both
/// "became non-empty" and "became non-full" signaling.
#[derive(Debug)]
#[verifier::external_body]
#[verifier::reject_recursive_types(T)]
pub(crate) struct QueueCell<T> {
    m: Mutex<Vec<T>>,
    c: Condvar,
}

#[verifier::external_body]
#[verifier::reject_recursive_types(T)]
struct VecGuard<'a, T> {
    g: MutexGuard<'a, Vec<T>>,
}

/// A held lock on a [`QueueCell`]. Its view is the protected vector's
/// contents; while the guard is held no other thread can change them, so
/// the view is stable between the operations below.
#[verifier::reject_recursive_types(T)]
pub(crate) struct Locked<'a, T> {
    raw: VecGuard<'a, T>,
    owner: Ghost<&'a QueueCell<T>>,
    contents: Ghost<Seq<T>>,
}

impl<'a, T> Locked<'a, T> {
    /// The cell this guard was taken from.
    pub(crate) closed spec fn cell(&self) -> QueueCell<T> {
        *self.owner@
    }

    /// Relies on `Vec::len`, read through the `parking_lot` guard.
    #[verifier::external_body]
    pub(crate) fn len(&self) -> (n: usize)
        ensures
            n == self@.len(),
    {
        self.raw.g.len()
    }

    /// Relies on `Vec::push`, applied through the `parking_lot` guard:
    /// appends the element at the back of the protected vector.
    #[verifier::external_body]
    pub(crate) fn push(&mut self, v: T)
        ensures
            final(self)@ == old(self)@.push(v),
            final(self).cell() == old(self).cell(),
    {
        self.raw.g.push(v)
    }

    /// Relies on `Vec::pop`, applied through the `parking_lot` guard:
    /// removes and returns the back element, or `None` when empty.
    #[verifier::external_body]
    pub(crate) fn pop(&mut self) -> (r: Option<T>)
        ensures
            old(self)@.len() > 0 ==> r == Some(old(self)@.last()) && final(self)@ == old(
                self,
            )@.drop_last(),
            old(self)@.len() == 0 ==> r == None::<T> && final(self)@ == old(self)@,
            final(self).cell() == old(self).cell(),
    {
        self.raw.g.pop()
    }
}

impl<'a, T> View for Locked<'a, T> {
    type V = Seq<T>;

    closed spec fn view(&self) -> Seq<T> {
        self.contents@
    }
}

impl<T> QueueCell<T> {
    /// Relies on `parking_lot::Mutex::new`, `parking_lot::Condvar::new` and
    /// `Vec::with_capacity`: a fresh cell around an empty vector.
    #[verifier::external_body]
    pub(crate) fn new(cap: usize) -> (cell: Self) {
        QueueCell { m: Mutex::new(Vec::with_capacity(cap)), c: Condvar::new() }
    }

    /// Relies on `parking_lot::Mutex::lock`. The contents found under the
    /// lock are whatever other threads left there: nothing is known of them.
    #[verifier::external_body]
    pub(crate) fn lock<'a>(&'a self) -> (g: Locked<'a, T>)
        ensures
            g.cell() == *self,
    {
        Locked {
            raw: VecGuard { g: self.m.lock() },
            owner: Ghost(arbitrary()),
            contents: Ghost(arbitrary()),
        }
    }

    /// Relies on `parking_lot::Condvar::wait_while`: parks until the
    /// predicate is false, re-checking it under the lock after every wakeup,
    /// so on return the vector holds fewer than `cap` elements.
    #[verifier::external_body]
    pub(crate) fn wait_space(&self, g: &mut Locked<T>, cap: usize)
        requires
            old(g).cell() == *self,
        ensures
            final(g).cell() == *self,
            final(g)@.len() < cap,
    {
        self.c.wait_while(&mut g.raw.g, |v: &mut Vec<T>| vec_at_capacity(v, cap));
    }

    /// Relies on `parking_lot::Condvar::wait_while_for`: as [`Self::wait_space`],
    /// but gives up once `d` has elapsed, in which case nothing is known of
    /// the contents. `parking_lot` turns `d` into one deadline up front, and
    /// a `d` too large for the clock (such as `Duration::MAX`) into no
    /// deadline at all, so the wait never exceeds the budget and an
    /// effectively infinite budget never expires.
    #[verifier::external_body]
    pub(crate) fn wait_space_for(&self, g: &mut Locked<T>, cap: usize, d: Duration) -> (timed_out:
        bool)
        requires
            old(g).cell() == *self,
        ensures
            final(g).cell() == *self,
            !timed_out ==> final(g)@.len() < cap,
    {
        self.c.wait_while_for(&mut g.raw.g, |v: &mut Vec<T>| vec_at_capacity(v, cap), d).timed_out()
    }

    /// Relies on `parking_lot::Condvar::wait_while`: parks until the vector
    /// is non-empty, re-checking under the lock after every wakeup.
    #[verifier::external_body]
    pub(crate) fn wait_nonempty(&self, g: &mut Locked<T>)
        requires
            old(g).cell() == *self,
        ensures
            final(g).cell() == *self,
            final(g)@.len() > 0,
    {
        self.c.wait_while(&mut g.raw.g, |v: &mut Vec<T>| vec_is_empty(v));
    }

    /// Relies on `parking_lot::Condvar::wait_while_for`: as
    /// [`Self::wait_nonempty`], but gives up once `d` has elapsed; see
    /// [`Self::wait_space_for`] for how the deadline is handled.
    #[verifier::external_body]
    pub(crate) fn wait_nonempty_for(&self, g: &mut Locked<T>, d: Duration) -> (timed_out: bool)
        requires
            old(g).cell() == *self,
        ensures
            final(g).cell() == *self,
            !timed_out ==> final(g)@.len() > 0,
    {
        self.c.wait_while_for(&mut g.raw.g, |v: &mut Vec<T>| vec_is_empty(v), d).timed_out()
    }

    /// Relies on `parking_lot::Condvar::notify_one`: wakes at most one
    /// waiting thread.
    #[verifier::external_body]
    pub(crate) fn notify_one(&self) {
        self.c.notify_one();
    }

    /// Relies on `parking_lot::Condvar::notify_all`: wakes every waiting
    /// thread.
    #[verifier::external_body]
    pub(crate) fn notify_all(&self) {
        self.c.notify_all();
    }
}

/// One mutex protecting a signed counter, and one condition variable.
#[derive(Debug)]
#[verifier::external_body]
pub(crate) struct CountCell {
    m: Mutex<i64>,
    c: Condvar,
}

#[verifier::external_body]
struct CountGuard<'a> {
    g: MutexGuard<'a, i64>,
}

/// A held lock on a [`CountCell`]. Its view is the protected counter.
pub(crate) struct CountLocked<'a> {
    raw: CountGuard<'a>,
    owner: Ghost<&'a CountCell>,
    value: Ghost<i64>,
}

impl<'a> CountLocked<'a> {
    /// The cell this guard was taken from.
    pub(crate) closed spec fn cell(&self) -> CountCell {
        *self.owner@
    }

    /// Relies on reading the counter through the `parking_lot` guard.
    #[verifier::external_body]
    pub(crate) fn get(&self) -> (n: i64)
        ensures
            n == self@,
    {
        *self.raw.g
    }

    /// Relies on writing the counter through the `parking_lot` guard.
    #[verifier::external_body]
    pub(crate) fn set(&mut self, n: i64)
        ensures
            final(self)@ == n,
            final(self).cell() == old(self).cell(),
    {
        *self.raw.g = n;
    }
}

impl<'a> View for CountLocked<'a> {
    type V = i64;

    closed spec fn view(&self) -> i64 {
        self.value@
    }
}

impl CountCell {
    /// Relies on `parking_lot::Mutex::new` and `parking_lot::Condvar::new`.
    #[verifier::external_body]
    pub(crate) fn new(v: i64) -> (cell: Self) {
        CountCell { m: Mutex::new(v), c: Condvar::new() }
    }

    /// Relies on `parking_lot::Mutex::lock`. The counter found under the
    /// lock is whatever other threads left there: nothing is known of it.
    #[verifier::external_body]
    pub(crate) fn lock<'a>(&'a self) -> (g: CountLocked<'a>)
        ensures
            g.cell() == *self,
    {
        CountLocked {
            raw: CountGuard { g: self.m.lock() },
            owner: Ghost(arbitrary()),
            value: Ghost(arbitrary()),
        }
    }

    /// Relies on `parking_lot::Condvar::wait_while`: parks until the counter
    /// reaches at least `n`, re-checking under the lock after every wakeup.
    #[verifier::external_body]
    pub(crate) fn wait_at_least(&self, g: &mut CountLocked, n: i64)
        requires
            old(g).cell() == *self,
        ensures
            final(g).cell() == *self,
            final(g)@ >= n,
    {
        self.c.wait_while(&mut g.raw.g, |v: &mut i64| count_below(v, n));
    }

    /// Relies on `parking_lot::Condvar::notify_all`: wakes every waiting
    /// thread.
    #[verifier::external_body]
    pub(crate) fn notify_all(&self) {
        self.c.notify_all();
    }
}

/// The predicate a producer waits on: the vector has no free slot below `cap`.
pub(crate) fn vec_at_capacity<T>(v: &Vec<T>, cap: usize) -> (r: bool)
    ensures
        r == (v@.len() >= cap),
{
    v.len() >= cap
}

/// The predicate a consumer waits on: the vector holds nothing.
pub(crate) fn vec_is_empty<T>(v: &Vec<T>) -> (r: bool)
    ensures
        r == (v@.len() == 0),
{
    v.len() == 0
}

/// The predicate an acquirer waits on: fewer than `n` permits are available.
pub(crate) fn count_below(c: &i64, n: i64) -> (r: bool)
    ensures
        r == (*c < n),
{
    *c < n
}

} // verus!
