//! The built-in channel: a Sender/Receiver pair over one shared,
//! reference-counted queue, bounded or unbounded, chosen at construction.

use crate::channel::Len;
use crate::channel::MpmcChannel;
use crate::monitor::arc_clone;
use crate::queue::bounded::BoundedQ;
use crate::queue::unbounded::UnboundedQ;
use crate::queue::RecvErr;
use crate::queue::SendErr;
use core::marker::PhantomData;
use core::time::Duration;
use std::sync::Arc;
use vstd::prelude::*;

verus! {

/// The factory for channels backed by the crate's own blocking queues.
#[derive(Debug, Default)]
pub struct DefaultChannel<T>(PhantomData<T>);

/// The producing half of a [`DefaultChannel`] channel. Cloning yields
/// another handle to the very same queue, never a second queue.
#[derive(Debug)]
#[verifier::reject_recursive_types(T)]
pub struct Sender<T>(Inner<T>);

/// The consuming half of a [`DefaultChannel`] channel. Cloning yields
/// another handle to the very same queue, never a second queue.
#[derive(Debug)]
#[verifier::reject_recursive_types(T)]
pub struct Receiver<T>(Inner<T>);

/// The shared backend handle: a reference-counted bounded or unbounded
/// queue. All clones of all halves dispatch to this one queue.
#[derive(Debug)]
#[verifier::reject_recursive_types(T)]
enum Inner<T> {
    Bounded(Arc<BoundedQ<T>>),
    Unbounded(Arc<UnboundedQ<T>>),
}

/// Whether the two halves hold one and the same backend handle, and so
/// dispatch every operation to one shared queue.
pub closed spec fn linked<T>(tx: &Sender<T>, rx: &Receiver<T>) -> bool {
    tx.0 == rx.0
}

/// The capacity of the backend this sending half dispatches to: `Some` of
/// the bounded queue's fixed capacity, `None` for the unbounded backend.
pub closed spec fn sender_capacity<T>(tx: &Sender<T>) -> Option<usize> {
    match tx.0 {
        Inner::Bounded(q) => Some(q.capacity()),
        Inner::Unbounded(_) => None,
    }
}

/// The capacity of the backend this consuming half dispatches to: `Some`
/// of the bounded queue's fixed capacity, `None` for the unbounded backend.
pub closed spec fn receiver_capacity<T>(rx: &Receiver<T>) -> Option<usize> {
    match rx.0 {
        Inner::Bounded(q) => Some(q.capacity()),
        Inner::Unbounded(_) => None,
    }
}

/// Shared-handle consistency: clones of the two halves of one channel are
/// handles to the same shared backend as the halves they were cloned from,
/// so state observed through any of them is the state of that one queue.
/// The `Clone` implementations below ensure a clone equals the handle it
/// was cloned from, which is what the premises ask.
pub proof fn lemma_clones_stay_linked<T>(
    tx: &Sender<T>,
    rx: &Receiver<T>,
    tx2: &Sender<T>,
    rx2: &Receiver<T>,
)
    requires
        linked(tx, rx),
        *tx2 == *tx,
        *rx2 == *rx,
    ensures
        linked(tx2, rx),
        linked(tx, rx2),
        linked(tx2, rx2),
{
}

impl<T> MpmcChannel<T> for DefaultChannel<T> {
    type S = Sender<T>;

    type R = Receiver<T>;

    fn bounded(cap: usize) -> (r: (Sender<T>, Receiver<T>))
        ensures
            linked(&r.0, &r.1),
            sender_capacity(&r.0) == Some(cap),
            receiver_capacity(&r.1) == Some(cap),
    {
        let q = Arc::new(BoundedQ::new(cap));
        let q2 = arc_clone(&q);
        (Sender(Inner::Bounded(q2)), Receiver(Inner::Bounded(q)))
    }

    fn unbounded() -> (r: (Sender<T>, Receiver<T>))
        ensures
            linked(&r.0, &r.1),
            sender_capacity(&r.0) is None,
            receiver_capacity(&r.1) is None,
    {
        let q = Arc::new(UnboundedQ::new());
        let q2 = arc_clone(&q);
        (Sender(Inner::Unbounded(q2)), Receiver(Inner::Unbounded(q)))
    }
}

impl<T> crate::channel::Sender<T> for Sender<T> {
    type SendErr = SendErr<T>;

    type SendTimeoutErr = SendErr<T>;

    fn send(&self, msg: T) -> (r: Result<(), SendErr<T>>)
        ensures
            r is Ok,
    {
        self.0.send(msg)
    }

    fn send_timeout(&self, msg: T, d: Duration) -> (r: Result<(), SendErr<T>>)
        ensures
            r matches Err(e) ==> e == SendErr::Timeout(msg),
            sender_capacity(self) is None ==> r is Ok,
            sender_capacity(self) == Some(0usize) ==> r is Err,
    {
        self.0.send_timeout(msg, d)
    }
}

impl<T> crate::channel::Receiver<T> for Receiver<T> {
    type RecvErr = RecvErr;

    type RecvTimeoutErr = RecvErr;

    fn recv(&self) -> (r: Result<T, RecvErr>)
        ensures
            r is Ok,
    {
        self.0.recv()
    }

    fn recv_timeout(&self, d: Duration) -> (r: Result<T, RecvErr>)
        ensures
            r matches Err(e) ==> e == RecvErr::Timeout,
    {
        self.0.recv_timeout(d)
    }
}

impl<T> Len for Sender<T> {
    /// The shared queue's length snapshot; for a bounded backend it never
    /// exceeds that backend's capacity.
    fn len(&self) -> (n: usize)
        ensures
            sender_capacity(self) matches Some(c) ==> n <= c,
    {
        self.0.len()
    }
}

impl<T> Len for Receiver<T> {
    /// The shared queue's length snapshot; for a bounded backend it never
    /// exceeds that backend's capacity.
    fn len(&self) -> (n: usize)
        ensures
            receiver_capacity(self) matches Some(c) ==> n <= c,
    {
        self.0.len()
    }
}

impl<T> Inner<T> {
    /// A blocking insert: can block for a bounded backend, never for an
    /// unbounded one; either way it cannot fail.
    fn send(&self, ele: T) -> (r: Result<(), SendErr<T>>)
        ensures
            r matches Ok(u) && u == (),
    {
        match self {
            Inner::Bounded(b) => b.push(ele),
            Inner::Unbounded(u) => u.push(ele),
        }
        Ok(())
    }

    /// A timeout-bounded insert. An unbounded backend inserts immediately
    /// whatever the budget, so only a bounded backend can report a timeout,
    /// and a timeout hands the message back unchanged.
    fn send_timeout(&self, ele: T, d: Duration) -> (r: Result<(), SendErr<T>>)
        ensures
            r matches Err(e) ==> e == SendErr::Timeout(ele),
            self is Unbounded ==> (r matches Ok(u) && u == ()),
            (self matches Inner::Bounded(q) && q.capacity() == 0) ==> r is Err,
    {
        match self {
            Inner::Bounded(b) => b.push_timeout(ele, d),
            Inner::Unbounded(u) => {
                u.push(ele);
                Ok(())
            },
        }
    }

    /// A blocking removal: blocks until an element exists, then cannot fail.
    fn recv(&self) -> (r: Result<T, RecvErr>)
        ensures
            r is Ok,
    {
        match self {
            Inner::Bounded(b) => Ok(b.pop()),
            Inner::Unbounded(u) => Ok(u.pop()),
        }
    }

    /// A timeout-bounded removal, identical for either backend.
    fn recv_timeout(&self, d: Duration) -> (r: Result<T, RecvErr>)
        ensures
            r matches Err(e) ==> e == RecvErr::Timeout,
    {
        match self {
            Inner::Bounded(b) => b.pop_timeout(d),
            Inner::Unbounded(u) => u.pop_timeout(d),
        }
    }

    /// The shared queue's length snapshot; bounded by the backend's
    /// capacity when the backend is bounded.
    fn len(&self) -> (n: usize)
        ensures
            self matches Inner::Bounded(q) ==> n <= q.capacity(),
    {
        match self {
            Inner::Bounded(b) => b.len(),
            Inner::Unbounded(u) => u.len(),
        }
    }
}

impl<T> Clone for Inner<T> {
    /// The clone is a handle to the same queue: its value, and so the queue
    /// it dispatches to, is exactly this handle's.
    fn clone(&self) -> (r: Self)
        ensures
            r == *self,
    {
        match self {
            Inner::Bounded(q) => Inner::Bounded(arc_clone(q)),
            Inner::Unbounded(q) => Inner::Unbounded(arc_clone(q)),
        }
    }
}

impl<T> Clone for Sender<T> {
    /// The clone observes and feeds the very same shared queue.
    fn clone(&self) -> (r: Self)
        ensures
            r == *self,
    {
        Sender(self.0.clone())
    }
}

impl<T> Clone for Receiver<T> {
    /// The clone observes and drains the very same shared queue.
    fn clone(&self) -> (r: Self)
        ensures
            r == *self,
    {
        Receiver(self.0.clone())
    }
}

} // verus!
