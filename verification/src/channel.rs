//! The channel abstraction: a Sender/Receiver pair over a shared queue.
//!
//! The traits here are the seam a foreign backend can plug into: any
//! implementation offering bounded and unbounded construction, a
//! timeout-capable send, a timeout-capable receive and a length snapshot
//! can substitute for the built-in queues without changing caller code.

pub mod mpmc;

use core::time::Duration;
use vstd::prelude::*;

verus! {

/// A factory for a multi-producer, multi-consumer channel: both handles
/// are independently cloneable and operate on one shared backend.
pub trait MpmcChannel<T> {
    type S: Sender<T> + Clone;

    type R: Receiver<T> + Clone;

    /// A channel over a fixed-capacity backend: sending can block.
    fn bounded(cap: usize) -> (Self::S, Self::R);

    /// A channel over a growable backend: sending never blocks.
    fn unbounded() -> (Self::S, Self::R);
}

/// The producing half of a channel.
pub trait Sender<T> {
    type SendErr;

    type SendTimeoutErr;

    /// Hands `msg` to the backend, blocking as long as the backend needs.
    fn send(&self, msg: T) -> Result<(), Self::SendErr>;

    /// Hands `msg` to the backend, giving up once `d` elapses.
    fn send_timeout(&self, msg: T, d: Duration) -> Result<(), Self::SendTimeoutErr>;
}

/// The consuming half of a channel.
pub trait Receiver<T> {
    type RecvErr;

    type RecvTimeoutErr;

    /// Takes an element from the backend, blocking until one exists.
    fn recv(&self) -> Result<T, Self::RecvErr>;

    /// Takes an element from the backend, giving up once `d` elapses.
    fn recv_timeout(&self, d: Duration) -> Result<T, Self::RecvTimeoutErr>;
}

/// A snapshot length, shared by both halves of a channel.
pub trait Len {
    /// How many elements the backend holds right now; the value may be
    /// stale as soon as it is returned.
    fn len(&self) -> usize;

    /// Whether the backend holds nothing right now, as stale-prone as
    /// [`Self::len`].
    fn is_empty(&self) -> bool {
        self.len() == 0
    }
}

} // verus!
