//! Low-level concurrency primitives: a bounded and an unbounded blocking
//! queue, a counting semaphore with batched acquire and release, and a
//! channel layer that unifies the two queues behind one send/receive
//! interface.

mod algorithm;
pub mod channel;
mod datastruct;
mod list;
mod monitor;
mod queue;
mod shared;
mod sync;

pub use algorithm::bfs::Bfs;
pub use algorithm::bfs::One2Many;
pub use datastruct::BoundedBlockQueue;
pub use list::SortedList;
pub use queue::apply_ops;
pub use queue::bounded::BoundedQ;
pub use queue::lemma_capacity;
pub use queue::lemma_conservation;
pub use queue::lemma_stack_order;
pub use queue::ok_pops;
pub use queue::ok_pushes;
pub use queue::push_allowed;
pub use queue::step;
pub use queue::unbounded::UnboundedQ;
pub use queue::QueueOp;
pub use queue::RecvErr;
pub use queue::SendErr;
pub use shared::Shared;
pub use sync::sema::Sema;
