//! The blocking queue pair and the errors their timeout-bounded operations
//! report, together with the sequence model of a queue and the laws that
//! hold of it.
//!
//! Both queues insert and remove at the same end of the protected vector,
//! so delivery is in stack order (last in, first out), not arrival order.

pub mod bounded;
pub mod unbounded;

use vstd::prelude::*;

verus! {

/// A timeout-bounded removal gave up before an element became available.
#[derive(Debug, PartialEq)]
pub enum RecvErr {
    Timeout,
}

/// A timeout-bounded insertion gave up before a slot freed; the element
/// comes back to the caller unchanged.
#[derive(Debug, PartialEq)]
pub enum SendErr<T> {
    Timeout(T),
}

/// One operation against a queue's contents, as it takes effect under the
/// queue's lock: an insertion of a value, or a removal.
pub enum QueueOp<T> {
    Push(T),
    Pop,
}

/// Whether an insertion may take effect on contents `s` under capacity
/// `cap`: a bounded queue (`Some`) insists on a free slot, an unbounded
/// queue (`None`) always has room.
pub open spec fn push_allowed<T>(s: Seq<T>, cap: Option<nat>) -> bool {
    match cap {
        Some(c) => s.len() < c,
        None => true,
    }
}

/// What one operation does to the contents, and whether it took effect.
/// Insertion and removal both work at the back of the sequence — this is
/// what makes delivery stack-ordered — and an operation that may not take
/// effect (a refused insertion, a removal from empty) leaves the contents
/// untouched.
pub open spec fn step<T>(s: Seq<T>, cap: Option<nat>, op: QueueOp<T>) -> (Seq<T>, bool) {
    match op {
        QueueOp::Push(v) => if push_allowed(s, cap) {
            (s.push(v), true)
        } else {
            (s, false)
        },
        QueueOp::Pop => if s.len() > 0 {
            (s.drop_last(), true)
        } else {
            (s, false)
        },
    }
}

/// The contents after a whole sequence of operations has taken effect.
pub open spec fn apply_ops<T>(s: Seq<T>, cap: Option<nat>, ops: Seq<QueueOp<T>>) -> Seq<T>
    decreases ops.len(),
{
    if ops.len() == 0 {
        s
    } else {
        apply_ops(step(s, cap, ops[0]).0, cap, ops.drop_first())
    }
}

/// How many of the operations were insertions that took effect.
pub open spec fn ok_pushes<T>(s: Seq<T>, cap: Option<nat>, ops: Seq<QueueOp<T>>) -> nat
    decreases ops.len(),
{
    if ops.len() == 0 {
        0
    } else {
        (if ops[0] is Push && step(s, cap, ops[0]).1 {
            1nat
        } else {
            0nat
        }) + ok_pushes(step(s, cap, ops[0]).0, cap, ops.drop_first())
    }
}

/// How many of the operations were removals that took effect.
pub open spec fn ok_pops<T>(s: Seq<T>, cap: Option<nat>, ops: Seq<QueueOp<T>>) -> nat
    decreases ops.len(),
{
    if ops.len() == 0 {
        0
    } else {
        (if ops[0] is Pop && step(s, cap, ops[0]).1 {
            1nat
        } else {
            0nat
        }) + ok_pops(step(s, cap, ops[0]).0, cap, ops.drop_first())
    }
}

/// Conservation: after any sequence of insertions and removals, the number
/// of elements resident equals the starting number plus the insertions that
/// took effect minus the removals that took effect. The queue's lock
/// serializes all operations on one queue, so any concurrent history is
/// some such sequence.
pub proof fn lemma_conservation<T>(s: Seq<T>, cap: Option<nat>, ops: Seq<QueueOp<T>>)
    ensures
        apply_ops(s, cap, ops).len() + ok_pops(s, cap, ops) == s.len() + ok_pushes(s, cap, ops),
    decreases ops.len(),
{
    if ops.len() > 0 {
        lemma_conservation(step(s, cap, ops[0]).0, cap, ops.drop_first());
    }
}

/// Capacity invariant: a bounded queue that starts within its capacity
/// stays within it under every sequence of operations, since an insertion
/// takes effect only when a slot is free and a removal only shrinks.
pub proof fn lemma_capacity<T>(s: Seq<T>, c: nat, ops: Seq<QueueOp<T>>)
    requires
        s.len() <= c,
    ensures
        apply_ops(s, Some(c), ops).len() <= c,
    decreases ops.len(),
{
    if ops.len() > 0 {
        lemma_capacity(step(s, Some(c), ops[0]).0, c, ops.drop_first());
    }
}

/// Stack-order delivery: inserting `a` then `b` and then removing twice
/// yields `b` first and `a` second, and leaves the contents as they began.
/// Delivery order is last-in-first-out, not arrival order.
pub proof fn lemma_stack_order<T>(s: Seq<T>, cap: Option<nat>, a: T, b: T)
    requires
        push_allowed(s, cap),
        push_allowed(s.push(a), cap),
    ensures
        ({
            let after_a = step(s, cap, QueueOp::Push(a)).0;
            let after_b = step(after_a, cap, QueueOp::Push(b)).0;
            let after_pop1 = step(after_b, cap, QueueOp::Pop).0;
            let after_pop2 = step(after_pop1, cap, QueueOp::Pop).0;
            &&& step(s, cap, QueueOp::Push(a)).1
            &&& step(after_a, cap, QueueOp::Push(b)).1
            &&& step(after_b, cap, QueueOp::Pop).1
            &&& after_b.last() == b
            &&& step(after_pop1, cap, QueueOp::Pop).1
            &&& after_pop1.last() == a
            &&& after_pop2 == s
        }),
{
    assert(s.push(a).push(b).drop_last() =~= s.push(a));
    assert(s.push(a).drop_last() =~= s);
}

} // verus!
