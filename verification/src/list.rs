//! A sorted doubly-linked list, reserved for future work: the shape of the
//! data is laid down, no behavior yet.

use vstd::prelude::*;

verus! {

/// A sorted list of elements; construction and traversal are still to come.
#[allow(dead_code)]
pub struct SortedList<T> {
    len: u32,
    head: Link<T>,
}

type Link<T> = Option<Box<Node<T>>>;

#[allow(dead_code)]
struct Node<T> {
    val: T,
    prev: Link<T>,
    next: Link<T>,
}

} // verus!
