//! A cloneable, reference-counted handle around any of the crate's
//! primitives: one generic wrapper in place of per-type shared variants.

use crate::monitor::arc_clone;
use std::sync::Arc;
use vstd::prelude::*;

verus! {

/// A shared-ownership handle to a value of any of the crate's primitive
/// types. Cloning increases the share count of the one wrapped value and
/// never duplicates it; the wrapped value lives as long as any handle.
#[derive(Debug)]
pub struct Shared<T>(Arc<T>);

impl<T> Shared<T> {
    /// The wrapped value.
    pub closed spec fn inner_spec(&self) -> T {
        *self.0
    }

    /// Wraps an already-constructed value.
    pub fn from_value(v: T) -> (s: Self)
        ensures
            s.inner_spec() == v,
    {
        Shared(Arc::new(v))
    }

    /// Borrows the one shared value, to operate on it.
    pub fn inner(&self) -> (r: &T)
        ensures
            *r == self.inner_spec(),
    {
        &*self.0
    }
}

impl<T: Default> Shared<T> {
    /// Constructs the wrapped value from its type's default.
    pub fn new() -> (s: Self)
        ensures
            T::default.ensures((), s.inner_spec()),
    {
        Shared(Arc::new(T::default()))
    }
}

impl<T> Clone for Shared<T> {
    /// The clone is another handle to the very same value.
    fn clone(&self) -> (r: Self)
        ensures
            r == *self,
    {
        Shared(arc_clone(&self.0))
    }
}

} // verus!
