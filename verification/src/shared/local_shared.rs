//! The capability over a value that lives on one thread.

use super::callable_on_all;
use super::exclusive;
use super::exclusive_with;
use super::outcome_of;
use super::Busy;
use super::Shared;
use std::cell::RefCell;
use std::rc::Rc;
use vstd::prelude::*;

verus! {

/// A reference-counted handle to a value, which can be reached only through
/// [`Shared::with`]. Clones reach the same value.
#[verifier::reject_recursive_types(T)]
pub struct LocalShared<T> {
    cell: Rc<RefCell<T>>,
    origin: Ghost<Rc<T>>,
}

impl<T> LocalShared<T> {
    /// The value that the capability was made over. What is behind the
    /// capability later is what the accesses since then have left.
    pub closed spec fn origin(&self) -> T {
        *self.origin@
    }

    /// Both handles reach one and the same value.
    pub closed spec fn same_value(&self, other: &LocalShared<T>) -> bool {
        self.cell == other.cell && self.origin@ == other.origin@
    }

    /// A capability over `inner`, held by this one handle.
    pub fn new(inner: T) -> (shared: Self)
        ensures
            shared.origin() == inner,
    {
        let ghost origin = Rc::new(inner);
        LocalShared { cell: Rc::new(RefCell::new(inner)), origin: Ghost(origin) }
    }

    /// As [`Shared::with`], through a shared reference to the handle.
    pub fn access<R, F: FnOnce(&mut T) -> R>(&self, f: F) -> (r: Option<R>)
        requires
            callable_on_all::<T, R, F>(f),
        ensures
            r matches Some(v) ==> outcome_of::<T, R, F>(f, v),
    {
        exclusive(&*self.cell, f)
    }

    /// As [`LocalShared::access`], for a callback that also works on `arg`:
    /// something that has to come back if the value is in use, or a mutable
    /// reference, which the callback cannot capture.
    pub fn access_with<A, R, F: FnOnce(&mut T, A) -> R>(&self, arg: A, f: F) -> (r: Result<
        R,
        Busy<A>,
    >)
        requires
            forall|m: &mut T| #[trigger] f.requires((m, arg)),
        ensures
            r matches Ok(v) ==> exists|m: &mut T| #[trigger] f.ensures((m, arg), v),
            r matches Err(busy) ==> busy.0 == arg,
    {
        exclusive_with(&*self.cell, arg, f)
    }
}

/// Handles to one and the same value were made over the same value.
pub proof fn lemma_same_value_same_origin<T>(a: &LocalShared<T>, b: &LocalShared<T>)
    requires
        a.same_value(b),
    ensures
        a.origin() == b.origin(),
        b.same_value(a),
{
}

impl<T> Shared for LocalShared<T> {
    type Target = T;

    open spec fn usable(&self) -> bool {
        true
    }

    fn with<R, F: FnOnce(&mut T) -> R>(&mut self, f: F) -> (r: Option<R>) {
        self.cell.with(f)
    }
}

impl<T> Clone for LocalShared<T> {
    /// Another handle to the same value.
    fn clone(&self) -> (shared: Self)
        ensures
            shared.same_value(self),
            shared.origin() == self.origin(),
    {
        LocalShared { cell: self.cell.clone(), origin: self.origin }
    }
}

} // verus!
