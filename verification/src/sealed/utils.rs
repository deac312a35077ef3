//! A wrapper that lends its value to one callback at a time.

use vstd::prelude::*;

verus! {

/// Owns a value and grants access to it for the length of a callback.
pub struct UnsafeWrapper<T> {
    inner: T,
}

impl<T> View for UnsafeWrapper<T> {
    type V = T;

    closed spec fn view(&self) -> T {
        self.inner
    }
}

impl<T> UnsafeWrapper<T> {
    /// Wraps `inner`.
    pub fn new(inner: T) -> (wrapper: Self)
        ensures
            wrapper@ == inner,
    {
        UnsafeWrapper { inner }
    }

    /// Calls `f` on the value and returns its result. The value afterwards is
    /// what `f` left.
    pub fn with<R, F: FnOnce(&mut T) -> R>(&mut self, f: F) -> (r: R)
        requires
            forall|m: &mut T| *m == old(self)@ ==> #[trigger] f.requires((m,)),
        ensures
            exists|m: &mut T|
                *m == old(self)@ && *final(m) == final(self)@ && #[trigger] f.ensures((m,), r),
    {
        f(&mut self.inner)
    }

    /// Gives the value back.
    pub fn into_inner(self) -> (inner: T)
        ensures
            inner == self@,
    {
        self.inner
    }
}

} // verus!
