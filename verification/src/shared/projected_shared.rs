//! A capability narrowed to a part of the shared value.

use super::outcome_of;
use super::projects_all;
use super::Shared;
use vstd::prelude::*;

verus! {

/// A capability `inner` together with a projection from its target to a part
/// of it. Access goes through `inner`, so it obeys the same discipline.
pub struct ProjectedShared<T, F> {
    pub inner: T,
    pub proj_fn: F,
}

impl<From, To, Inner, Proj> Shared for ProjectedShared<Inner, Proj> where
    Inner: Shared<Target = From>,
    Proj: Fn(&mut From) -> &mut To + Clone,
 {
    type Target = To;

    /// The underlying capability is usable and the projection accepts every
    /// value.
    open spec fn usable(&self) -> bool {
        self.inner.usable() && projects_all::<From, To, Proj>(self.proj_fn)
    }

    fn with<R, F: FnOnce(&mut To) -> R>(&mut self, f: F) -> (r: Option<R>) {
        let proj_fn = &self.proj_fn;
        self.inner.with(
            |from: &mut From| -> (r: R)
                ensures
                    outcome_of::<To, R, F>(f, r)
                { f(proj_fn(from)) },
        )
    }
}

impl<T: Clone, F: Clone> Clone for ProjectedShared<T, F> {
    /// Clones the underlying capability and the projection.
    fn clone(&self) -> (shared: Self) {
        ProjectedShared { inner: self.inner.clone(), proj_fn: self.proj_fn.clone() }
    }
}

} // verus!
