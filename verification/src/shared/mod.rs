//! Access to data that several handles share.
//!
//! A capability grants exclusive access to the shared value for the length of
//! one callback and returns what the callback returns. No reference to the
//! value outlives the callback, so none can be held across a suspension point.
//!
//! Access is exclusive: a call that is made from inside the callback of an
//! access to the same value is not let in. It gets neither a second reference
//! nor a trap: the call reports that the value is in use, and hands back what
//! it was given.

pub mod local_shared;
pub mod projected_shared;

pub use local_shared::LocalShared;
pub use projected_shared::ProjectedShared;

use std::cell::RefCell;
use std::rc::Rc;
use vstd::prelude::*;

verus! {

/// `std::cell::RefCell`. What it holds changes behind shared references, so
/// the verifier sees nothing inside it.
#[verifier::external_type_specification]
#[verifier::external_body]
#[verifier::reject_recursive_types(T)]
pub struct ExRefCell<T: ?Sized>(RefCell<T>);

/// `RefCell::new` wraps a value. Nothing is claimed of the cell.
pub assume_specification<T>[ RefCell::<T>::new ](value: T) -> (cell: RefCell<T>);

/// Why an access did not take place: the value is in use, because the call was
/// made from inside the callback of another access to it. What was handed in
/// for the access comes back.
#[derive(PartialEq, Eq, Debug)]
pub struct Busy<A>(pub A);

/// The callback accepts whatever value is behind the capability.
pub open spec fn callable_on_all<T, R, F: FnOnce(&mut T) -> R>(f: F) -> bool {
    forall|m: &mut T| #[trigger] f.requires((m,))
}

/// `r` is what the callback returns on some value of the shared data.
pub open spec fn outcome_of<T, R, F: FnOnce(&mut T) -> R>(f: F, r: R) -> bool {
    exists|m: &mut T| #[trigger] f.ensures((m,), r)
}

/// The projection accepts whatever value is behind the capability.
pub open spec fn projects_all<A, B, P: Fn(&mut A) -> &mut B>(p: P) -> bool {
    forall|m: &mut A| #[trigger] p.requires((m,))
}

/// Asks for the cell's value with `RefCell::try_borrow_mut`, which does not
/// trap: it hands out the value for exclusive use, or an error if the value is
/// borrowed already. With the value, `f` is called on it and on `arg`.
///
/// The contract claims of an `Ok` that `f` was called once, on some value of
/// the cell and on `arg` itself, and that its result is handed back: the
/// cell's value is whatever was left there by earlier calls, so nothing is
/// said of it. Of an `Err` it claims that `arg` comes back. Which of the two
/// comes depends on whether the cell is borrowed, so no clause says it.
#[verifier::external_body]
pub(crate) fn exclusive_with<T, A, R, F: FnOnce(&mut T, A) -> R>(
    cell: &RefCell<T>,
    arg: A,
    f: F,
) -> (r: Result<R, Busy<A>>)
    requires
        forall|m: &mut T| #[trigger] f.requires((m, arg)),
    ensures
        r matches Ok(v) ==> exists|m: &mut T| #[trigger] f.ensures((m, arg), v),
        r matches Err(busy) ==> busy.0 == arg,
{
    match cell.try_borrow_mut() {
        Ok(mut value) => Ok(f(&mut value, arg)),
        Err(_) => Err(Busy(arg)),
    }
}

/// As [`exclusive_with`], for a callback that needs no argument: `None` tells
/// that the value is in use.
pub(crate) fn exclusive<T, R, F: FnOnce(&mut T) -> R>(cell: &RefCell<T>, f: F) -> (r: Option<R>)
    requires
        callable_on_all::<T, R, F>(f),
    ensures
        r matches Some(v) ==> outcome_of::<T, R, F>(f, v),
{
    let entered = exclusive_with(
        cell,
        f,
        |value: &mut T, g: F| -> (r: R)
            requires
                callable_on_all::<T, R, F>(g),
            ensures
                outcome_of::<T, R, F>(g, r)
            { g(value) },
    );
    match entered {
        Ok(r) => Some(r),
        Err(_) => None,
    }
}

/// An abstraction for accessing data shared between multiple tasks.
pub trait Shared: Clone {
    type Target;

    /// What has to hold of a capability for access through it to be defined.
    spec fn usable(&self) -> bool;

    /// Performs `f` on the shared data and returns its result, or `None` if
    /// the data is in use: the call was made from inside another access to it,
    /// and `f` was not called.
    ///
    /// The data is whatever earlier accesses left, so the contract says that
    /// the result is what `f` returns on some value.
    fn with<R, F: FnOnce(&mut Self::Target) -> R>(&mut self, f: F) -> (r: Option<R>)
        requires
            old(self).usable(),
            callable_on_all::<Self::Target, R, F>(f),
        ensures
            r matches Some(v) ==> outcome_of::<Self::Target, R, F>(f, v),
            *final(self) == *old(self),
    ;

    /// A capability for the part of the shared data that `f` selects.
    fn project<To, Proj: Fn(&mut Self::Target) -> &mut To + Clone>(&self, f: Proj) -> (p:
        ProjectedShared<Self, Proj>)
        ensures
            p.proj_fn == f,
            cloned(*self, p.inner),
    {
        ProjectedShared { inner: self.clone(), proj_fn: f }
    }
}

impl<T> Shared for Rc<RefCell<T>> {
    type Target = T;

    open spec fn usable(&self) -> bool {
        true
    }

    fn with<R, F: FnOnce(&mut T) -> R>(&mut self, f: F) -> (r: Option<R>) {
        exclusive(&**self, f)
    }
}

} // verus!
