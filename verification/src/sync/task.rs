//! What the verifier is told about `std::task`.
//!
//! `Poll` is read as the two-variant enum that it is. `Waker` and `Context` are
//! opaque. Of a waker the contracts need one thing: which task it resumes.

use std::task::Context;
use std::task::Poll;
use std::task::Waker;
use vstd::prelude::*;

verus! {

/// `std::task::Poll`, with its variants `Ready` and `Pending` visible.
#[verifier::external_type_specification]
#[verifier::reject_recursive_types(T)]
pub struct ExPoll<T>(Poll<T>);

/// `std::task::Waker`: the continuation handle of a suspended task.
#[verifier::external_type_specification]
#[verifier::external_body]
pub struct ExWaker(Waker);

/// `std::task::Context`: what a poll function is handed by the executor.
#[verifier::external_type_specification]
#[verifier::external_body]
pub struct ExContext<'a>(Context<'a>);

/// The task that a waker resumes. Tasks are told apart by a number that stands
/// for the task; nothing is claimed of the number itself.
pub uninterp spec fn waker_task(waker: &Waker) -> int;

/// The task that is being polled with a context: the current task.
pub uninterp spec fn context_task(cx: &Context<'_>) -> int;

/// `Context::waker` hands out the waker of the current task: the one that is
/// polled with this context.
pub assume_specification<'a>[ Context::<'a>::waker ](cx: &Context<'a>) -> (w: &'a Waker)
    ensures
        waker_task(w) == context_task(cx),
;

/// `Waker::clone` makes another handle for the same task.
pub assume_specification[ <Waker as Clone>::clone ](w: &Waker) -> (c: Waker)
    ensures
        waker_task(&c) == waker_task(w),
;

/// `Waker::will_wake` tells whether two wakers resume the same task. It is a
/// best-effort test: `true` is said of two wakers of one task only, and `false`
/// may be said of two such wakers too. So the claim is on `true` alone.
pub assume_specification[ Waker::will_wake ](w: &Waker, other: &Waker) -> (same: bool)
    ensures
        same ==> waker_task(w) == waker_task(other),
;

/// `Waker::wake_by_ref` asks the executor to poll the waker's task again. It
/// returns nothing, and nothing is claimed of what the executor does.
pub assume_specification[ Waker::wake_by_ref ](w: &Waker);

} // verus!
