//! The wait engine that several primitives share: a source of items and the
//! slot of the one task that waits for the next item.

use super::task::context_task;
use super::waker_cell::WakerCell;
use std::ops::ControlFlow;
use std::task::Context;
use std::task::Poll;
use vstd::prelude::*;

verus! {

/// Something that a consumer waits on. Its one operation takes an item if
/// there is one, and else tells whether one may still come.
///
/// To the engine a source is the number of items that it can yield at once,
/// and whether any producer is left to add to that number.
pub trait Source {
    type Item;

    /// How many items can be taken before a producer has to act.
    spec fn buffered(&self) -> nat;

    /// No producer is left.
    spec fn orphaned(&self) -> bool;

    /// Takes one item if there is one. The result is `Break(Some(item))` when an
    /// item was taken, `Break(None)` when there is none and none will come, and
    /// `Continue(())` when the consumer has to wait.
    ///
    /// Items are yielded while there are any, also when the producers are
    /// gone. Only a yielded item changes the source, so the call can be
    /// repeated while it tells to wait.
    fn try_yield_one(&mut self) -> (r: ControlFlow<Option<Self::Item>>)
        ensures
            yields_item(r) <==> old(self).buffered() > 0,
            yields_end(r) <==> old(self).buffered() == 0 && old(self).orphaned(),
            final(self).buffered() == after_yield(old(self).buffered()),
            final(self).orphaned() == old(self).orphaned(),
    ;
}

/// The attempt took an item.
pub open spec fn yields_item<I>(r: ControlFlow<Option<I>>) -> bool {
    r matches ControlFlow::Break(Some(_))
}

/// The attempt found the source exhausted.
pub open spec fn yields_end<I>(r: ControlFlow<Option<I>>) -> bool {
    r matches ControlFlow::Break(None)
}

/// The number of buffered items after an attempt to take one.
pub open spec fn after_yield(buffered: nat) -> nat {
    if buffered > 0 {
        (buffered - 1) as nat
    } else {
        0
    }
}

/// The number of buffered items after `attempts` attempts in a row.
pub open spec fn after_yields(buffered: nat, attempts: nat) -> nat
    decreases attempts,
{
    if attempts == 0 {
        buffered
    } else {
        after_yields(after_yield(buffered), (attempts - 1) as nat)
    }
}

/// What the consumer is told for an attempt: an outcome that ends the wait is
/// ready, and else the consumer is pending.
pub open spec fn poll_of<I>(r: ControlFlow<Option<I>>) -> Poll<Option<I>> {
    match r {
        ControlFlow::Break(output) => Poll::Ready(output),
        ControlFlow::Continue(_) => Poll::Pending,
    }
}

/// Each attempt takes one item while there are any.
pub proof fn lemma_after_yields(buffered: nat, attempts: nat)
    ensures
        after_yields(buffered, attempts) == if attempts <= buffered {
            (buffered - attempts) as nat
        } else {
            0
        },
    decreases attempts,
{
    if attempts > 0 {
        lemma_after_yields(after_yield(buffered), (attempts - 1) as nat);
    }
}

/// A producer that went away takes nothing with it: a source without
/// producers yields each of its `buffered` items, one per attempt, and reports
/// the end at the attempt after the last item, not before.
pub proof fn lemma_drain_then_exhaust(buffered: nat)
    ensures
        forall|attempts: nat|
            attempts < buffered ==> #[trigger] after_yields(buffered, attempts) > 0,
        after_yields(buffered, buffered) == 0,
{
    assert forall|attempts: nat| attempts < buffered implies #[trigger] after_yields(
        buffered,
        attempts,
    ) > 0 by {
        lemma_after_yields(buffered, attempts);
    }
    lemma_after_yields(buffered, buffered);
}

/// A source together with the slot of the task that waits on it.
pub struct SharedState<S> {
    pub waker: WakerCell,
    pub inner: S,
}

impl<S: Source> SharedState<S> {
    /// An engine over `inner` on which nobody waits.
    pub fn new(inner: S) -> (state: Self)
        ensures
            state.waker@ == super::waker_cell::WakerView::idle(),
            state.inner == inner,
    {
        SharedState { waker: WakerCell::new(), inner }
    }

    /// Resumes the waiting task, if there is one, so that it tests the source
    /// again.
    pub fn notify(&mut self)
        ensures
            final(self).waker@ == old(self).waker@.take_and_wake(),
            final(self).inner == old(self).inner,
    {
        self.waker.take_and_wake();
    }

    /// The consumer goes away: its registration is dropped, so that no
    /// producer resumes a task that is no longer interested.
    pub fn receiver_dropped(&mut self)
        ensures
            final(self).waker@ == old(self).waker@.reset(),
            final(self).inner == old(self).inner,
    {
        self.waker.reset();
    }

    /// Tests the source for the consumer. An item, or the end, is handed on
    /// and the slot is left alone; if the source tells to wait, the task that
    /// polls with `cx` is registered.
    ///
    /// This must be called by one task at a time: there is one slot.
    ///
    /// The last clause hands on whatever else the source promises of
    /// [`Source::try_yield_one`]: the source before and after are related as
    /// by one such call, and the result is that call's.
    pub fn poll_wait(&mut self, cx: &Context<'_>) -> (r: Poll<Option<S::Item>>)
        ensures
            r matches Poll::Ready(Some(_)) <==> old(self).inner.buffered() > 0,
            r matches Poll::Ready(None) <==> old(self).inner.buffered() == 0
                && old(self).inner.orphaned(),
            final(self).inner.buffered() == after_yield(old(self).inner.buffered()),
            final(self).inner.orphaned() == old(self).inner.orphaned(),
            final(self).waker@ == if r is Pending {
                old(self).waker@.update(context_task(cx))
            } else {
                old(self).waker@
            },
            exists|m: &mut S, cf: ControlFlow<Option<S::Item>>|
                {
                    &&& *m == old(self).inner
                    &&& *final(m) == final(self).inner
                    &&& #[trigger] call_ensures(S::try_yield_one, (m,), cf)
                    &&& r == poll_of(cf)
                },
    {
        if let ControlFlow::Break(output) = self.inner.try_yield_one() {
            Poll::Ready(output)
        } else {
            self.waker.update(cx);
            Poll::Pending
        }
    }
}

} // verus!
