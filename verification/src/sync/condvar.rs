//! A condition signal: producers raise a flag, the consumer waits for it.
//! Signals are not counted: those raised before the consumer looks are seen as
//! one.

use super::shared_state::SharedState;
use super::shared_state::Source;
use super::task::context_task;
use super::waker_cell::WakerView;
use crate::shared::LocalShared;
use std::ops::ControlFlow;
use std::task::Context;
use std::task::Poll;
use vstd::prelude::*;

verus! {

/// What the handles of a condition signal share, beside the consumer's slot.
pub struct Data {
    notified: bool,
    sender_count: usize,
}

/// The model of a [`Data`].
pub struct DataView {
    /// A signal was raised and not yet seen.
    pub notified: bool,
    /// The number of signalling handles that are alive.
    pub senders: nat,
}

impl DataView {
    /// A signal with one signalling handle and the flag down.
    pub open spec fn empty() -> DataView {
        DataView { notified: false, senders: 1 }
    }

    /// The flag is raised.
    pub open spec fn signal_one(self) -> DataView {
        DataView { notified: true, ..self }
    }

    /// The consumer looked: the flag is down.
    pub open spec fn yield_one(self) -> DataView {
        DataView { notified: false, ..self }
    }

    /// What the consumer sees: the signal if the flag is up; the end if it is
    /// down and nobody is left to raise it; else it has to wait.
    pub open spec fn yield_result(self) -> ControlFlow<Option<()>> {
        if self.notified {
            ControlFlow::Break(Some(()))
        } else if self.senders == 0 {
            ControlFlow::Break(None)
        } else {
            ControlFlow::Continue(())
        }
    }

    /// What a wait reports for an outcome: whether a signal was seen.
    pub open spec fn wait_result(self) -> Poll<bool> {
        match self.yield_result() {
            ControlFlow::Break(output) => Poll::Ready(output is Some),
            ControlFlow::Continue(_) => Poll::Pending,
        }
    }

    /// One more signalling handle. The count stays where it is at the largest
    /// machine number.
    pub open spec fn clone_sender(self) -> DataView {
        DataView {
            senders: if self.senders < usize::MAX {
                self.senders + 1
            } else {
                self.senders
            },
            ..self
        }
    }

    /// One signalling handle less.
    pub open spec fn drop_sender(self) -> DataView {
        DataView {
            senders: if self.senders > 0 {
                (self.senders - 1) as nat
            } else {
                0
            },
            ..self
        }
    }
}

impl View for Data {
    type V = DataView;

    closed spec fn view(&self) -> DataView {
        DataView { notified: self.notified, senders: self.sender_count as nat }
    }
}

impl Source for Data {
    type Item = ();

    open spec fn buffered(&self) -> nat {
        if self@.notified {
            1
        } else {
            0
        }
    }

    open spec fn orphaned(&self) -> bool {
        self@.senders == 0
    }

    fn try_yield_one(&mut self) -> (r: ControlFlow<Option<()>>)
        ensures
            r == old(self)@.yield_result(),
            final(self)@ == old(self)@.yield_one(),
    {
        if self.notified {
            self.notified = false;
            ControlFlow::Break(Some(()))
        } else if self.sender_count == 0 {
            ControlFlow::Break(None)
        } else {
            ControlFlow::Continue(())
        }
    }
}

impl Data {
    /// The data of a new signal: one signalling handle, the flag down.
    pub fn new() -> (data: Self)
        ensures
            data@ == DataView::empty(),
    {
        Data { notified: false, sender_count: 1 }
    }
}

impl SharedState<Data> {
    /// Raises the flag and resumes the waiting consumer.
    pub fn signal_one(&mut self)
        ensures
            final(self).inner@ == old(self).inner@.signal_one(),
            final(self).waker@ == old(self).waker@.take_and_wake(),
    {
        self.inner.notified = true;
        self.notify();
    }

    /// Tells the consumer whether a signal was raised since it last looked:
    /// `true` for a signal, `false` once the flag is down and nobody is left to
    /// raise it. Else the consumer is registered to wait.
    pub fn wait_for_one(&mut self, cx: &Context<'_>) -> (r: Poll<bool>)
        ensures
            r == old(self).inner@.wait_result(),
            final(self).inner@ == old(self).inner@.yield_one(),
            final(self).waker@ == if r is Pending {
                old(self).waker@.update(context_task(cx))
            } else {
                old(self).waker@
            },
    {
        match self.poll_wait(cx) {
            Poll::Ready(output) => Poll::Ready(output.is_some()),
            Poll::Pending => Poll::Pending,
        }
    }

    /// Counts one more signalling handle.
    pub fn clone_sender(&mut self)
        ensures
            final(self).inner@ == old(self).inner@.clone_sender(),
            final(self).waker@ == old(self).waker@,
    {
        if self.inner.sender_count < usize::MAX {
            self.inner.sender_count = self.inner.sender_count + 1;
        }
    }

    /// Counts one signalling handle less. When the last one goes, the waiting
    /// consumer is resumed so that it can see the end.
    pub fn drop_sender(&mut self)
        ensures
            final(self).inner@ == old(self).inner@.drop_sender(),
            final(self).waker@ == if old(self).inner@.senders == 1 {
                old(self).waker@.take_and_wake()
            } else {
                old(self).waker@
            },
    {
        if self.inner.sender_count > 0 {
            self.inner.sender_count = self.inner.sender_count - 1;
            if self.inner.sender_count == 0 {
                self.notify();
            }
        }
    }
}

/// A condition signal: the handle that raises it, which is counted, and the
/// handle that waits for it. They share one state block, which is made with
/// that one signalling handle, the flag down and nobody waiting.
pub fn condvar() -> (ends: (Sender, Receiver))
    ensures
        ends.0.shared().same_value(&ends.1.shared()),
        ends.0.shared().origin().inner@ == DataView::empty(),
        ends.0.shared().origin().waker@ == WakerView::idle(),
        ends.0.is_open(),
{
    let state = LocalShared::new(SharedState::new(Data::new()));
    (Sender { state: state.clone(), open: true }, Receiver(state))
}

/// A signalling handle.
pub struct Sender {
    state: LocalShared<SharedState<Data>>,
    open: bool,
}

/// The waiting handle. There is one: the engine has one slot.
pub struct Receiver(LocalShared<SharedState<Data>>);

impl Sender {
    /// The capability through which this handle reaches the state block.
    pub closed spec fn shared(&self) -> LocalShared<SharedState<Data>> {
        self.state
    }

    /// This handle is counted among the signalling handles: it was not closed.
    pub closed spec fn is_open(&self) -> bool {
        self.open
    }

    /// Whether this handle is counted among the signalling handles.
    pub fn is_counted(&self) -> (counted: bool)
        ensures
            counted == self.is_open(),
    {
        self.open
    }

    /// Raises the flag and resumes the waiting consumer:
    /// [`SharedState::signal_one`] on the shared block. The result tells
    /// whether that was done: it was not if the block is in use.
    pub fn signal_one(&self) -> (done: bool) {
        self.state.access(|state: &mut SharedState<Data>| { state.signal_one() }).is_some()
    }

    /// This handle goes away: [`SharedState::drop_sender`] on the shared block.
    /// A handle is counted out once: closing it again does nothing. The result
    /// tells whether the handle is closed now: it is not if the block is in
    /// use.
    pub fn close(&mut self) -> (done: bool)
        ensures
            final(self).is_open() == (old(self).is_open() && !done),
            final(self).shared() == old(self).shared(),
    {
        if self.open {
            let done = self.state.access(
                |state: &mut SharedState<Data>| { state.drop_sender() },
            ).is_some();
            if done {
                self.open = false;
            }
            done
        } else {
            true
        }
    }
}

impl Clone for Sender {
    /// One more signalling handle for the same signal:
    /// [`SharedState::clone_sender`] on the shared block. If the block is in
    /// use, the new handle is not counted: it is closed from the start.
    fn clone(&self) -> (sender: Self)
        ensures
            sender.shared().same_value(&self.shared()),
    {
        let counted = self.state.access(
            |state: &mut SharedState<Data>| { state.clone_sender() },
        ).is_some();
        Sender { state: self.state.clone(), open: counted }
    }
}

impl Receiver {
    /// The capability through which this handle reaches the state block.
    pub closed spec fn shared(&self) -> LocalShared<SharedState<Data>> {
        self.0
    }

    /// One step of the wait for a signal: [`SharedState::wait_for_one`] on the
    /// shared block. `None` tells that the block is in use.
    pub fn wait_for_one(&mut self, cx: &Context<'_>) -> (r: Option<Poll<bool>>)
        ensures
            r matches Some(seen) ==> exists|data: DataView| seen == #[trigger] data.wait_result(),
            final(self).shared() == old(self).shared(),
    {
        self.0.access(
            |state: &mut SharedState<Data>| -> (r: Poll<bool>)
                ensures
                    r == old(state).inner@.wait_result()
                { state.wait_for_one(cx) },
        )
    }

    /// The consumer goes away: [`SharedState::receiver_dropped`] on the shared
    /// block. The result tells whether that was done: it was not if the block
    /// is in use.
    pub fn close(&mut self) -> (done: bool)
        ensures
            final(self).shared() == old(self).shared(),
    {
        self.0.access(|state: &mut SharedState<Data>| { state.receiver_dropped() }).is_some()
    }
}

/// Signals are not counted: raising the flag again before the consumer looked
/// changes nothing, and one look takes the flag down.
pub proof fn lemma_signals_collapse(data: DataView)
    ensures
        data.signal_one().signal_one() == data.signal_one(),
        data.signal_one().wait_result() == Poll::Ready(true),
        data.signal_one().yield_one().notified == false,
        data.senders > 0 ==> data.signal_one().signal_one().yield_one().wait_result()
            == Poll::<bool>::Pending,
{
}

/// A signal that was raised before the last signalling handle went away is
/// still seen; the end is reported after it.
pub proof fn lemma_signal_outlives_sender(data: DataView)
    requires
        data.senders == 1,
    ensures
        data.signal_one().drop_sender().wait_result() == Poll::Ready(true),
        data.signal_one().drop_sender().yield_one().wait_result() == Poll::Ready(false),
        data.drop_sender().notified == data.notified,
{
}

} // verus!
