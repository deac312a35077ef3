//! A cell that carries one value from a sender to a receiver.

use super::error::SendError;
use super::shared_state::poll_of;
use super::shared_state::SharedState;
use super::shared_state::Source;
use super::task::context_task;
use super::waker_cell::WakerView;
use crate::shared::Busy;
use crate::shared::LocalShared;
use std::ops::ControlFlow;
use std::task::Context;
use std::task::Poll;
use vstd::prelude::*;

verus! {

/// What the two handles of a one-shot channel share, beside the receiver's
/// slot.
pub struct Data<T> {
    value: Option<T>,
    has_sender: bool,
    has_receiver: bool,
}

/// The model of a [`Data`].
pub struct DataView<T> {
    /// The value that was sent and not yet received.
    pub value: Option<T>,
    /// The sender is alive: it has neither sent nor gone away.
    pub has_sender: bool,
    /// The receiver is alive.
    pub has_receiver: bool,
}

impl<T> DataView<T> {
    /// A channel with both sides alive and no value.
    pub open spec fn empty() -> DataView<T> {
        DataView { value: None, has_sender: true, has_receiver: true }
    }

    /// The channel after the sender sent `value`, which uses the sender up: the
    /// value is stored if the receiver is alive.
    pub open spec fn send(self, value: T) -> DataView<T> {
        DataView {
            value: if self.has_receiver {
                Some(value)
            } else {
                self.value
            },
            has_sender: false,
            ..self
        }
    }

    /// What a send reports: the value comes back if the receiver is gone.
    pub open spec fn send_result(self, value: T) -> Result<(), SendError<T>> {
        if self.has_receiver {
            Ok(())
        } else {
            Err(SendError::Closed(value))
        }
    }

    /// The channel after the receiver asked for the value: a stored value
    /// leaves.
    pub open spec fn yield_one(self) -> DataView<T> {
        DataView { value: None, ..self }
    }

    /// What the receiver gets: the stored value; nothing once the sender is
    /// gone without a value left; else it has to wait.
    pub open spec fn yield_result(self) -> ControlFlow<Option<T>> {
        match self.value {
            Some(value) => ControlFlow::Break(Some(value)),
            None => if !self.has_sender {
                ControlFlow::Break(None)
            } else {
                ControlFlow::Continue(())
            },
        }
    }

    /// The sender goes away without sending.
    pub open spec fn drop_sender(self) -> DataView<T> {
        DataView { has_sender: false, ..self }
    }

    /// The receiver goes away.
    pub open spec fn drop_receiver(self) -> DataView<T> {
        DataView { has_receiver: false, ..self }
    }
}

impl<T> View for Data<T> {
    type V = DataView<T>;

    closed spec fn view(&self) -> DataView<T> {
        DataView {
            value: self.value,
            has_sender: self.has_sender,
            has_receiver: self.has_receiver,
        }
    }
}

impl<T> Source for Data<T> {
    type Item = T;

    open spec fn buffered(&self) -> nat {
        if self@.value is Some {
            1
        } else {
            0
        }
    }

    open spec fn orphaned(&self) -> bool {
        !self@.has_sender
    }

    fn try_yield_one(&mut self) -> (r: ControlFlow<Option<T>>)
        ensures
            r == old(self)@.yield_result(),
            final(self)@ == old(self)@.yield_one(),
    {
        match self.value.take() {
            Some(value) => ControlFlow::Break(Some(value)),
            None => if !self.has_sender {
                ControlFlow::Break(None)
            } else {
                ControlFlow::Continue(())
            },
        }
    }
}

impl<T> Data<T> {
    /// The data of a new channel: both sides alive, no value.
    pub fn new() -> (data: Self)
        ensures
            data@ == DataView::<T>::empty(),
    {
        Data { value: None, has_sender: true, has_receiver: true }
    }
}

impl<T> SharedState<Data<T>> {
    /// Stores `value` for the receiver and resumes it, or hands the value back
    /// if the receiver is gone. Either way the sender is used up.
    pub fn send(&mut self, value: T) -> (r: Result<(), SendError<T>>)
        ensures
            final(self).inner@ == old(self).inner@.send(value),
            r == old(self).inner@.send_result(value),
            final(self).waker@ == old(self).waker@.take_and_wake(),
    {
        self.inner.has_sender = false;
        if self.inner.has_receiver {
            self.inner.value = Some(value);
            self.notify();
            Ok(())
        } else {
            self.notify();
            Err(SendError::Closed(value))
        }
    }

    /// The sender goes away without sending: the waiting receiver is resumed so
    /// that it can see that nothing will come.
    pub fn drop_sender(&mut self)
        ensures
            final(self).inner@ == old(self).inner@.drop_sender(),
            final(self).waker@ == old(self).waker@.take_and_wake(),
    {
        self.inner.has_sender = false;
        self.notify();
    }

    /// The receiver goes away, without being resumed.
    pub fn drop_receiver(&mut self)
        ensures
            final(self).inner@ == old(self).inner@.drop_receiver(),
            final(self).waker@ == old(self).waker@.reset(),
    {
        self.receiver_dropped();
        self.inner.has_receiver = false;
    }

    /// Takes the value for the receiver, or registers it to wait.
    pub fn poll(&mut self, cx: &Context<'_>) -> (r: Poll<Option<T>>)
        ensures
            r == poll_of(old(self).inner@.yield_result()),
            final(self).inner@ == old(self).inner@.yield_one(),
            final(self).waker@ == if r is Pending {
                old(self).waker@.update(context_task(cx))
            } else {
                old(self).waker@
            },
    {
        self.poll_wait(cx)
    }
}

/// A channel for one value: a sender and a receiver that share one state
/// block, which is made with both sides alive, no value and nobody waiting.
pub fn channel<T>() -> (ends: (Sender<T>, Receiver<T>))
    ensures
        ends.0.shared().same_value(&ends.1.shared()),
        ends.0.shared().origin().inner@ == DataView::<T>::empty(),
        ends.0.shared().origin().waker@ == WakerView::idle(),
{
    let state = LocalShared::new(SharedState::new(Data::new()));
    (Sender(state.clone()), Receiver(state))
}

/// The sending side of a one-shot channel.
///
/// The state block is shared with the receiver, so a contract here speaks of
/// the block as it happens to be when the call is made.
#[verifier::reject_recursive_types(T)]
pub struct Sender<T>(LocalShared<SharedState<Data<T>>>);

/// The receiving side of a one-shot channel.
#[verifier::reject_recursive_types(T)]
pub struct Receiver<T>(LocalShared<SharedState<Data<T>>>);

impl<T> Sender<T> {
    /// The capability through which this handle reaches the state block.
    pub closed spec fn shared(&self) -> LocalShared<SharedState<Data<T>>> {
        self.0
    }

    /// Sends `value`, which uses the sender up: [`SharedState::send`] on the
    /// shared block. The value comes back as closed if the receiver is gone;
    /// if the block is in use, the sender and the value come back as `Busy`.
    /// There is no other failure.
    pub fn send(self, value: T) -> (r: Result<Result<(), SendError<T>>, Busy<(Sender<T>, T)>>)
        ensures
            r matches Ok(sent) ==> exists|data: DataView<T>|
                sent == #[trigger] data.send_result(value),
            r matches Ok(Err(e)) ==> e == SendError::Closed(value),
            r matches Err(busy) ==> busy.0 == (self, value),
    {
        let entered = self.0.access_with(
            value,
            |state: &mut SharedState<Data<T>>, value: T| -> (r: Result<(), SendError<T>>)
                ensures
                    r == old(state).inner@.send_result(value)
                { state.send(value) },
        );
        match entered {
            Ok(sent) => Ok(sent),
            Err(busy) => Err(Busy((self, busy.0))),
        }
    }

    /// The sender goes away without sending: [`SharedState::drop_sender`] on
    /// the shared block. The result tells whether that was done: it was not if
    /// the block is in use.
    pub fn close(&mut self) -> (done: bool)
        ensures
            final(self).shared() == old(self).shared(),
    {
        self.0.access(|state: &mut SharedState<Data<T>>| { state.drop_sender() }).is_some()
    }
}

impl<T> Receiver<T> {
    /// The capability through which this handle reaches the state block.
    pub closed spec fn shared(&self) -> LocalShared<SharedState<Data<T>>> {
        self.0
    }

    /// Takes the value, or registers the receiver to wait for it:
    /// [`SharedState::poll`] on the shared block. `None` tells that the block
    /// is in use.
    pub fn poll(&mut self, cx: &Context<'_>) -> (r: Option<Poll<Option<T>>>)
        ensures
            r matches Some(received) ==> exists|data: DataView<T>|
                received == poll_of(#[trigger] data.yield_result()),
            final(self).shared() == old(self).shared(),
    {
        self.0.access(
            |state: &mut SharedState<Data<T>>| -> (r: Poll<Option<T>>)
                ensures
                    r == poll_of(old(state).inner@.yield_result())
                { state.poll(cx) },
        )
    }

    /// The receiver goes away: [`SharedState::drop_receiver`] on the shared
    /// block. The result tells whether that was done: it was not if the block
    /// is in use.
    pub fn close(&mut self) -> (done: bool)
        ensures
            final(self).shared() == old(self).shared(),
    {
        self.0.access(|state: &mut SharedState<Data<T>>| { state.drop_receiver() }).is_some()
    }
}

/// A value that is sent to a live receiver is received, once: the first
/// attempt takes it, and the next one reports that nothing more comes.
pub proof fn lemma_at_most_one_value<T>(data: DataView<T>, value: T)
    requires
        data.has_receiver,
    ensures
        data.send(value).yield_result() == ControlFlow::<Option<T>, ()>::Break(Some(value)),
        data.send(value).yield_one().yield_result() == ControlFlow::<Option<T>, ()>::Break(None),
{
}

/// A sender that goes away without a value leaves nothing to wait for, and a
/// value that was stored before stays to be taken.
pub proof fn lemma_sender_gone<T>(data: DataView<T>)
    ensures
        data.value is None ==> data.drop_sender().yield_result() == ControlFlow::<
            Option<T>,
            (),
        >::Break(None),
        data.value is Some ==> data.drop_sender().yield_result() == ControlFlow::<
            Option<T>,
            (),
        >::Break(data.value),
        data.drop_sender().drop_sender() == data.drop_sender(),
        data.drop_receiver().drop_receiver() == data.drop_receiver(),
{
}

} // verus!
