//! An unbounded queue from many producers to one consumer, with a soft limit
//! that a producer may choose to respect, and with retraction: a producer can
//! take back items that the consumer has not yet received.

use super::shared_state::poll_of;
use super::shared_state::SharedState;
use super::shared_state::Source;
use super::task::context_task;
use super::waker_cell::WakerView;
use crate::sealed::queue::without;
use crate::sealed::Queue;
use crate::shared::Busy;
use crate::shared::LocalShared;
use std::ops::ControlFlow;
use std::task::Context;
use std::task::Poll;
use vstd::prelude::*;
use vstd::std_specs::cmp::PartialEqSpec;

verus! {

/// What the handles of a channel share, beside the consumer's slot.
pub struct Data<T> {
    queue: Queue<T>,
    sender_count: usize,
    has_receiver: bool,
}

/// The model of a [`Data`].
pub struct DataView<T> {
    /// The items sent and not yet received, oldest first.
    pub queue: Seq<T>,
    /// The number of producers that are alive.
    pub senders: nat,
    /// The consumer is alive.
    pub has_receiver: bool,
}

impl<T> DataView<T> {
    /// A channel with one producer, the consumer, and nothing queued.
    pub open spec fn empty() -> DataView<T> {
        DataView { queue: Seq::empty(), senders: 1, has_receiver: true }
    }

    /// The channel after `item` was queued.
    pub open spec fn send(self, item: T) -> DataView<T> {
        DataView { queue: self.queue.push(item), ..self }
    }

    /// Whether a send that respects the limit `len_threshold` goes through.
    pub open spec fn accepts(self, len_threshold: nat) -> bool {
        self.queue.len() < len_threshold
    }

    /// The channel after a send that respects the limit `len_threshold`.
    pub open spec fn try_send(self, len_threshold: nat, item: T) -> DataView<T> {
        if self.accepts(len_threshold) {
            self.send(item)
        } else {
            self
        }
    }

    /// The channel after the consumer asked for an item: the oldest one leaves.
    pub open spec fn yield_one(self) -> DataView<T> {
        if self.queue.len() > 0 {
            DataView { queue: self.queue.skip(1), ..self }
        } else {
            self
        }
    }

    /// What the consumer gets: the oldest item; the end once the queue is
    /// drained and no producer is left; else it has to wait.
    pub open spec fn yield_result(self) -> ControlFlow<Option<T>> {
        if self.queue.len() > 0 {
            ControlFlow::Break(Some(self.queue[0]))
        } else if self.senders == 0 {
            ControlFlow::Break(None)
        } else {
            ControlFlow::Continue(())
        }
    }

    /// One more producer. The count stays where it is at the largest machine
    /// number.
    pub open spec fn clone_sender(self) -> DataView<T> {
        DataView {
            senders: if self.senders < usize::MAX {
                self.senders + 1
            } else {
                self.senders
            },
            ..self
        }
    }

    /// One producer less.
    pub open spec fn drop_sender(self) -> DataView<T> {
        DataView {
            senders: if self.senders > 0 {
                (self.senders - 1) as nat
            } else {
                0
            },
            ..self
        }
    }

    /// The consumer goes away.
    pub open spec fn drop_receiver(self) -> DataView<T> {
        DataView { has_receiver: false, ..self }
    }
}

impl<T> View for Data<T> {
    type V = DataView<T>;

    closed spec fn view(&self) -> DataView<T> {
        DataView {
            queue: self.queue@,
            senders: self.sender_count as nat,
            has_receiver: self.has_receiver,
        }
    }
}

impl<T> Source for Data<T> {
    type Item = T;

    open spec fn buffered(&self) -> nat {
        self@.queue.len()
    }

    open spec fn orphaned(&self) -> bool {
        self@.senders == 0
    }

    fn try_yield_one(&mut self) -> (r: ControlFlow<Option<T>>)
        ensures
            r == old(self)@.yield_result(),
            final(self)@ == old(self)@.yield_one(),
    {
        if let Some(item) = self.queue.pop() {
            ControlFlow::Break(Some(item))
        } else if self.sender_count == 0 {
            ControlFlow::Break(None)
        } else {
            ControlFlow::Continue(())
        }
    }
}

impl<T> Data<T> {
    /// The data of a new channel: one producer, the consumer, nothing queued.
    pub fn new() -> (data: Self)
        ensures
            data@ == DataView::<T>::empty(),
    {
        Data { queue: Queue::new(), sender_count: 1, has_receiver: true }
    }
}

impl<T> SharedState<Data<T>> {
    /// Queues `item` and resumes the waiting consumer. The item is queued
    /// whether or not a consumer is left to take it.
    pub fn send(&mut self, item: T)
        ensures
            final(self).inner@ == old(self).inner@.send(item),
            final(self).waker@ == old(self).waker@.take_and_wake(),
    {
        self.inner.queue.push(item);
        self.notify();
    }

    /// Queues `item` if fewer than `len_threshold` items are waiting, and tells
    /// whether it did. An item that is not queued is dropped.
    pub fn try_send(&mut self, len_threshold: usize, item: T) -> (sent: bool)
        ensures
            sent == old(self).inner@.accepts(len_threshold as nat),
            final(self).inner@ == old(self).inner@.try_send(len_threshold as nat, item),
            final(self).waker@ == if sent {
                old(self).waker@.take_and_wake()
            } else {
                old(self).waker@
            },
    {
        if self.inner.queue.len() < len_threshold {
            self.send(item);
            true
        } else {
            false
        }
    }

    /// Takes back every queued item that equals `item`, and tells whether there
    /// was one. The other items keep their order.
    pub fn remove_all(&mut self, item: &T) -> (removed: bool) where T: PartialEq
        ensures
            removed == (final(self).inner@.queue.len() != old(self).inner@.queue.len()),
            T::obeys_eq_spec() ==> final(self).inner@.queue == without(
                old(self).inner@.queue,
                *item,
            ),
            final(self).inner@.senders == old(self).inner@.senders,
            final(self).inner@.has_receiver == old(self).inner@.has_receiver,
            final(self).waker@ == old(self).waker@,
    {
        self.inner.queue.remove_all(item)
    }

    /// Takes the oldest item for the consumer, or registers it to wait.
    pub fn poll_next(&mut self, cx: &Context<'_>) -> (r: Poll<Option<T>>)
        ensures
            r == poll_of(old(self).inner@.yield_result()),
            final(self).inner@ == old(self).inner@.yield_one(),
            final(self).waker@ == if r is Pending {
                old(self).waker@.update(context_task(cx))
            } else {
                old(self).waker@
            },
    {
        self.poll_wait(cx)
    }

    /// Counts one more producer.
    pub fn clone_sender(&mut self)
        ensures
            final(self).inner@ == old(self).inner@.clone_sender(),
            final(self).waker@ == old(self).waker@,
    {
        if self.inner.sender_count < usize::MAX {
            self.inner.sender_count = self.inner.sender_count + 1;
        }
    }

    /// Counts one producer less. When the last one goes, the waiting consumer
    /// is resumed so that it can see the end of the stream.
    pub fn drop_sender(&mut self)
        ensures
            final(self).inner@ == old(self).inner@.drop_sender(),
            final(self).waker@ == if old(self).inner@.senders == 1 {
                old(self).waker@.take_and_wake()
            } else {
                old(self).waker@
            },
    {
        if self.inner.sender_count > 0 {
            self.inner.sender_count = self.inner.sender_count - 1;
            if self.inner.sender_count == 0 {
                self.notify();
            }
        }
    }

    /// The consumer goes away, without being resumed.
    pub fn drop_receiver(&mut self)
        ensures
            final(self).inner@ == old(self).inner@.drop_receiver(),
            final(self).waker@ == old(self).waker@.reset(),
    {
        self.receiver_dropped();
        self.inner.has_receiver = false;
    }

    /// Whether the consumer is alive.
    pub fn has_receiver(&self) -> (alive: bool)
        ensures
            alive == self.inner@.has_receiver,
    {
        self.inner.has_receiver
    }

    /// Whether any producer is alive.
    pub fn has_sender(&self) -> (alive: bool)
        ensures
            alive == (self.inner@.senders > 0),
    {
        self.inner.sender_count > 0
    }

    /// Whether items wait for the consumer.
    pub fn has_pending_data(&self) -> (pending: bool)
        ensures
            pending == (self.inner@.queue.len() > 0),
    {
        !self.inner.queue.is_empty()
    }
}

/// An unbounded channel with a soft limit and retraction: a producer, which is
/// counted, and a consumer that share one state block, which is made with that
/// one producer, the consumer, nothing queued and nobody waiting.
pub fn channel<T>() -> (ends: (Sender<T>, Receiver<T>))
    ensures
        ends.0.shared().same_value(&ends.1.shared()),
        ends.0.shared().origin().inner@ == DataView::<T>::empty(),
        ends.0.shared().origin().waker@ == WakerView::idle(),
        ends.0.is_open(),
{
    let state = LocalShared::new(SharedState::new(Data::new()));
    (Sender { state: state.clone(), open: true }, Receiver(state))
}

/// A producing side of a channel.
///
/// The state block is shared with the other handles, so a contract here speaks
/// of the block as it happens to be when the call is made.
#[verifier::reject_recursive_types(T)]
pub struct Sender<T> {
    state: LocalShared<SharedState<Data<T>>>,
    open: bool,
}

/// The consuming side of a channel.
#[verifier::reject_recursive_types(T)]
pub struct Receiver<T>(LocalShared<SharedState<Data<T>>>);

impl<T> Sender<T> {
    /// The capability through which this handle reaches the state block.
    pub closed spec fn shared(&self) -> LocalShared<SharedState<Data<T>>> {
        self.state
    }

    /// This handle is counted among the producers: it was not closed.
    pub closed spec fn is_open(&self) -> bool {
        self.open
    }

    /// Whether this handle is counted among the producers.
    pub fn is_counted(&self) -> (counted: bool)
        ensures
            counted == self.is_open(),
    {
        self.open
    }

    /// Whether the consumer is gone: [`SharedState::has_receiver`] on the
    /// shared block. `None` tells that the block is in use.
    pub fn is_closed(&self) -> (r: Option<bool>)
        ensures
            r matches Some(closed) ==> exists|data: DataView<T>|
                closed == !(#[trigger] data.has_receiver),
    {
        self.state.access(
            |state: &mut SharedState<Data<T>>| -> (closed: bool)
                ensures
                    closed == !old(state).inner@.has_receiver
                { !state.has_receiver() },
        )
    }

    /// Queues `item` for the consumer: [`SharedState::send`] on the shared
    /// block. The item comes back if the block is in use.
    pub fn send(&self, item: T) -> (r: Result<(), Busy<T>>)
        ensures
            r matches Err(busy) ==> busy.0 == item,
    {
        self.state.access_with(
            item,
            |state: &mut SharedState<Data<T>>, item: T| { state.send(item) },
        )
    }

    /// Queues `item` if fewer than `len_threshold` items are waiting, and tells
    /// whether it did: [`SharedState::try_send`] on the shared block. With a
    /// limit of zero nothing is queued. The item comes back if the block is in
    /// use.
    #[must_use]
    pub fn try_send(&self, len_threshold: usize, item: T) -> (r: Result<bool, Busy<T>>)
        ensures
            r matches Ok(sent) ==> exists|data: DataView<T>|
                sent == #[trigger] data.accepts(len_threshold as nat),
            r matches Ok(sent) ==> (len_threshold == 0 ==> !sent),
            r matches Err(busy) ==> busy.0 == item,
    {
        self.state.access_with(
            item,
            |state: &mut SharedState<Data<T>>, item: T| -> (sent: bool)
                ensures
                    sent == old(state).inner@.accepts(len_threshold as nat)
                { state.try_send(len_threshold, item) },
        )
    }

    /// Takes back every queued item that equals `item`, and tells whether there
    /// was one: [`SharedState::remove_all`] on the shared block. Where `==` on
    /// the items is what `eq_spec` says, an item was taken back exactly if the
    /// queue held one that equals `item`. `None` tells that the block is in
    /// use.
    pub fn remove_all(&self, item: &T) -> (r: Option<bool>) where T: PartialEq
        ensures
            T::obeys_eq_spec() ==> (r matches Some(removed) ==> exists|queue: Seq<T>|
                removed == (#[trigger] without(queue, *item).len() != queue.len())),
    {
        self.state.access(
            |state: &mut SharedState<Data<T>>| -> (removed: bool)
                ensures
                    T::obeys_eq_spec() ==> removed == (without(
                        old(state).inner@.queue,
                        *item,
                    ).len() != old(state).inner@.queue.len())
                { state.remove_all(item) },
        )
    }

    /// This producer goes away: [`SharedState::drop_sender`] on the shared
    /// block. A handle is counted out once: closing it again does nothing. The
    /// result tells whether the handle is closed now: it is not if the block is
    /// in use.
    pub fn close(&mut self) -> (done: bool)
        ensures
            final(self).is_open() == (old(self).is_open() && !done),
            final(self).shared() == old(self).shared(),
    {
        if self.open {
            let done = self.state.access(
                |state: &mut SharedState<Data<T>>| { state.drop_sender() },
            ).is_some();
            if done {
                self.open = false;
            }
            done
        } else {
            true
        }
    }
}

impl<T> Clone for Sender<T> {
    /// One more producer for the same channel: [`SharedState::clone_sender`] on
    /// the shared block. If the block is in use, the new handle is not counted:
    /// it is closed from the start.
    fn clone(&self) -> (sender: Self)
        ensures
            sender.shared().same_value(&self.shared()),
    {
        let counted = self.state.access(
            |state: &mut SharedState<Data<T>>| { state.clone_sender() },
        ).is_some();
        Sender { state: self.state.clone(), open: counted }
    }
}

impl<T> Receiver<T> {
    /// The capability through which this handle reaches the state block.
    pub closed spec fn shared(&self) -> LocalShared<SharedState<Data<T>>> {
        self.0
    }

    /// Whether items wait for the consumer:
    /// [`SharedState::has_pending_data`] on the shared block. `None` tells that
    /// the block is in use.
    pub fn has_pending_data(&self) -> (r: Option<bool>)
        ensures
            r matches Some(pending) ==> exists|data: DataView<T>|
                pending == (#[trigger] data.queue.len() > 0),
    {
        self.0.access(
            |state: &mut SharedState<Data<T>>| -> (pending: bool)
                ensures
                    pending == (old(state).inner@.queue.len() > 0)
                { state.has_pending_data() },
        )
    }

    /// Whether every producer is gone: [`SharedState::has_sender`] on the
    /// shared block. `None` tells that the block is in use.
    pub fn is_closed(&self) -> (r: Option<bool>)
        ensures
            r matches Some(closed) ==> exists|data: DataView<T>|
                closed == (#[trigger] data.senders == 0),
    {
        self.0.access(
            |state: &mut SharedState<Data<T>>| -> (closed: bool)
                ensures
                    closed == (old(state).inner@.senders == 0)
                { !state.has_sender() },
        )
    }

    /// Takes the oldest item, or registers the consumer to wait for one:
    /// [`SharedState::poll_next`] on the shared block. `None` tells that the
    /// block is in use.
    pub fn poll_next(&mut self, cx: &Context<'_>) -> (r: Option<Poll<Option<T>>>)
        ensures
            r matches Some(next) ==> exists|data: DataView<T>|
                next == poll_of(#[trigger] data.yield_result()),
            final(self).shared() == old(self).shared(),
    {
        self.0.access(
            |state: &mut SharedState<Data<T>>| -> (r: Poll<Option<T>>)
                ensures
                    r == poll_of(old(state).inner@.yield_result())
                { state.poll_next(cx) },
        )
    }

    /// The consumer goes away: [`SharedState::drop_receiver`] on the shared
    /// block. The result tells whether that was done: it was not if the block
    /// is in use.
    pub fn close(&mut self) -> (done: bool)
        ensures
            final(self).shared() == old(self).shared(),
    {
        self.0.access(|state: &mut SharedState<Data<T>>| { state.drop_receiver() }).is_some()
    }
}

/// A send that respects a limit never lets the queue grow beyond it, and a
/// queue within the limit stays within it.
pub proof fn lemma_threshold_is_respected<T>(data: DataView<T>, len_threshold: nat, item: T)
    requires
        data.queue.len() <= len_threshold,
    ensures
        data.try_send(len_threshold, item).queue.len() <= len_threshold,
        data.accepts(len_threshold) ==> data.try_send(len_threshold, item).queue
            == data.queue.push(item),
        !data.accepts(len_threshold) ==> data.try_send(len_threshold, item) == data,
{
}

} // verus!
