//! An unbounded queue from many producers to one consumer. Producers never
//! wait; the consumer waits while the queue is empty.

use super::error::SendError;
use super::shared_state::poll_of;
use super::shared_state::SharedState;
use super::shared_state::Source;
use super::task::context_task;
use super::waker_cell::WakerView;
use crate::sealed::queue::holds;
use crate::sealed::queue::without;
use crate::sealed::Queue;
use crate::shared::Busy;
use crate::shared::LocalShared;
use std::ops::ControlFlow;
use std::task::Context;
use std::task::Poll;
use vstd::prelude::*;
use vstd::std_specs::cmp::PartialEqSpec;

verus! {

/// What the handles of an unbounded channel share, beside the consumer's slot.
pub struct Data<T> {
    queue: Queue<T>,
    sender_count: usize,
    has_receiver: bool,
}

/// The model of a [`Data`].
pub struct DataView<T> {
    /// The items sent and not yet received, oldest first.
    pub queue: Seq<T>,
    /// The number of producers that are alive.
    pub senders: nat,
    /// The consumer is alive.
    pub has_receiver: bool,
}

impl<T> DataView<T> {
    /// A channel with one producer, the consumer, and nothing queued.
    pub open spec fn empty() -> DataView<T> {
        DataView { queue: Seq::empty(), senders: 1, has_receiver: true }
    }

    /// The channel after a send: the item is queued if the consumer is alive.
    pub open spec fn send(self, item: T) -> DataView<T> {
        if self.has_receiver {
            DataView { queue: self.queue.push(item), ..self }
        } else {
            self
        }
    }

    /// What a send reports: the item comes back if the consumer is gone.
    pub open spec fn send_result(self, item: T) -> Result<(), SendError<T>> {
        if self.has_receiver {
            Ok(())
        } else {
            Err(SendError::Closed(item))
        }
    }

    /// The channel after the consumer asked for an item: the oldest one leaves.
    pub open spec fn yield_one(self) -> DataView<T> {
        if self.queue.len() > 0 {
            DataView { queue: self.queue.skip(1), ..self }
        } else {
            self
        }
    }

    /// What the consumer gets: the oldest item; the end once the queue is
    /// drained and no producer is left; else it has to wait.
    pub open spec fn yield_result(self) -> ControlFlow<Option<T>> {
        if self.queue.len() > 0 {
            ControlFlow::Break(Some(self.queue[0]))
        } else if self.senders == 0 {
            ControlFlow::Break(None)
        } else {
            ControlFlow::Continue(())
        }
    }

    /// The channel after every queued item that equals `item` was taken out.
    pub open spec fn remove_all(self, item: T) -> DataView<T> where T: PartialEq {
        DataView { queue: without(self.queue, item), ..self }
    }

    /// One more producer. The count stays where it is at the largest machine
    /// number.
    pub open spec fn clone_sender(self) -> DataView<T> {
        DataView {
            senders: if self.senders < usize::MAX {
                self.senders + 1
            } else {
                self.senders
            },
            ..self
        }
    }

    /// One producer less.
    pub open spec fn drop_sender(self) -> DataView<T> {
        DataView {
            senders: if self.senders > 0 {
                (self.senders - 1) as nat
            } else {
                0
            },
            ..self
        }
    }

    /// The consumer goes away.
    pub open spec fn drop_receiver(self) -> DataView<T> {
        DataView { has_receiver: false, ..self }
    }
}

impl<T> View for Data<T> {
    type V = DataView<T>;

    closed spec fn view(&self) -> DataView<T> {
        DataView {
            queue: self.queue@,
            senders: self.sender_count as nat,
            has_receiver: self.has_receiver,
        }
    }
}

impl<T> Source for Data<T> {
    type Item = T;

    open spec fn buffered(&self) -> nat {
        self@.queue.len()
    }

    open spec fn orphaned(&self) -> bool {
        self@.senders == 0
    }

    fn try_yield_one(&mut self) -> (r: ControlFlow<Option<T>>)
        ensures
            r == old(self)@.yield_result(),
            final(self)@ == old(self)@.yield_one(),
    {
        if let Some(item) = self.queue.pop() {
            ControlFlow::Break(Some(item))
        } else if self.sender_count == 0 {
            ControlFlow::Break(None)
        } else {
            ControlFlow::Continue(())
        }
    }
}

impl<T> Data<T> {
    /// The data of a new channel: one producer, the consumer, nothing queued.
    pub fn new() -> (data: Self)
        ensures
            data@ == DataView::<T>::empty(),
    {
        Data { queue: Queue::new(), sender_count: 1, has_receiver: true }
    }
}

impl<T> SharedState<Data<T>> {
    /// Queues `item` and resumes the waiting consumer, or hands the item back
    /// if the consumer is gone.
    pub fn send(&mut self, item: T) -> (r: Result<(), SendError<T>>)
        ensures
            final(self).inner@ == old(self).inner@.send(item),
            r == old(self).inner@.send_result(item),
            final(self).waker@ == if r is Ok {
                old(self).waker@.take_and_wake()
            } else {
                old(self).waker@
            },
    {
        if !self.inner.has_receiver {
            Err(SendError::Closed(item))
        } else {
            self.inner.queue.push(item);
            self.notify();
            Ok(())
        }
    }

    /// Counts one more producer.
    pub fn clone_sender(&mut self)
        ensures
            final(self).inner@ == old(self).inner@.clone_sender(),
            final(self).waker@ == old(self).waker@,
    {
        if self.inner.sender_count < usize::MAX {
            self.inner.sender_count = self.inner.sender_count + 1;
        }
    }

    /// Counts one producer less. When the last one goes, the waiting consumer
    /// is resumed so that it can see the end of the stream.
    pub fn drop_sender(&mut self)
        ensures
            final(self).inner@ == old(self).inner@.drop_sender(),
            final(self).waker@ == if old(self).inner@.senders == 1 {
                old(self).waker@.take_and_wake()
            } else {
                old(self).waker@
            },
    {
        if self.inner.sender_count > 0 {
            self.inner.sender_count = self.inner.sender_count - 1;
            if self.inner.sender_count == 0 {
                self.notify();
            }
        }
    }

    /// The consumer goes away, without being resumed.
    pub fn drop_receiver(&mut self)
        ensures
            final(self).inner@ == old(self).inner@.drop_receiver(),
            final(self).waker@ == old(self).waker@.reset(),
    {
        self.receiver_dropped();
        self.inner.has_receiver = false;
    }

    /// Takes the oldest item for the consumer, or registers it to wait: items
    /// leave oldest first, and the end is reported only on a drained queue
    /// without producers.
    pub fn poll_next(&mut self, cx: &Context<'_>) -> (r: Poll<Option<T>>)
        ensures
            r == poll_of(old(self).inner@.yield_result()),
            final(self).inner@ == old(self).inner@.yield_one(),
            final(self).waker@ == if r is Pending {
                old(self).waker@.update(context_task(cx))
            } else {
                old(self).waker@
            },
    {
        self.poll_wait(cx)
    }

    /// Whether a queued item equals `item`.
    pub fn contains(&self, item: &T) -> (found: bool) where T: PartialEq
        ensures
            T::obeys_eq_spec() ==> found == holds(self.inner@.queue, *item),
    {
        self.inner.queue.contains(item)
    }

    /// Takes out every queued item that equals `item`, keeping the others in
    /// order, and tells whether there was one. Nobody is resumed.
    pub fn remove_all(&mut self, item: &T) -> (removed: bool) where T: PartialEq
        ensures
            removed == (final(self).inner@.queue.len() != old(self).inner@.queue.len()),
            T::obeys_eq_spec() ==> final(self).inner@ == old(self).inner@.remove_all(*item),
            final(self).inner@.senders == old(self).inner@.senders,
            final(self).inner@.has_receiver == old(self).inner@.has_receiver,
            final(self).inner@.queue.len() <= old(self).inner@.queue.len(),
            final(self).waker@ == old(self).waker@,
    {
        self.inner.queue.remove_all(item)
    }

    /// Whether the consumer is alive.
    pub fn has_receiver(&self) -> (alive: bool)
        ensures
            alive == self.inner@.has_receiver,
    {
        self.inner.has_receiver
    }

    /// The number of producers that are alive.
    pub fn sender_count(&self) -> (count: usize)
        ensures
            count == self.inner@.senders,
    {
        self.inner.sender_count
    }

    /// The number of queued items.
    pub fn len(&self) -> (len: usize)
        ensures
            len == self.inner@.queue.len(),
    {
        self.inner.queue.len()
    }
}

/// Unbounded MPSC channel: a producer, which is counted, and a consumer that
/// share one state block, which is made with that one producer, the consumer,
/// nothing queued and nobody waiting.
pub fn channel<T>() -> (ends: (Sender<T>, Receiver<T>))
    ensures
        ends.0.shared().same_value(&ends.1.shared()),
        ends.0.shared().origin().inner@ == DataView::<T>::empty(),
        ends.0.shared().origin().waker@ == WakerView::idle(),
        ends.0.is_open(),
{
    let state = LocalShared::new(SharedState::new(Data::new()));
    (Sender { state: state.clone(), open: true }, Receiver(state))
}

/// A producing side of an unbounded channel.
///
/// The state block is shared with the other handles, so a contract here speaks
/// of the block as it happens to be when the call is made.
#[verifier::reject_recursive_types(T)]
pub struct Sender<T> {
    state: LocalShared<SharedState<Data<T>>>,
    open: bool,
}

/// The consuming side of an unbounded channel.
///
/// The state block is shared with the producers, so a contract here speaks of
/// the block as it happens to be when the call is made.
#[verifier::reject_recursive_types(T)]
pub struct Receiver<T>(LocalShared<SharedState<Data<T>>>);

impl<T> Sender<T> {
    /// The capability through which this handle reaches the state block.
    pub closed spec fn shared(&self) -> LocalShared<SharedState<Data<T>>> {
        self.state
    }

    /// This handle is counted among the producers: it was not closed.
    pub closed spec fn is_open(&self) -> bool {
        self.open
    }

    /// Whether the consumer is gone: [`SharedState::has_receiver`] on the
    /// shared block. `None` tells that the block is in use.
    pub fn is_closed(&self) -> (r: Option<bool>)
        ensures
            r matches Some(closed) ==> exists|data: DataView<T>|
                closed == !(#[trigger] data.has_receiver),
    {
        self.state.access(
            |state: &mut SharedState<Data<T>>| -> (closed: bool)
                ensures
                    closed == !old(state).inner@.has_receiver
                { !state.has_receiver() },
        )
    }

    /// Queues `item` for the consumer: [`SharedState::send`] on the shared
    /// block. The item comes back as closed if the consumer is gone, and as
    /// `Busy` if the block is in use; there is no other failure, and the
    /// producer never waits.
    pub fn send(&self, item: T) -> (r: Result<Result<(), SendError<T>>, Busy<T>>)
        ensures
            r matches Ok(sent) ==> exists|data: DataView<T>|
                sent == #[trigger] data.send_result(item),
            r matches Ok(Err(e)) ==> e == SendError::Closed(item),
            r matches Err(busy) ==> busy.0 == item,
    {
        self.state.access_with(
            item,
            |state: &mut SharedState<Data<T>>, item: T| -> (r: Result<(), SendError<T>>)
                ensures
                    r == old(state).inner@.send_result(item)
                { state.send(item) },
        )
    }

    /// The number of queued items: [`SharedState::len`] on the shared block.
    /// `None` tells that the block is in use.
    pub fn len(&self) -> (r: Option<usize>)
        ensures
            r matches Some(len) ==> exists|data: DataView<T>|
                len == #[trigger] data.queue.len() && data.queue.len() <= usize::MAX,
    {
        self.state.access(
            |state: &mut SharedState<Data<T>>| -> (len: usize)
                ensures
                    len == old(state).inner@.queue.len()
                { state.len() },
        )
    }

    /// Whether a queued item equals `item`: [`SharedState::contains`] on the
    /// shared block. `None` tells that the block is in use.
    pub fn contains(&self, item: &T) -> (r: Option<bool>) where T: PartialEq
        ensures
            T::obeys_eq_spec() ==> (r matches Some(found) ==> exists|data: DataView<T>|
                found == #[trigger] holds(data.queue, *item)),
    {
        self.state.access(
            |state: &mut SharedState<Data<T>>| -> (found: bool)
                ensures
                    T::obeys_eq_spec() ==> found == holds(old(state).inner@.queue, *item)
                { state.contains(item) },
        )
    }

    /// Takes back every queued item that equals `item`, and tells whether there
    /// was one: [`SharedState::remove_all`] on the shared block. `None` tells
    /// that the block is in use.
    pub fn remove_all(&self, item: &T) -> (r: Option<bool>) where T: PartialEq
        ensures
            T::obeys_eq_spec() ==> (r matches Some(removed) ==> exists|data: DataView<T>|
                removed == (#[trigger] data.remove_all(*item).queue.len() != data.queue.len())),
    {
        self.state.access(
            |state: &mut SharedState<Data<T>>| -> (removed: bool)
                ensures
                    T::obeys_eq_spec() ==> removed == (old(state).inner@.remove_all(
                        *item,
                    ).queue.len() != old(state).inner@.queue.len())
                { state.remove_all(item) },
        )
    }

    /// This producer goes away: [`SharedState::drop_sender`] on the shared
    /// block. A handle is counted out once: closing it again does nothing. The
    /// result tells whether the handle is closed now: it is not if the block is
    /// in use.
    pub fn close(&mut self) -> (done: bool)
        ensures
            final(self).is_open() == (old(self).is_open() && !done),
            final(self).shared() == old(self).shared(),
    {
        if self.open {
            let done = self.state.access(
                |state: &mut SharedState<Data<T>>| { state.drop_sender() },
            ).is_some();
            if done {
                self.open = false;
            }
            done
        } else {
            true
        }
    }

    /// Whether this handle is counted among the producers.
    pub fn is_counted(&self) -> (counted: bool)
        ensures
            counted == self.is_open(),
    {
        self.open
    }
}

impl<T> Clone for Sender<T> {
    /// One more producer for the same channel: [`SharedState::clone_sender`] on
    /// the shared block. If the block is in use, the new handle is not counted:
    /// it is closed from the start.
    fn clone(&self) -> (sender: Self)
        ensures
            sender.shared().same_value(&self.shared()),
    {
        let counted = self.state.access(
            |state: &mut SharedState<Data<T>>| { state.clone_sender() },
        ).is_some();
        Sender { state: self.state.clone(), open: counted }
    }
}

impl<T> Receiver<T> {
    /// The capability through which this handle reaches the state block.
    pub closed spec fn shared(&self) -> LocalShared<SharedState<Data<T>>> {
        self.0
    }

    /// Whether every producer is gone: [`SharedState::sender_count`] on the
    /// shared block. `None` tells that the block is in use.
    pub fn is_closed(&self) -> (r: Option<bool>)
        ensures
            r matches Some(closed) ==> exists|data: DataView<T>|
                closed == (#[trigger] data.senders == 0),
    {
        self.0.access(
            |state: &mut SharedState<Data<T>>| -> (closed: bool)
                ensures
                    closed == (old(state).inner@.senders == 0)
                { state.sender_count() == 0 },
        )
    }

    /// Takes the oldest item, or registers the consumer to wait for one:
    /// [`SharedState::poll_next`] on the shared block. `None` tells that the
    /// block is in use.
    pub fn poll_next(&mut self, cx: &Context<'_>) -> (r: Option<Poll<Option<T>>>)
        ensures
            r matches Some(next) ==> exists|data: DataView<T>|
                next == poll_of(#[trigger] data.yield_result()),
            final(self).shared() == old(self).shared(),
    {
        self.0.access(
            |state: &mut SharedState<Data<T>>| -> (r: Poll<Option<T>>)
                ensures
                    r == poll_of(old(state).inner@.yield_result())
                { state.poll_next(cx) },
        )
    }

    /// The number of queued items: [`SharedState::len`] on the shared block.
    /// `None` tells that the block is in use.
    pub fn len(&self) -> (r: Option<usize>)
        ensures
            r matches Some(len) ==> exists|data: DataView<T>|
                len == #[trigger] data.queue.len() && data.queue.len() <= usize::MAX,
    {
        self.0.access(
            |state: &mut SharedState<Data<T>>| -> (len: usize)
                ensures
                    len == old(state).inner@.queue.len()
                { state.len() },
        )
    }

    /// Whether a queued item equals `item`: [`SharedState::contains`] on the
    /// shared block. `None` tells that the block is in use.
    pub fn contains(&self, item: &T) -> (r: Option<bool>) where T: PartialEq
        ensures
            T::obeys_eq_spec() ==> (r matches Some(found) ==> exists|data: DataView<T>|
                found == #[trigger] holds(data.queue, *item)),
    {
        self.0.access(
            |state: &mut SharedState<Data<T>>| -> (found: bool)
                ensures
                    T::obeys_eq_spec() ==> found == holds(old(state).inner@.queue, *item)
                { state.contains(item) },
        )
    }

    /// Takes out every queued item that equals `item`, and tells whether there
    /// was one: [`SharedState::remove_all`] on the shared block. `None` tells
    /// that the block is in use.
    pub fn remove_all(&self, item: &T) -> (r: Option<bool>) where T: PartialEq
        ensures
            T::obeys_eq_spec() ==> (r matches Some(removed) ==> exists|data: DataView<T>|
                removed == (#[trigger] data.remove_all(*item).queue.len() != data.queue.len())),
    {
        self.0.access(
            |state: &mut SharedState<Data<T>>| -> (removed: bool)
                ensures
                    T::obeys_eq_spec() ==> removed == (old(state).inner@.remove_all(
                        *item,
                    ).queue.len() != old(state).inner@.queue.len())
                { state.remove_all(item) },
        )
    }

    /// The consumer goes away: [`SharedState::drop_receiver`] on the shared
    /// block. The result tells whether that was done: it was not if the block
    /// is in use.
    pub fn close(&mut self) -> (done: bool)
        ensures
            final(self).shared() == old(self).shared(),
    {
        self.0.access(|state: &mut SharedState<Data<T>>| { state.drop_receiver() }).is_some()
    }
}

/// Sending appends and receiving takes from the front, so what was sent comes
/// out in the order of sending: an item that is sent waits behind those that
/// are queued, and is the next one on an empty queue.
pub proof fn lemma_fifo<T>(data: DataView<T>, item: T)
    requires
        data.has_receiver,
    ensures
        data.send(item).queue == data.queue.push(item),
        data.queue.len() > 0 ==> data.send(item).yield_result() == data.yield_result(),
        data.queue.len() == 0 ==> data.send(item).yield_result() == ControlFlow::<
            Option<T>,
            (),
        >::Break(Some(item)),
        data.queue.len() == 0 ==> data.send(item).yield_one().queue == Seq::<T>::empty(),
{
}

/// Dropping the last producer loses nothing: the queue is as it was, the
/// consumer still gets every queued item, and it is told the end exactly when
/// the queue is empty.
pub proof fn lemma_last_sender_gone<T>(data: DataView<T>)
    requires
        data.senders == 1,
    ensures
        data.drop_sender().queue == data.queue,
        data.drop_sender().senders == 0,
        data.drop_sender().yield_result() == if data.queue.len() > 0 {
            ControlFlow::<Option<T>, ()>::Break(Some(data.queue[0]))
        } else {
            ControlFlow::<Option<T>, ()>::Break(None)
        },
        data.drop_sender().yield_one().senders == 0,
{
}

/// The channel after each item of `items` was sent, in order.
pub open spec fn send_all<T>(data: DataView<T>, items: Seq<T>) -> DataView<T>
    decreases items.len(),
{
    if items.len() == 0 {
        data
    } else {
        send_all(data, items.drop_last()).send(items.last())
    }
}

/// The channel after the consumer asked `attempts` times for an item.
pub open spec fn yield_many<T>(data: DataView<T>, attempts: nat) -> DataView<T>
    decreases attempts,
{
    if attempts == 0 {
        data
    } else {
        yield_many(data, (attempts - 1) as nat).yield_one()
    }
}

/// Sending to a live consumer queues every item, in order.
pub proof fn lemma_send_all<T>(data: DataView<T>, items: Seq<T>)
    requires
        data.has_receiver,
    ensures
        send_all(data, items).queue == data.queue + items,
        send_all(data, items).senders == data.senders,
        send_all(data, items).has_receiver,
    decreases items.len(),
{
    if items.len() > 0 {
        lemma_send_all(data, items.drop_last());
    }
}

/// Each attempt takes the oldest item while there is one.
pub proof fn lemma_yield_many<T>(data: DataView<T>, attempts: nat)
    requires
        attempts <= data.queue.len(),
    ensures
        yield_many(data, attempts).queue == data.queue.skip(attempts as int),
        yield_many(data, attempts).senders == data.senders,
    decreases attempts,
{
    if attempts > 0 {
        lemma_yield_many(data, (attempts - 1) as nat);
    }
}

/// What goes in comes out: when `items` are sent into a new channel and the
/// producer is dropped, the consumer gets exactly `items`, in order, one per
/// attempt, and the attempt after the last item reports the end.
pub proof fn lemma_round_trip<T>(items: Seq<T>, attempts: nat)
    requires
        attempts <= items.len(),
    ensures
        ({
            let sent = send_all(DataView::<T>::empty(), items).drop_sender();
            let left = yield_many(sent, attempts);
            &&& sent.queue == items
            &&& attempts < items.len() ==> left.yield_result() == ControlFlow::<
                Option<T>,
                (),
            >::Break(Some(items[attempts as int]))
            &&& attempts == items.len() ==> left.yield_result() == ControlFlow::<
                Option<T>,
                (),
            >::Break(None)
        }),
{
    let empty = DataView::<T>::empty();
    lemma_send_all(empty, items);
    let sent = send_all(empty, items).drop_sender();
    lemma_yield_many(sent, attempts);
}

/// The count of producers follows clones and drops, and going below zero is
/// not possible: a drop without a producer changes nothing.
pub proof fn lemma_sender_count<T>(data: DataView<T>)
    ensures
        data.senders < usize::MAX ==> data.clone_sender().drop_sender() == data,
        data.senders == 0 ==> data.drop_sender() == data,
        data.drop_receiver().drop_receiver() == data.drop_receiver(),
{
}

} // verus!
