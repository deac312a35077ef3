//! A bounded queue from one producer to one consumer. The producer waits while
//! the queue is full, the consumer while it is empty.

use super::error::SendError;
use super::error::TrySendError;
use super::task::context_task;
use super::waker_cell::WakerCell;
use super::waker_cell::WakerView;
use crate::sealed::queue::holds;
use crate::sealed::queue::without;
use crate::sealed::Queue;
use crate::shared::Busy;
use crate::shared::LocalShared;
use std::task::Context;
use std::task::Poll;
use vstd::prelude::*;
use vstd::std_specs::cmp::PartialEqSpec;

verus! {

/// The state block that the two handles of a bounded channel share.
pub struct State<T> {
    queue: Queue<T>,
    tx_waker: WakerCell,
    rx_waker: WakerCell,
    has_tx: bool,
    has_rx: bool,
    capacity: usize,
}

/// The model of a [`State`].
pub struct StateView<T> {
    /// The items sent and not yet received, oldest first.
    pub queue: Seq<T>,
    /// The most items that the queue holds.
    pub capacity: nat,
    /// The producer is alive.
    pub has_tx: bool,
    /// The consumer is alive.
    pub has_rx: bool,
    /// The slot of the producer, which waits for room.
    pub tx_waker: WakerView,
    /// The slot of the consumer, which waits for an item.
    pub rx_waker: WakerView,
}

impl<T> StateView<T> {
    /// A channel with both sides alive, nothing queued and nobody waiting.
    pub open spec fn empty(capacity: nat) -> StateView<T> {
        StateView {
            queue: Seq::empty(),
            capacity,
            has_tx: true,
            has_rx: true,
            tx_waker: WakerView::idle(),
            rx_waker: WakerView::idle(),
        }
    }

    /// The queue holds no more than the capacity.
    pub open spec fn within_capacity(self) -> bool {
        self.queue.len() <= self.capacity
    }

    /// There is room for one more item.
    pub open spec fn has_room(self) -> bool {
        self.queue.len() < self.capacity
    }

    /// The channel after `item` was queued: a waiting consumer is resumed.
    pub open spec fn push(self, item: T) -> StateView<T> {
        StateView { queue: self.queue.push(item), rx_waker: self.rx_waker.take_and_wake(), ..self }
    }

    /// The producer, which is the task `task`, registers itself to wait.
    pub open spec fn park_sender(self, task: int) -> StateView<T> {
        StateView { tx_waker: self.tx_waker.update(task), ..self }
    }

    /// The channel after a send that does not wait: the item is queued if the
    /// consumer is alive and there is room, and else nothing changes.
    pub open spec fn try_send(self, item: T) -> StateView<T> {
        if self.has_rx && self.has_room() {
            self.push(item)
        } else {
            self
        }
    }

    /// What a send that does not wait reports.
    pub open spec fn try_send_result(self, item: T) -> Result<(), TrySendError<T>> {
        if !self.has_rx {
            Err(TrySendError::Closed(item))
        } else if self.has_room() {
            Ok(())
        } else {
            Err(TrySendError::Full(item))
        }
    }

    /// The channel after the producer, polled as the task `task`, asked whether
    /// it may send: it is registered to wait if the consumer is alive and the
    /// queue is full.
    pub open spec fn poll_ready(self, task: int) -> StateView<T> {
        if self.has_rx && !self.has_room() {
            self.park_sender(task)
        } else {
            self
        }
    }

    /// Whether the producer may send: no if the consumer is gone, yes if there
    /// is room, and else it has to wait.
    pub open spec fn poll_ready_result(self) -> Poll<bool> {
        if !self.has_rx {
            Poll::Ready(false)
        } else if self.has_room() {
            Poll::Ready(true)
        } else {
            Poll::Pending
        }
    }

    /// The channel after one step of a send that waits for room, made by the
    /// producer as the task `task`.
    pub open spec fn poll_send(self, item: T, task: int) -> StateView<T> {
        if !self.has_rx {
            self
        } else if self.has_room() {
            self.push(item)
        } else {
            self.park_sender(task)
        }
    }

    /// What one step of a send that waits for room reports.
    pub open spec fn poll_send_result(self, item: T) -> Poll<Result<(), SendError<T>>> {
        if !self.has_rx {
            Poll::Ready(Err(SendError::Closed(item)))
        } else if self.has_room() {
            Poll::Ready(Ok(()))
        } else {
            Poll::Pending
        }
    }

    /// The channel after the producer, polled as the task `task`, asked whether
    /// the consumer is gone: it is registered to wait while the consumer is
    /// alive.
    pub open spec fn poll_closed(self, task: int) -> StateView<T> {
        if self.has_rx {
            self.park_sender(task)
        } else {
            self
        }
    }

    /// Whether the consumer is gone, as the producer is told.
    pub open spec fn poll_closed_result(self) -> Poll<()> {
        if self.has_rx {
            Poll::Pending
        } else {
            Poll::Ready(())
        }
    }

    /// The channel after the consumer, polled as the task `task`, asked for an
    /// item: the oldest item leaves and a waiting producer is resumed; on an
    /// empty queue with the producer alive the consumer is registered to wait.
    pub open spec fn poll_next(self, task: int) -> StateView<T> {
        if self.queue.len() > 0 {
            StateView {
                queue: self.queue.skip(1),
                tx_waker: self.tx_waker.take_and_wake(),
                ..self
            }
        } else if !self.has_tx {
            self
        } else {
            StateView { rx_waker: self.rx_waker.update(task), ..self }
        }
    }

    /// What the consumer gets: the oldest item; the end of the stream once the
    /// queue is drained and the producer is gone; else it has to wait.
    pub open spec fn poll_next_result(self) -> Poll<Option<T>> {
        if self.queue.len() > 0 {
            Poll::Ready(Some(self.queue[0]))
        } else if !self.has_tx {
            Poll::Ready(None)
        } else {
            Poll::Pending
        }
    }

    /// The channel after every queued item that equals `item` was taken out.
    pub open spec fn remove_all(self, item: T) -> StateView<T> where T: PartialEq {
        StateView { queue: without(self.queue, item), ..self }
    }

    /// The producer goes away: it waits no longer, and a waiting consumer is
    /// resumed.
    pub open spec fn sender_dropped(self) -> StateView<T> {
        StateView {
            has_tx: false,
            tx_waker: self.tx_waker.reset(),
            rx_waker: self.rx_waker.take_and_wake(),
            ..self
        }
    }

    /// The consumer goes away: a waiting producer is resumed.
    pub open spec fn receiver_dropped(self) -> StateView<T> {
        StateView { has_rx: false, tx_waker: self.tx_waker.take_and_wake(), ..self }
    }
}

impl<T> View for State<T> {
    type V = StateView<T>;

    closed spec fn view(&self) -> StateView<T> {
        StateView {
            queue: self.queue@,
            capacity: self.capacity as nat,
            has_tx: self.has_tx,
            has_rx: self.has_rx,
            tx_waker: self.tx_waker@,
            rx_waker: self.rx_waker@,
        }
    }
}

impl<T> State<T> {
    /// A channel that holds at most `limit` items, with both sides alive.
    pub fn new(limit: usize) -> (state: Self)
        ensures
            state@ == StateView::<T>::empty(limit as nat),
    {
        State {
            queue: Queue::with_capacity(limit),
            tx_waker: WakerCell::new(),
            rx_waker: WakerCell::new(),
            has_tx: true,
            has_rx: true,
            capacity: limit,
        }
    }

    /// Queues `item` if that needs no waiting, and hands it back if not.
    pub fn try_send(&mut self, item: T) -> (r: Result<(), TrySendError<T>>)
        ensures
            final(self)@ == old(self)@.try_send(item),
            r == old(self)@.try_send_result(item),
    {
        if !self.has_rx {
            Err(TrySendError::Closed(item))
        } else if self.queue.len() < self.capacity {
            self.queue.push(item);
            self.rx_waker.take_and_wake();
            Ok(())
        } else {
            Err(TrySendError::Full(item))
        }
    }

    /// Tells whether the producer may send now, and registers it to wait if the
    /// queue is full.
    pub fn poll_ready(&mut self, cx: &Context<'_>) -> (r: Poll<bool>)
        ensures
            final(self)@ == old(self)@.poll_ready(context_task(cx)),
            r == old(self)@.poll_ready_result(),
    {
        if !self.has_rx {
            Poll::Ready(false)
        } else if self.queue.len() < self.capacity {
            Poll::Ready(true)
        } else {
            self.tx_waker.update(cx);
            Poll::Pending
        }
    }

    /// One step of a send that waits for room. The item is taken out of `slot`
    /// when it is queued or refused, and stays there while the producer waits.
    pub fn poll_send(&mut self, cx: &Context<'_>, slot: &mut Option<T>) -> (r: Poll<
        Result<(), SendError<T>>,
    >)
        requires
            *old(slot) is Some,
        ensures
            final(self)@ == old(self)@.poll_send(old(slot)->0, context_task(cx)),
            r == old(self)@.poll_send_result(old(slot)->0),
            *final(slot) == if r is Pending {
                *old(slot)
            } else {
                None
            },
    {
        if !self.has_rx {
            let item = slot.take().unwrap();
            Poll::Ready(Err(SendError::Closed(item)))
        } else if self.queue.len() < self.capacity {
            let item = slot.take().unwrap();
            self.queue.push(item);
            self.rx_waker.take_and_wake();
            Poll::Ready(Ok(()))
        } else {
            self.tx_waker.update(cx);
            Poll::Pending
        }
    }

    /// Tells whether the consumer is gone, and registers the producer to wait
    /// for that if it is not.
    pub fn poll_closed(&mut self, cx: &Context<'_>) -> (r: Poll<()>)
        ensures
            final(self)@ == old(self)@.poll_closed(context_task(cx)),
            r == old(self)@.poll_closed_result(),
    {
        if !self.has_rx {
            Poll::Ready(())
        } else {
            self.tx_waker.update(cx);
            Poll::Pending
        }
    }

    /// Takes the oldest item, or registers the consumer to wait for one.
    pub fn poll_next(&mut self, cx: &Context<'_>) -> (r: Poll<Option<T>>)
        ensures
            final(self)@ == old(self)@.poll_next(context_task(cx)),
            r == old(self)@.poll_next_result(),
    {
        if let Some(item) = self.queue.pop() {
            self.tx_waker.take_and_wake();
            Poll::Ready(Some(item))
        } else if !self.has_tx {
            Poll::Ready(None)
        } else {
            self.rx_waker.update(cx);
            Poll::Pending
        }
    }

    /// The producer goes away.
    pub fn sender_dropped(&mut self)
        ensures
            final(self)@ == old(self)@.sender_dropped(),
    {
        self.has_tx = false;
        self.tx_waker.reset();
        self.rx_waker.take_and_wake();
    }

    /// The consumer goes away.
    pub fn receiver_dropped(&mut self)
        ensures
            final(self)@ == old(self)@.receiver_dropped(),
    {
        self.has_rx = false;
        self.tx_waker.take_and_wake();
    }

    /// Whether a queued item equals `item`.
    pub fn contains(&self, item: &T) -> (found: bool) where T: PartialEq
        ensures
            T::obeys_eq_spec() ==> found == holds(self@.queue, *item),
    {
        self.queue.contains(item)
    }

    /// Takes out every queued item that equals `item`, keeping the others in
    /// order, and tells whether there was one. Nobody is resumed.
    pub fn remove_all(&mut self, item: &T) -> (removed: bool) where T: PartialEq
        ensures
            removed == (final(self)@.queue.len() != old(self)@.queue.len()),
            T::obeys_eq_spec() ==> final(self)@ == old(self)@.remove_all(*item),
            final(self)@.capacity == old(self)@.capacity,
            final(self)@.has_tx == old(self)@.has_tx,
            final(self)@.has_rx == old(self)@.has_rx,
            final(self)@.tx_waker == old(self)@.tx_waker,
            final(self)@.rx_waker == old(self)@.rx_waker,
            final(self)@.queue.len() <= old(self)@.queue.len(),
    {
        self.queue.remove_all(item)
    }

    /// Whether the producer is alive.
    pub fn has_sender(&self) -> (alive: bool)
        ensures
            alive == self@.has_tx,
    {
        self.has_tx
    }

    /// Whether the consumer is alive.
    pub fn has_receiver(&self) -> (alive: bool)
        ensures
            alive == self@.has_rx,
    {
        self.has_rx
    }

    /// The number of queued items.
    pub fn len(&self) -> (len: usize)
        ensures
            len == self@.queue.len(),
    {
        self.queue.len()
    }

    /// The most items that the queue holds.
    pub fn capacity(&self) -> (capacity: usize)
        ensures
            capacity == self@.capacity,
    {
        self.capacity
    }
}

/// Bounded SPSC channel that holds at most `limit` items: a producer and a
/// consumer that share one state block, which is made empty, with the capacity
/// `limit`, both sides alive and nobody waiting.
pub fn channel<T>(limit: usize) -> (ends: (Sender<T>, Receiver<T>))
    ensures
        ends.0.shared().same_value(&ends.1.shared()),
        ends.0.shared().origin()@ == StateView::<T>::empty(limit as nat),
{
    let shared = LocalShared::new(State::new(limit));
    (Sender(shared.clone()), Receiver(shared))
}

/// The producing side of a bounded channel.
///
/// The state block is shared with the consumer, so a contract here speaks of
/// the block as it happens to be when the call is made.
#[verifier::reject_recursive_types(T)]
pub struct Sender<T>(LocalShared<State<T>>);

/// The consuming side of a bounded channel.
///
/// The state block is shared with the producer, so a contract here speaks of
/// the block as it happens to be when the call is made.
#[verifier::reject_recursive_types(T)]
pub struct Receiver<T>(LocalShared<State<T>>);

impl<T> Sender<T> {
    /// The capability through which this handle reaches the state block.
    pub closed spec fn shared(&self) -> LocalShared<State<T>> {
        self.0
    }

    /// [`State::poll_send`] on the shared block. `None` tells that the block is
    /// in use; the item then stays in `slot`.
    pub fn poll_send(&mut self, cx: &Context<'_>, slot: &mut Option<T>) -> (r: Option<
        Poll<Result<(), SendError<T>>>,
    >)
        requires
            *old(slot) is Some,
        ensures
            r matches Some(sent) ==> exists|state: StateView<T>|
                sent == #[trigger] state.poll_send_result(old(slot)->0),
            *final(slot) == if r matches Some(sent) && !(sent is Pending) {
                None
            } else {
                *old(slot)
            },
            final(self).shared() == old(self).shared(),
    {
        let entered = self.0.access_with(
            slot,
            |state: &mut State<T>, slot: &mut Option<T>| -> (r: Poll<Result<(), SendError<T>>>)
                requires
                    *old(slot) is Some,
                ensures
                    r == old(state)@.poll_send_result(old(slot)->0),
                    *final(slot) == if r is Pending {
                        *old(slot)
                    } else {
                        None
                    }
                { state.poll_send(cx, slot) },
        );
        match entered {
            Ok(sent) => Some(sent),
            Err(_) => None,
        }
    }

    /// [`State::poll_closed`] on the shared block. `None` tells that the block
    /// is in use.
    pub fn poll_closed(&mut self, cx: &Context<'_>) -> (r: Option<Poll<()>>)
        ensures
            r matches Some(closed) ==> exists|state: StateView<T>|
                closed == #[trigger] state.poll_closed_result(),
            final(self).shared() == old(self).shared(),
    {
        self.0.access(
            |state: &mut State<T>| -> (r: Poll<()>)
                ensures
                    r == old(state)@.poll_closed_result()
                { state.poll_closed(cx) },
        )
    }

    /// [`State::try_send`] on the shared block. `Err(Busy(item))` tells that
    /// the block is in use.
    pub fn try_send(&mut self, item: T) -> (r: Result<Result<(), TrySendError<T>>, Busy<T>>)
        ensures
            r matches Ok(sent) ==> exists|state: StateView<T>|
                sent == #[trigger] state.try_send_result(item),
            r matches Err(busy) ==> busy.0 == item,
            final(self).shared() == old(self).shared(),
    {
        self.0.access_with(
            item,
            |state: &mut State<T>, item: T| -> (r: Result<(), TrySendError<T>>)
                ensures
                    r == old(state)@.try_send_result(item)
                { state.try_send(item) },
        )
    }

    /// Whether the consumer is gone: [`State::has_receiver`] on the shared
    /// block. `None` tells that the block is in use.
    pub fn is_closed(&self) -> (r: Option<bool>)
        ensures
            r matches Some(closed) ==> exists|state: StateView<T>|
                closed == !(#[trigger] state.has_rx),
    {
        self.0.access(
            |state: &mut State<T>| -> (closed: bool)
                ensures
                    closed == !old(state)@.has_rx
                { !state.has_receiver() },
        )
    }

    /// [`State::poll_ready`] on the shared block. `None` tells that the block is
    /// in use.
    pub fn poll_ready(&mut self, cx: &Context<'_>) -> (r: Option<Poll<bool>>)
        ensures
            r matches Some(ready) ==> exists|state: StateView<T>|
                ready == #[trigger] state.poll_ready_result(),
            final(self).shared() == old(self).shared(),
    {
        self.0.access(
            |state: &mut State<T>| -> (r: Poll<bool>)
                ensures
                    r == old(state)@.poll_ready_result()
                { state.poll_ready(cx) },
        )
    }

    /// The number of queued items: [`State::len`] on the shared block. `None`
    /// tells that the block is in use.
    pub fn len(&self) -> (r: Option<usize>)
        ensures
            r matches Some(len) ==> exists|state: StateView<T>|
                len == #[trigger] state.queue.len() && state.queue.len() <= usize::MAX,
    {
        self.0.access(
            |state: &mut State<T>| -> (len: usize)
                ensures
                    len == old(state)@.queue.len()
                { state.len() },
        )
    }

    /// Whether a queued item equals `item`: [`State::contains`] on the shared
    /// block. `None` tells that the block is in use.
    pub fn contains(&self, item: &T) -> (r: Option<bool>) where T: PartialEq
        ensures
            T::obeys_eq_spec() ==> (r matches Some(found) ==> exists|state: StateView<T>|
                found == #[trigger] holds(state.queue, *item)),
    {
        self.0.access(
            |state: &mut State<T>| -> (found: bool)
                ensures
                    T::obeys_eq_spec() ==> found == holds(old(state)@.queue, *item)
                { state.contains(item) },
        )
    }

    /// Takes back every queued item that equals `item`, and tells whether there
    /// was one: [`State::remove_all`] on the shared block. `None` tells that
    /// the block is in use.
    pub fn remove_all(&self, item: &T) -> (r: Option<bool>) where T: PartialEq
        ensures
            T::obeys_eq_spec() ==> (r matches Some(removed) ==> exists|state: StateView<T>|
                removed == (#[trigger] state.remove_all(*item).queue.len() != state.queue.len())),
    {
        self.0.access(
            |state: &mut State<T>| -> (removed: bool)
                ensures
                    T::obeys_eq_spec() ==> removed == (old(state)@.remove_all(*item).queue.len()
                        != old(state)@.queue.len())
                { state.remove_all(item) },
        )
    }

    /// The producer goes away: [`State::sender_dropped`] on the shared block.
    /// The result tells whether that was done: it was not if the block is in
    /// use.
    pub fn close(&mut self) -> (done: bool)
        ensures
            final(self).shared() == old(self).shared(),
    {
        self.0.access(|state: &mut State<T>| { state.sender_dropped() }).is_some()
    }
}

impl<T> Receiver<T> {
    /// The capability through which this handle reaches the state block.
    pub closed spec fn shared(&self) -> LocalShared<State<T>> {
        self.0
    }

    /// Whether the producer is gone: [`State::has_sender`] on the shared block.
    /// `None` tells that the block is in use.
    pub fn is_closed(&self) -> (r: Option<bool>)
        ensures
            r matches Some(closed) ==> exists|state: StateView<T>|
                closed == !(#[trigger] state.has_tx),
    {
        self.0.access(
            |state: &mut State<T>| -> (closed: bool)
                ensures
                    closed == !old(state)@.has_tx
                { !state.has_sender() },
        )
    }

    /// [`State::poll_next`] on the shared block. `None` tells that the block is
    /// in use.
    pub fn poll_next(&mut self, cx: &Context<'_>) -> (r: Option<Poll<Option<T>>>)
        ensures
            r matches Some(next) ==> exists|state: StateView<T>|
                next == #[trigger] state.poll_next_result(),
            final(self).shared() == old(self).shared(),
    {
        self.0.access(
            |state: &mut State<T>| -> (r: Poll<Option<T>>)
                ensures
                    r == old(state)@.poll_next_result()
                { state.poll_next(cx) },
        )
    }

    /// The number of queued items: [`State::len`] on the shared block. `None`
    /// tells that the block is in use.
    pub fn len(&self) -> (r: Option<usize>)
        ensures
            r matches Some(len) ==> exists|state: StateView<T>|
                len == #[trigger] state.queue.len() && state.queue.len() <= usize::MAX,
    {
        self.0.access(
            |state: &mut State<T>| -> (len: usize)
                ensures
                    len == old(state)@.queue.len()
                { state.len() },
        )
    }

    /// Whether a queued item equals `item`: [`State::contains`] on the shared
    /// block. `None` tells that the block is in use.
    pub fn contains(&self, item: &T) -> (r: Option<bool>) where T: PartialEq
        ensures
            T::obeys_eq_spec() ==> (r matches Some(found) ==> exists|state: StateView<T>|
                found == #[trigger] holds(state.queue, *item)),
    {
        self.0.access(
            |state: &mut State<T>| -> (found: bool)
                ensures
                    T::obeys_eq_spec() ==> found == holds(old(state)@.queue, *item)
                { state.contains(item) },
        )
    }

    /// Takes out every queued item that equals `item`, and tells whether there
    /// was one: [`State::remove_all`] on the shared block. `None` tells that
    /// the block is in use.
    pub fn remove_all(&self, item: &T) -> (r: Option<bool>) where T: PartialEq
        ensures
            T::obeys_eq_spec() ==> (r matches Some(removed) ==> exists|state: StateView<T>|
                removed == (#[trigger] state.remove_all(*item).queue.len() != state.queue.len())),
    {
        self.0.access(
            |state: &mut State<T>| -> (removed: bool)
                ensures
                    T::obeys_eq_spec() ==> removed == (old(state)@.remove_all(*item).queue.len()
                        != old(state)@.queue.len())
                { state.remove_all(item) },
        )
    }

    /// The consumer goes away: [`State::receiver_dropped`] on the shared block.
    /// The result tells whether that was done: it was not if the block is in
    /// use.
    pub fn close(&mut self) -> (done: bool)
        ensures
            final(self).shared() == old(self).shared(),
    {
        self.0.access(|state: &mut State<T>| { state.receiver_dropped() }).is_some()
    }
}

/// The queue never holds more than the capacity, and the capacity never
/// changes: every transition keeps both.
pub proof fn lemma_capacity_is_kept<T>(state: StateView<T>, item: T, task: int)
    requires
        state.within_capacity(),
    ensures
        StateView::<T>::empty(state.capacity).within_capacity(),
        state.try_send(item).within_capacity(),
        state.poll_send(item, task).within_capacity(),
        state.poll_ready(task).within_capacity(),
        state.poll_closed(task).within_capacity(),
        state.poll_next(task).within_capacity(),
        state.sender_dropped().within_capacity(),
        state.receiver_dropped().within_capacity(),
        state.try_send(item).capacity == state.capacity,
        state.poll_send(item, task).capacity == state.capacity,
        state.poll_next(task).capacity == state.capacity,
{
}

/// A side that has to wait is registered with its own continuation: after a
/// poll that tells to wait, the slot of that side holds the task that polled,
/// whoever was registered there before. A poll that does not tell to wait
/// registers nobody.
pub proof fn lemma_waiter_is_the_polling_task<T>(state: StateView<T>, item: T, task: int)
    ensures
        state.poll_ready_result() is Pending ==> state.poll_ready(task).tx_waker.task == Some(
            task,
        ),
        state.poll_send_result(item) is Pending ==> state.poll_send(item, task).tx_waker.task
            == Some(task),
        state.poll_closed_result() is Pending ==> state.poll_closed(task).tx_waker.task == Some(
            task,
        ),
        state.poll_next_result() is Pending ==> state.poll_next(task).rx_waker.task == Some(task),
        !(state.poll_ready_result() is Pending) ==> state.poll_ready(task) == state,
        !(state.poll_closed_result() is Pending) ==> state.poll_closed(task) == state,
        !(state.poll_next_result() is Pending) ==> state.poll_next(task).rx_waker
            == state.rx_waker,
        state.poll_ready(task).queue == state.queue,
        state.poll_closed(task).queue == state.queue,
{
}

/// A waiting consumer is resumed once by each send that goes through and by
/// no send that does not, and a waiting producer once by each item that is
/// taken and by no attempt that takes none.
pub proof fn lemma_wakes_once_per_item<T>(state: StateView<T>, item: T, task: int)
    ensures
        state.try_send_result(item) is Ok ==> state.try_send(item).rx_waker
            == state.rx_waker.take_and_wake(),
        state.try_send_result(item) is Err ==> state.try_send(item).rx_waker == state.rx_waker,
        state.poll_next_result() matches Poll::Ready(Some(_)) ==> state.poll_next(task).tx_waker
            == state.tx_waker.take_and_wake(),
        !(state.poll_next_result() matches Poll::Ready(Some(_))) ==> state.poll_next(
            task,
        ).tx_waker == state.tx_waker,
        state.rx_waker.armed() && state.try_send_result(item) is Ok ==> state.try_send(
            item,
        ).rx_waker.wakes() == state.rx_waker.wakes() + 1,
        state.tx_waker.armed() && state.queue.len() > 0 ==> state.poll_next(
            task,
        ).tx_waker.wakes() == state.tx_waker.wakes() + 1,
{
}

/// The task that waits is the task that is resumed. A consumer that found the
/// queue empty is resumed by the next send, and by it alone; a producer that
/// found the queue full is resumed by the next item taken; and a producer that
/// waits, for room or for the consumer's end, is resumed when the consumer
/// goes away.
pub proof fn lemma_waiting_side_is_resumed<T>(
    state: StateView<T>,
    item: T,
    consumer: int,
    producer: int,
)
    requires
        state.has_tx,
        state.has_rx,
        state.capacity > 0,
    ensures
        state.queue.len() == 0 ==> state.poll_next(consumer).try_send(item).rx_waker.woken
            == state.rx_waker.woken.push(consumer),
        state.queue.len() == 0 ==> state.poll_next(consumer).sender_dropped().rx_waker.woken
            == state.rx_waker.woken.push(consumer),
        state.queue.len() == state.capacity ==> state.poll_ready(producer).poll_next(
            consumer,
        ).tx_waker.woken == state.tx_waker.woken.push(producer),
        state.queue.len() == state.capacity ==> state.poll_send(item, producer).poll_next(
            consumer,
        ).tx_waker.woken == state.tx_waker.woken.push(producer),
        state.queue.len() == state.capacity ==> state.poll_send(
            item,
            producer,
        ).receiver_dropped().tx_waker.woken == state.tx_waker.woken.push(producer),
        state.poll_closed(producer).receiver_dropped().tx_waker.woken
            == state.tx_waker.woken.push(producer),
{
}

/// A side that goes away resumes the other side once, and going away a second
/// time changes nothing. A producer that goes away is never resumed later.
pub proof fn lemma_drop_wakes_once<T>(state: StateView<T>)
    ensures
        state.sender_dropped().sender_dropped() == state.sender_dropped(),
        state.receiver_dropped().receiver_dropped() == state.receiver_dropped(),
        state.sender_dropped().rx_waker == state.rx_waker.take_and_wake(),
        state.receiver_dropped().tx_waker == state.tx_waker.take_and_wake(),
        state.sender_dropped().receiver_dropped().tx_waker.woken == state.tx_waker.woken,
        state.sender_dropped().receiver_dropped().rx_waker == state.sender_dropped().rx_waker,
        state.receiver_dropped().sender_dropped().tx_waker.woken
            == state.receiver_dropped().tx_waker.woken,
{
}

/// Items leave in the order in which they came, and the end of the stream is
/// reported only once the queue is drained: with the producer gone, the
/// consumer gets the oldest item while there is one.
pub proof fn lemma_drains_before_end<T>(state: StateView<T>, task: int)
    ensures
        state.queue.len() > 0 ==> state.poll_next_result() == Poll::Ready(Some(state.queue[0]))
            && state.poll_next(task).queue == state.queue.skip(1),
        state.poll_next_result() == Poll::<Option<T>>::Ready(None) <==> state.queue.len() == 0
            && !state.has_tx,
        state.sender_dropped().queue == state.queue,
        state.sender_dropped().poll_next_result() !is Pending,
{
}

} // verus!
