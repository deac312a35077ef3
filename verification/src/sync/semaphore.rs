//! Counting semaphores: one that producers credit and a consumer draws from,
//! and one with a fixed number of permits that are handed out and given back.

use super::shared_state::SharedState;
use super::shared_state::Source;
use super::task::context_task;
use super::waker_cell::WakerView;
use crate::shared::Busy;
use crate::shared::LocalShared;
use std::ops::ControlFlow;
use std::task::Context;
use std::task::Poll;
use vstd::prelude::*;

verus! {

/// What the handles of a credited semaphore share, beside the consumer's slot.
pub struct MpscData {
    capacity: usize,
    sender_count: usize,
}

/// The model of an [`MpscData`].
pub struct MpscView {
    /// The units that were credited and not yet drawn.
    pub capacity: nat,
    /// The number of crediting handles that are alive.
    pub senders: nat,
}

impl MpscView {
    /// A semaphore with one crediting handle and `capacity` units.
    pub open spec fn initial(capacity: nat) -> MpscView {
        MpscView { capacity, senders: 1 }
    }

    /// One unit is credited. The count stays where it is at the largest
    /// machine number.
    pub open spec fn signal_one(self) -> MpscView {
        MpscView {
            capacity: if self.capacity < usize::MAX {
                self.capacity + 1
            } else {
                self.capacity
            },
            ..self
        }
    }

    /// The consumer asked for a unit: one is drawn if there is one.
    pub open spec fn yield_one(self) -> MpscView {
        MpscView {
            capacity: if self.capacity > 0 {
                (self.capacity - 1) as nat
            } else {
                0
            },
            ..self
        }
    }

    /// What the consumer gets: a unit if there is one; the end if there is
    /// none and nobody is left to credit one; else it has to wait.
    pub open spec fn yield_result(self) -> ControlFlow<Option<()>> {
        if self.capacity > 0 {
            ControlFlow::Break(Some(()))
        } else if self.senders == 0 {
            ControlFlow::Break(None)
        } else {
            ControlFlow::Continue(())
        }
    }

    /// What an acquisition reports for an outcome: whether a unit was drawn.
    pub open spec fn acquire_result(self) -> Poll<bool> {
        match self.yield_result() {
            ControlFlow::Break(output) => Poll::Ready(output is Some),
            ControlFlow::Continue(_) => Poll::Pending,
        }
    }

    /// All units are taken at once.
    pub open spec fn drain(self) -> MpscView {
        MpscView { capacity: 0, ..self }
    }

    /// One more crediting handle. The count stays where it is at the largest
    /// machine number.
    pub open spec fn clone_sender(self) -> MpscView {
        MpscView {
            senders: if self.senders < usize::MAX {
                self.senders + 1
            } else {
                self.senders
            },
            ..self
        }
    }

    /// One crediting handle less.
    pub open spec fn drop_sender(self) -> MpscView {
        MpscView {
            senders: if self.senders > 0 {
                (self.senders - 1) as nat
            } else {
                0
            },
            ..self
        }
    }
}

impl View for MpscData {
    type V = MpscView;

    closed spec fn view(&self) -> MpscView {
        MpscView { capacity: self.capacity as nat, senders: self.sender_count as nat }
    }
}

impl Source for MpscData {
    type Item = ();

    open spec fn buffered(&self) -> nat {
        self@.capacity
    }

    open spec fn orphaned(&self) -> bool {
        self@.senders == 0
    }

    fn try_yield_one(&mut self) -> (r: ControlFlow<Option<()>>)
        ensures
            r == old(self)@.yield_result(),
            final(self)@ == old(self)@.yield_one(),
    {
        if self.capacity > 0 {
            self.capacity = self.capacity - 1;
            ControlFlow::Break(Some(()))
        } else if self.sender_count == 0 {
            ControlFlow::Break(None)
        } else {
            ControlFlow::Continue(())
        }
    }
}

impl MpscData {
    /// The data of a new semaphore: one crediting handle, `initial_capacity`
    /// units.
    pub fn new(initial_capacity: usize) -> (data: Self)
        ensures
            data@ == MpscView::initial(initial_capacity as nat),
    {
        MpscData { capacity: initial_capacity, sender_count: 1 }
    }
}

impl SharedState<MpscData> {
    /// Credits one unit and resumes the waiting consumer.
    pub fn signal_one(&mut self)
        ensures
            final(self).inner@ == old(self).inner@.signal_one(),
            final(self).waker@ == old(self).waker@.take_and_wake(),
    {
        if self.inner.capacity < usize::MAX {
            self.inner.capacity = self.inner.capacity + 1;
        }
        self.notify();
    }

    /// Draws one unit for the consumer: `true` for a unit, `false` once there
    /// is none and nobody is left to credit one. Else the consumer is
    /// registered to wait.
    pub fn acquire_one(&mut self, cx: &Context<'_>) -> (r: Poll<bool>)
        ensures
            r == old(self).inner@.acquire_result(),
            final(self).inner@ == old(self).inner@.yield_one(),
            final(self).waker@ == if r is Pending {
                old(self).waker@.update(context_task(cx))
            } else {
                old(self).waker@
            },
    {
        match self.poll_wait(cx) {
            Poll::Ready(output) => Poll::Ready(output.is_some()),
            Poll::Pending => Poll::Pending,
        }
    }

    /// Takes all units at once and returns how many there were.
    pub fn drain(&mut self) -> (drained: usize)
        ensures
            drained == old(self).inner@.capacity,
            final(self).inner@ == old(self).inner@.drain(),
            final(self).waker@ == old(self).waker@,
    {
        let drained = self.inner.capacity;
        self.inner.capacity = 0;
        drained
    }

    /// Counts one more crediting handle.
    pub fn clone_sender(&mut self)
        ensures
            final(self).inner@ == old(self).inner@.clone_sender(),
            final(self).waker@ == old(self).waker@,
    {
        if self.inner.sender_count < usize::MAX {
            self.inner.sender_count = self.inner.sender_count + 1;
        }
    }

    /// Counts one crediting handle less. When the last one goes, the waiting
    /// consumer is resumed so that it can see the end.
    pub fn drop_sender(&mut self)
        ensures
            final(self).inner@ == old(self).inner@.drop_sender(),
            final(self).waker@ == if old(self).inner@.senders == 1 {
                old(self).waker@.take_and_wake()
            } else {
                old(self).waker@
            },
    {
        if self.inner.sender_count > 0 {
            self.inner.sender_count = self.inner.sender_count - 1;
            if self.inner.sender_count == 0 {
                self.notify();
            }
        }
    }
}

/// A semaphore that its senders credit, one unit per signal, and from which
/// its receiver draws. The two handles share one state block, which is made
/// with `initial_capacity` units, the one crediting handle and nobody waiting.
pub fn mpsc_semaphore(initial_capacity: usize) -> (ends: (Sender, Receiver))
    ensures
        ends.0.shared().same_value(&ends.1.shared()),
        ends.0.shared().origin().inner@ == MpscView::initial(initial_capacity as nat),
        ends.0.shared().origin().waker@ == WakerView::idle(),
        ends.0.is_open(),
{
    let state = LocalShared::new(SharedState::new(MpscData::new(initial_capacity)));
    (Sender { state: state.clone(), open: true }, Receiver(state))
}

/// A crediting handle.
pub struct Sender {
    state: LocalShared<SharedState<MpscData>>,
    open: bool,
}

/// The drawing handle. There is one: the engine has one slot.
pub struct Receiver(LocalShared<SharedState<MpscData>>);

impl Sender {
    /// The capability through which this handle reaches the state block.
    pub closed spec fn shared(&self) -> LocalShared<SharedState<MpscData>> {
        self.state
    }

    /// This handle is counted among the crediting handles: it was not closed.
    pub closed spec fn is_open(&self) -> bool {
        self.open
    }

    /// Whether this handle is counted among the crediting handles.
    pub fn is_counted(&self) -> (counted: bool)
        ensures
            counted == self.is_open(),
    {
        self.open
    }

    /// Credits one unit and resumes the waiting consumer:
    /// [`SharedState::signal_one`] on the shared block. The result tells
    /// whether that was done: it was not if the block is in use.
    pub fn signal_one(&self) -> (done: bool) {
        self.state.access(|state: &mut SharedState<MpscData>| { state.signal_one() }).is_some()
    }

    /// This handle goes away: [`SharedState::drop_sender`] on the shared block.
    /// A handle is counted out once: closing it again does nothing. The result
    /// tells whether the handle is closed now: it is not if the block is in
    /// use.
    pub fn close(&mut self) -> (done: bool)
        ensures
            final(self).is_open() == (old(self).is_open() && !done),
            final(self).shared() == old(self).shared(),
    {
        if self.open {
            let done = self.state.access(
                |state: &mut SharedState<MpscData>| { state.drop_sender() },
            ).is_some();
            if done {
                self.open = false;
            }
            done
        } else {
            true
        }
    }
}

impl Clone for Sender {
    /// One more crediting handle for the same semaphore:
    /// [`SharedState::clone_sender`] on the shared block. If the block is in
    /// use, the new handle is not counted: it is closed from the start.
    fn clone(&self) -> (sender: Self)
        ensures
            sender.shared().same_value(&self.shared()),
    {
        let counted = self.state.access(
            |state: &mut SharedState<MpscData>| { state.clone_sender() },
        ).is_some();
        Sender { state: self.state.clone(), open: counted }
    }
}

impl Receiver {
    /// The capability through which this handle reaches the state block.
    pub closed spec fn shared(&self) -> LocalShared<SharedState<MpscData>> {
        self.0
    }

    /// One step of drawing a unit: [`SharedState::acquire_one`] on the shared
    /// block. `None` tells that the block is in use.
    pub fn acquire_one(&mut self, cx: &Context<'_>) -> (r: Option<Poll<bool>>)
        ensures
            r matches Some(drawn) ==> exists|sem: MpscView|
                drawn == #[trigger] sem.acquire_result(),
            final(self).shared() == old(self).shared(),
    {
        self.0.access(
            |state: &mut SharedState<MpscData>| -> (r: Poll<bool>)
                ensures
                    r == old(state).inner@.acquire_result()
                { state.acquire_one(cx) },
        )
    }

    /// Takes all units at once and returns how many there were:
    /// [`SharedState::drain`] on the shared block. `None` tells that the block
    /// is in use.
    pub fn drain(&mut self) -> (r: Option<usize>)
        ensures
            r matches Some(drained) ==> exists|sem: MpscView| drained == #[trigger] sem.capacity,
            final(self).shared() == old(self).shared(),
    {
        self.0.access(
            |state: &mut SharedState<MpscData>| -> (drained: usize)
                ensures
                    drained == old(state).inner@.capacity
                { state.drain() },
        )
    }

    /// The consumer goes away: [`SharedState::receiver_dropped`] on the shared
    /// block. The result tells whether that was done: it was not if the block
    /// is in use.
    pub fn close(&mut self) -> (done: bool)
        ensures
            final(self).shared() == old(self).shared(),
    {
        self.0.access(|state: &mut SharedState<MpscData>| { state.receiver_dropped() }).is_some()
    }
}

/// Units are counted: each signal credits one unit and each acquisition draws
/// one, and a drain leaves none.
pub proof fn lemma_credit_is_counted(sem: MpscView)
    requires
        sem.capacity < usize::MAX,
    ensures
        sem.signal_one().capacity == sem.capacity + 1,
        sem.signal_one().yield_one() == sem,
        sem.signal_one().acquire_result() == Poll::Ready(true),
        sem.drain().capacity == 0,
        sem.senders > 0 ==> sem.drain().acquire_result() == Poll::<bool>::Pending,
{
}

/// Units that were credited before the last crediting handle went away can
/// still be drawn; the end is reported when none is left.
pub proof fn lemma_credit_outlives_sender(sem: MpscView)
    requires
        sem.senders == 1,
    ensures
        sem.drop_sender().capacity == sem.capacity,
        sem.capacity > 0 ==> sem.drop_sender().acquire_result() == Poll::Ready(true),
        sem.capacity == 0 ==> sem.drop_sender().acquire_result() == Poll::Ready(false),
{
}

/// What the holders of a permit semaphore share, beside the slot of the task
/// that waits for a permit.
///
/// `outstanding` is ghost: it counts the permits that are out.
pub struct SemData {
    capacity: usize,
    initial: usize,
    outstanding: Ghost<nat>,
}

/// The model of a [`SemData`].
pub struct SemView {
    /// The permits that can be handed out now.
    pub available: nat,
    /// The permits that are out.
    pub outstanding: nat,
    /// The number of permits that the semaphore was made with.
    pub initial: nat,
}

impl SemView {
    /// A semaphore with all of its `capacity` permits available.
    pub open spec fn full(capacity: nat) -> SemView {
        SemView { available: capacity, outstanding: 0, initial: capacity }
    }

    /// Permits are neither made nor lost: those available and those out are
    /// together as many as the semaphore was made with.
    pub open spec fn conserved(self) -> bool {
        self.available + self.outstanding == self.initial
    }

    /// A permit is handed out if one is available.
    pub open spec fn acquire(self) -> SemView {
        if self.available > 0 {
            SemView {
                available: (self.available - 1) as nat,
                outstanding: self.outstanding + 1,
                ..self
            }
        } else {
            self
        }
    }

    /// Whether a permit is handed out.
    pub open spec fn can_acquire(self) -> bool {
        self.available > 0
    }

    /// A permit comes back. Nothing comes back to a semaphore that has all of
    /// its permits.
    pub open spec fn release(self) -> SemView {
        if self.available < self.initial {
            SemView {
                available: self.available + 1,
                outstanding: if self.outstanding > 0 {
                    (self.outstanding - 1) as nat
                } else {
                    0
                },
                ..self
            }
        } else {
            self
        }
    }
}

impl View for SemData {
    type V = SemView;

    closed spec fn view(&self) -> SemView {
        SemView {
            available: self.capacity as nat,
            outstanding: self.outstanding@,
            initial: self.initial as nat,
        }
    }
}

impl Source for SemData {
    type Item = ();

    open spec fn buffered(&self) -> nat {
        self@.available
    }

    /// Permits come back as long as any is out, so the semaphore never reports
    /// the end.
    open spec fn orphaned(&self) -> bool {
        false
    }

    fn try_yield_one(&mut self) -> (r: ControlFlow<Option<()>>)
        ensures
            r == if old(self)@.can_acquire() {
                ControlFlow::<Option<()>, ()>::Break(Some(()))
            } else {
                ControlFlow::<Option<()>, ()>::Continue(())
            },
            final(self)@ == old(self)@.acquire(),
    {
        if self.capacity != 0 {
            self.capacity = self.capacity - 1;
            proof {
                self.outstanding@ = self.outstanding@ + 1;
            }
            ControlFlow::Break(Some(()))
        } else {
            ControlFlow::Continue(())
        }
    }
}

impl SemData {
    /// The data of a new semaphore with `capacity` permits, all available.
    pub fn new(capacity: usize) -> (data: Self)
        ensures
            data@ == SemView::full(capacity as nat),
    {
        SemData { capacity, initial: capacity, outstanding: Ghost(0) }
    }
}

impl SharedState<SemData> {
    /// Hands out a permit if one is available, and tells whether it did.
    pub fn try_acquire(&mut self) -> (acquired: bool)
        ensures
            acquired == old(self).inner@.can_acquire(),
            final(self).inner@ == old(self).inner@.acquire(),
            final(self).waker@ == old(self).waker@,
    {
        match self.inner.try_yield_one() {
            ControlFlow::Break(Some(_)) => true,
            _ => false,
        }
    }

    /// Hands out a permit if one is available, and else registers the caller to
    /// wait for one.
    pub fn poll_acquire(&mut self, cx: &Context<'_>) -> (r: Poll<()>)
        ensures
            r == if old(self).inner@.can_acquire() {
                Poll::Ready(())
            } else {
                Poll::Pending
            },
            final(self).inner@ == old(self).inner@.acquire(),
            final(self).waker@ == if r is Pending {
                old(self).waker@.update(context_task(cx))
            } else {
                old(self).waker@
            },
    {
        match self.poll_wait(cx) {
            Poll::Ready(_) => Poll::Ready(()),
            Poll::Pending => Poll::Pending,
        }
    }

    /// Takes a permit back and resumes the task that waits for one.
    pub fn release(&mut self)
        ensures
            final(self).inner@ == old(self).inner@.release(),
            final(self).waker@ == if old(self).inner@.available < old(self).inner@.initial {
                old(self).waker@.take_and_wake()
            } else {
                old(self).waker@
            },
    {
        if self.inner.capacity < self.inner.initial {
            self.inner.capacity = self.inner.capacity + 1;
            proof {
                if self.inner.outstanding@ > 0 {
                    self.inner.outstanding@ = (self.inner.outstanding@ - 1) as nat;
                }
            }
            self.notify();
        }
    }

    /// The permits that can be handed out now.
    pub fn available(&self) -> (available: usize)
        ensures
            available == self.inner@.available,
    {
        self.inner.capacity
    }
}

/// A permit: one unit of a [`Semaphore`]'s capacity, held until it is
/// released.
pub struct Permit(LocalShared<SharedState<SemData>>);

impl Permit {
    /// The capability through which this permit reaches the semaphore's state
    /// block.
    pub closed spec fn shared(&self) -> LocalShared<SharedState<SemData>> {
        self.0
    }

    /// Gives the permit back: [`SharedState::release`] on the shared block. If
    /// the block is in use, the permit is not given back: it comes back to the
    /// caller.
    pub fn release(self) -> (r: Result<(), Busy<Permit>>)
        ensures
            r matches Err(busy) ==> busy.0 == self,
    {
        let released = self.0.access(|state: &mut SharedState<SemData>| { state.release() });
        match released {
            Some(_) => Ok(()),
            None => Err(Busy(self)),
        }
    }
}

/// A semaphore with a fixed number of permits.
pub struct Semaphore(LocalShared<SharedState<SemData>>);

impl Semaphore {
    /// The capability through which this handle reaches the state block.
    pub closed spec fn shared(&self) -> LocalShared<SharedState<SemData>> {
        self.0
    }

    /// A semaphore with `capacity` permits, all of them available and nobody
    /// waiting. A semaphore without permits is not allowed.
    pub fn new(capacity: usize) -> (semaphore: Self)
        requires
            capacity > 0,
        ensures
            semaphore.shared().origin().inner@ == SemView::full(capacity as nat),
            semaphore.shared().origin().waker@ == WakerView::idle(),
    {
        Semaphore(LocalShared::new(SharedState::new(SemData::new(capacity))))
    }

    /// The permits that can be handed out now: [`SharedState::available`] on
    /// the shared block. `None` tells that the block is in use.
    pub fn available(&self) -> (r: Option<usize>)
        ensures
            r matches Some(available) ==> exists|sem: SemView|
                available == #[trigger] sem.available,
    {
        self.0.access(
            |state: &mut SharedState<SemData>| -> (available: usize)
                ensures
                    available == old(state).inner@.available
                { state.available() },
        )
    }

    /// Takes a permit if one is available: [`SharedState::try_acquire`] on the
    /// shared block. `None` tells that the block is in use, `Some(None)` that
    /// no permit is available.
    pub fn try_acquire_permit(&self) -> (r: Option<Option<Permit>>)
        ensures
            r matches Some(permit) ==> exists|sem: SemView|
                permit is Some == #[trigger] sem.can_acquire(),
            r matches Some(Some(p)) ==> p.shared().same_value(&self.shared()),
    {
        let entered = self.0.access(
            |state: &mut SharedState<SemData>| -> (acquired: bool)
                ensures
                    acquired == old(state).inner@.can_acquire()
                { state.try_acquire() },
        );
        match entered {
            Some(acquired) => {
                if acquired {
                    Some(Some(Permit(self.0.clone())))
                } else {
                    Some(None)
                }
            },
            None => None,
        }
    }

    /// Takes a permit if one is available, and else registers the caller to
    /// wait for one: [`SharedState::poll_acquire`] on the shared block. `None`
    /// tells that the block is in use.
    pub fn poll_acquire_permit(&mut self, cx: &Context<'_>) -> (r: Option<Poll<Permit>>)
        ensures
            r matches Some(acquired) ==> exists|sem: SemView|
                acquired is Ready == #[trigger] sem.can_acquire(),
            r matches Some(Poll::Ready(p)) ==> p.shared().same_value(&old(self).shared()),
            final(self).shared() == old(self).shared(),
    {
        let entered = self.0.access(
            |state: &mut SharedState<SemData>| -> (r: Poll<()>)
                ensures
                    r is Ready == old(state).inner@.can_acquire()
                { state.poll_acquire(cx) },
        );
        match entered {
            Some(Poll::Ready(_)) => Some(Poll::Ready(Permit(self.0.clone()))),
            Some(Poll::Pending) => Some(Poll::Pending),
            None => None,
        }
    }

    /// The semaphore handle goes away: [`SharedState::receiver_dropped`] on the
    /// shared block. Permits that are out can still be released. The result
    /// tells whether that was done: it was not if the block is in use.
    pub fn close(&mut self) -> (done: bool)
        ensures
            final(self).shared() == old(self).shared(),
    {
        self.0.access(|state: &mut SharedState<SemData>| { state.receiver_dropped() }).is_some()
    }
}

/// Permits are conserved: a new semaphore has all of them available, and
/// handing one out or taking one back leaves the sum of those available and
/// those out at the number that the semaphore was made with.
pub proof fn lemma_permits_are_conserved(sem: SemView, capacity: nat)
    requires
        sem.conserved(),
    ensures
        SemView::full(capacity).conserved(),
        sem.acquire().conserved(),
        sem.release().conserved(),
        sem.acquire().initial == sem.initial,
        sem.release().initial == sem.initial,
        sem.available <= sem.initial,
{
}

/// A permit that is handed out is one less available and one more out, and
/// giving it back undoes that.
pub proof fn lemma_release_undoes_acquire(sem: SemView)
    requires
        sem.conserved(),
        sem.can_acquire(),
    ensures
        sem.acquire().available == sem.available - 1,
        sem.acquire().outstanding == sem.outstanding + 1,
        sem.acquire().release() == sem,
{
}

/// With every permit out nothing is handed out, and with none out nothing is
/// taken back.
pub proof fn lemma_permits_run_out(sem: SemView)
    requires
        sem.conserved(),
    ensures
        sem.outstanding == sem.initial ==> !sem.can_acquire() && sem.acquire() == sem,
        sem.outstanding == 0 ==> sem.release() == sem,
{
}

} // verus!
