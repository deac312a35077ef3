//! A slot for the continuation of at most one waiting task.

use super::task::context_task;
use super::task::waker_task;
use std::task::Context;
use std::task::Waker;
use vstd::prelude::*;

verus! {

/// Holds the waker of the one task that waits on a condition, if any.
///
/// `woken` is ghost bookkeeping: it lists the tasks on whose stored waker the
/// cell has called `Waker::wake_by_ref`, in the order of the calls. That the
/// call is made, and what the executor does on it, is not part of what is
/// proved.
pub struct WakerCell {
    waker: Option<Waker>,
    woken: Ghost<Seq<int>>,
}

/// The model of a [`WakerCell`].
pub struct WakerView {
    /// The task whose continuation is stored: the task that waits to be
    /// resumed, if there is one.
    pub task: Option<int>,
    /// The tasks whose stored continuation the cell has taken out to resume it,
    /// oldest first.
    pub woken: Seq<int>,
}

impl WakerView {
    /// A cell that nobody waits on and that has resumed nobody.
    pub open spec fn idle() -> WakerView {
        WakerView { task: None, woken: Seq::empty() }
    }

    /// A continuation is stored: a task waits to be resumed.
    pub open spec fn armed(self) -> bool {
        self.task is Some
    }

    /// How many continuations the cell has taken out to resume them.
    pub open spec fn wakes(self) -> nat {
        self.woken.len()
    }

    /// `task` registers itself; a task that was registered is replaced.
    pub open spec fn update(self, task: int) -> WakerView {
        WakerView { task: Some(task), woken: self.woken }
    }

    /// The stored continuation, if there is one, is taken out to be resumed.
    pub open spec fn take_and_wake(self) -> WakerView {
        WakerView {
            task: None,
            woken: match self.task {
                Some(task) => self.woken.push(task),
                None => self.woken,
            },
        }
    }

    /// The stored continuation is dropped without being resumed.
    pub open spec fn reset(self) -> WakerView {
        WakerView { task: None, woken: self.woken }
    }
}

impl View for WakerCell {
    type V = WakerView;

    closed spec fn view(&self) -> WakerView {
        WakerView {
            task: match self.waker {
                Some(stored) => Some(waker_task(&stored)),
                None => None,
            },
            woken: self.woken@,
        }
    }
}

impl WakerCell {
    /// An empty cell.
    pub fn new() -> (cell: Self)
        ensures
            cell@ == WakerView::idle(),
    {
        WakerCell { waker: None, woken: Ghost(Seq::empty()) }
    }

    /// Registers the task that polls with `cx`: afterwards the stored waker is
    /// one that resumes that task. A stored waker of which `Waker::will_wake`
    /// tells that it resumes that task already is kept as it is; any other,
    /// which is that of another task or a stale one, is replaced by a clone of
    /// the task's waker.
    pub fn update(&mut self, cx: &Context<'_>)
        ensures
            final(self)@ == old(self)@.update(context_task(cx)),
    {
        let stale = match &self.waker {
            Some(stored) => !stored.will_wake(cx.waker()),
            None => true,
        };
        if stale {
            self.waker = Some(cx.waker().clone());
        }
    }

    /// Takes the stored waker out and calls `Waker::wake_by_ref` on it; does
    /// nothing on an empty cell. The contract is on the cell's bookkeeping: the
    /// slot is empty afterwards, and the task of a waker that was taken out is
    /// listed as woken.
    pub fn take_and_wake(&mut self)
        ensures
            final(self)@ == old(self)@.take_and_wake(),
    {
        match self.waker.take() {
            Some(stored) => {
                stored.wake_by_ref();
                proof {
                    self.woken@ = self.woken@.push(waker_task(&stored));
                }
            },
            None => {},
        }
    }

    /// Empties the cell without resuming anyone: for when the only task that
    /// could wait is going away.
    pub fn reset(&mut self)
        ensures
            final(self)@ == old(self)@.reset(),
    {
        self.waker = None;
    }
}

impl Default for WakerCell {
    fn default() -> (cell: Self)
        ensures
            cell@ == WakerView::idle(),
    {
        WakerCell::new()
    }
}

/// A second notification right after the first resumes nobody: the first one
/// emptied the cell.
pub proof fn lemma_wake_once(w: WakerView)
    ensures
        w.take_and_wake().take_and_wake() == w.take_and_wake(),
        w.take_and_wake().wakes() <= w.wakes() + 1,
{
}

/// After a reset, a notification resumes nobody.
pub proof fn lemma_reset_silences(w: WakerView)
    ensures
        w.reset().take_and_wake().woken == w.woken,
{
}

/// The task that registered last is the one that the next notification
/// resumes, and it is resumed once: a registration replaces the one before it,
/// and registering again changes nothing.
pub proof fn lemma_last_waiter_is_woken(w: WakerView, stale: int, task: int)
    ensures
        w.update(task).update(task) == w.update(task),
        w.update(stale).update(task) == w.update(task),
        w.update(task).take_and_wake().woken == w.woken.push(task),
        w.update(task).take_and_wake().take_and_wake().woken == w.woken.push(task),
{
}

} // verus!
