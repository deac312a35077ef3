use local_async_utils::sync::shared_state::SharedState;
use local_async_utils::sync::shared_state::Source;
use local_async_utils::sync::unbounded::Data;
use local_async_utils::sync::waker_cell::WakerCell;
use std::ops::ControlFlow;
use std::task::Poll;
use tokio_test::task::spawn;

#[test]
fn waker_cell_wakes_the_registered_task_once() {
    let mut cell = WakerCell::new();
    let mut task = spawn(());

    cell.take_and_wake();
    assert!(!task.is_woken());

    task.enter(|cx, _| cell.update(cx));
    assert!(!task.is_woken());
    cell.take_and_wake();
    assert!(task.is_woken());

    task.enter(|_, _| ());
    cell.take_and_wake();
    assert!(!task.is_woken());
}

#[test]
fn waker_cell_keeps_one_registration() {
    let mut cell = WakerCell::default();
    let mut task = spawn(());

    task.enter(|cx, _| cell.update(cx));
    let held = task.waker_ref_count();
    task.enter(|cx, _| cell.update(cx));
    assert_eq!(task.waker_ref_count(), held);

    cell.take_and_wake();
    assert!(task.is_woken());
    assert_eq!(task.waker_ref_count(), held - 1);
}

#[test]
fn waker_cell_replaces_the_waker_of_another_task() {
    let mut cell = WakerCell::new();
    let mut first = spawn(());
    let mut second = spawn(());

    first.enter(|cx, _| cell.update(cx));
    second.enter(|cx, _| cell.update(cx));
    cell.take_and_wake();
    assert!(!first.is_woken());
    assert!(second.is_woken());
}

#[test]
fn waker_cell_reset_wakes_nobody() {
    let mut cell = WakerCell::new();
    let mut task = spawn(());

    task.enter(|cx, _| cell.update(cx));
    cell.reset();
    cell.take_and_wake();
    assert!(!task.is_woken());
}

#[test]
fn engine_registers_only_when_it_has_to_wait() {
    let mut state = SharedState::new(Data::<i32>::new());
    let mut task = spawn(());

    assert_eq!(Ok(()), state.send(5));
    let held = task.waker_ref_count();
    assert_eq!(Poll::Ready(Some(5)), task.enter(|cx, _| state.poll_wait(cx)));
    assert_eq!(task.waker_ref_count(), held);

    assert_eq!(Poll::Pending, task.enter(|cx, _| state.poll_wait(cx)));
    assert_eq!(task.waker_ref_count(), held + 1);
    assert_eq!(Poll::Pending, task.enter(|cx, _| state.poll_wait(cx)));
    assert_eq!(task.waker_ref_count(), held + 1);

    state.notify();
    assert!(task.is_woken());
    assert_eq!(task.waker_ref_count(), held);
    state.notify();

    assert_eq!(Poll::Pending, task.enter(|cx, _| state.poll_wait(cx)));
    state.receiver_dropped();
    state.notify();
    assert!(!task.is_woken());
}

#[test]
fn source_drains_before_it_reports_the_end() {
    let mut state = SharedState::new(Data::<i32>::new());
    assert_eq!(Ok(()), state.send(1));
    assert_eq!(Ok(()), state.send(2));
    state.drop_sender();
    assert_eq!(state.sender_count(), 0);
    assert_eq!(state.len(), 2);

    assert_eq!(ControlFlow::Break(Some(1)), state.inner.try_yield_one());
    assert_eq!(ControlFlow::Break(Some(2)), state.inner.try_yield_one());
    assert_eq!(ControlFlow::Break(None), state.inner.try_yield_one());
    assert_eq!(ControlFlow::Break(None), state.inner.try_yield_one());
}

#[test]
fn source_tells_to_wait_while_a_producer_lives() {
    let mut state = SharedState::new(Data::<i32>::new());
    assert_eq!(ControlFlow::Continue(()), state.inner.try_yield_one());
    assert_eq!(ControlFlow::Continue(()), state.inner.try_yield_one());
    state.clone_sender();
    state.drop_sender();
    assert_eq!(ControlFlow::Continue(()), state.inner.try_yield_one());
    state.drop_sender();
    assert_eq!(ControlFlow::Break(None), state.inner.try_yield_one());
    state.drop_receiver();
    assert!(!state.has_receiver());
    assert!(state.send(3).is_err());
}
