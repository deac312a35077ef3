use local_async_utils::sync::condvar::condvar;
use std::task::Poll;
use tokio_test::task::spawn;

#[test]
fn condvar_signal_wakes_waiter() {
    let (sender, mut receiver) = condvar();
    let mut task = spawn(());

    assert!(task.enter(|cx, _| receiver.wait_for_one(cx).unwrap()).is_pending());
    assert!(!task.is_woken());

    assert!(sender.signal_one());
    assert!(task.is_woken());
    assert_eq!(Poll::Ready(true), task.enter(|cx, _| receiver.wait_for_one(cx).unwrap()));
    assert!(task.enter(|cx, _| receiver.wait_for_one(cx).unwrap()).is_pending());
}

#[test]
fn condvar_signals_collapse_into_one() {
    let (sender, mut receiver) = condvar();
    let mut task = spawn(());

    assert!(sender.signal_one());
    assert!(sender.signal_one());
    assert!(sender.signal_one());

    assert_eq!(Poll::Ready(true), task.enter(|cx, _| receiver.wait_for_one(cx).unwrap()));
    assert!(task.enter(|cx, _| receiver.wait_for_one(cx).unwrap()).is_pending());
}

#[test]
fn condvar_reports_end_when_senders_are_gone() {
    let (sender, mut receiver) = condvar();
    let mut sender2 = sender.clone();
    let mut sender = sender;
    let mut task = spawn(());

    assert!(task.enter(|cx, _| receiver.wait_for_one(cx).unwrap()).is_pending());
    assert!(sender.close());
    assert!(!task.is_woken());
    assert!(task.enter(|cx, _| receiver.wait_for_one(cx).unwrap()).is_pending());

    assert!(sender2.close());
    assert!(task.is_woken());
    assert_eq!(Poll::Ready(false), task.enter(|cx, _| receiver.wait_for_one(cx).unwrap()));
}

#[test]
fn condvar_signal_is_seen_after_sender_is_gone() {
    let (mut sender, mut receiver) = condvar();
    let mut task = spawn(());

    assert!(sender.signal_one());
    assert!(sender.close());

    assert_eq!(Poll::Ready(true), task.enter(|cx, _| receiver.wait_for_one(cx).unwrap()));
    assert_eq!(Poll::Ready(false), task.enter(|cx, _| receiver.wait_for_one(cx).unwrap()));
}

#[test]
fn condvar_closed_receiver_is_not_woken() {
    let (sender, mut receiver) = condvar();
    let mut task = spawn(());

    assert!(task.enter(|cx, _| receiver.wait_for_one(cx).unwrap()).is_pending());
    assert!(receiver.close());
    assert!(sender.signal_one());
    assert!(!task.is_woken());
}
