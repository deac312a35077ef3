use local_async_utils::sync::error::SendError;
use local_async_utils::sync::oneshot::channel;
use std::task::Poll;
use tokio_test::task::spawn;

#[test]
fn oneshot_value_is_received_once() {
    let (sender, mut receiver) = channel::<i32>();
    let mut task = spawn(());

    assert!(task.enter(|cx, _| receiver.poll(cx).unwrap()).is_pending());
    assert!(!task.is_woken());

    assert_eq!(Ok(()), sender.send(7).ok().unwrap());
    assert!(task.is_woken());

    assert_eq!(Poll::Ready(Some(7)), task.enter(|cx, _| receiver.poll(cx).unwrap()));
    assert_eq!(Poll::Ready(None), task.enter(|cx, _| receiver.poll(cx).unwrap()));
    assert!(!task.is_woken());
}

#[test]
fn oneshot_value_sent_before_first_poll() {
    let (sender, mut receiver) = channel::<&'static str>();
    let mut task = spawn(());

    assert_eq!(Ok(()), sender.send("early").ok().unwrap());
    assert_eq!(Poll::Ready(Some("early")), task.enter(|cx, _| receiver.poll(cx).unwrap()));
}

#[test]
fn oneshot_sender_gone_without_value() {
    let (mut sender, mut receiver) = channel::<i32>();
    let mut task = spawn(());

    assert!(task.enter(|cx, _| receiver.poll(cx).unwrap()).is_pending());
    assert!(sender.close());
    assert!(task.is_woken());
    assert_eq!(Poll::Ready(None), task.enter(|cx, _| receiver.poll(cx).unwrap()));

    // Closing again wakes nobody.
    assert!(sender.close());
    assert!(!task.is_woken());
}

#[test]
fn oneshot_send_to_closed_receiver_returns_value() {
    let (sender, mut receiver) = channel::<i32>();
    assert!(receiver.close());
    assert_eq!(Err(SendError::Closed(9)), sender.send(9).ok().unwrap());
}

#[test]
fn oneshot_closed_receiver_is_not_woken() {
    let (sender, mut receiver) = channel::<i32>();
    let mut task = spawn(());

    assert!(task.enter(|cx, _| receiver.poll(cx).unwrap()).is_pending());
    assert!(receiver.close());
    assert!(sender.send(1).ok().unwrap().is_err());
    assert!(!task.is_woken());
}
