use futures::Stream;
use local_async_utils::sync::channel;
use std::pin::Pin;
use std::sync::Arc;
use std::task::Context;
use std::task::Poll;
use tokio_test::task::spawn;

// The library's handles are polled and closed by hand. The tests use them the
// way an executor does: through `Stream`, closing on drop.

struct Sender<T>(channel::Sender<T>);

struct Receiver<T>(channel::Receiver<T>);

fn open<T>() -> (Sender<T>, Receiver<T>) {
    let (sender, receiver) = channel::channel();
    (Sender(sender), Receiver(receiver))
}

impl<T> Sender<T> {
    fn send(&self, item: T) {
        self.0.send(item).ok().unwrap()
    }

    fn try_send(&self, len_threshold: usize, item: T) -> bool {
        self.0.try_send(len_threshold, item).ok().unwrap()
    }

    fn remove_all(&self, item: &T) -> bool
    where
        T: PartialEq,
    {
        self.0.remove_all(item).unwrap()
    }

    fn is_closed(&self) -> bool {
        self.0.is_closed().unwrap()
    }
}

impl<T> Clone for Sender<T> {
    fn clone(&self) -> Self {
        let sender = self.0.clone();
        assert!(sender.is_counted());
        Sender(sender)
    }
}

impl<T> Drop for Sender<T> {
    fn drop(&mut self) {
        assert!(self.0.close());
    }
}

impl<T> Receiver<T> {
    fn is_closed(&self) -> bool {
        self.0.is_closed().unwrap()
    }

    fn has_pending_data(&self) -> bool {
        self.0.has_pending_data().unwrap()
    }
}

impl<T> Stream for Receiver<T> {
    type Item = T;

    fn poll_next(self: Pin<&mut Self>, cx: &mut Context<'_>) -> Poll<Option<T>> {
        self.get_mut().0.poll_next(cx).unwrap()
    }
}

impl<T> Drop for Receiver<T> {
    fn drop(&mut self) {
        assert!(self.0.close());
    }
}

fn assert_pending<T>(poll: Poll<T>) {
    assert!(poll.is_pending());
}

fn assert_ready<T>(poll: Poll<T>) -> T {
    match poll {
        Poll::Ready(value) => value,
        Poll::Pending => panic!("pending"),
    }
}

trait NotSend<A> {
    fn check() {}
}

impl<T: ?Sized> NotSend<()> for T {}

impl<T: ?Sized + Send> NotSend<u8> for T {}

trait NotSync<A> {
    fn check() {}
}

impl<T: ?Sized> NotSync<()> for T {}

impl<T: ?Sized + Sync> NotSync<u8> for T {}

#[test]
fn channel_test_channel_static_properties() {
    // Each line compiles only if the type lacks the trait: with the trait there
    // are two impls to pick from.
    <Arc<channel::Sender<usize>> as NotSend<_>>::check();
    <Arc<channel::Sender<usize>> as NotSync<_>>::check();
    <Arc<channel::Receiver<usize>> as NotSend<_>>::check();
    <Arc<channel::Receiver<usize>> as NotSync<_>>::check();
    <channel::Sender<usize> as NotSend<_>>::check();
    <channel::Sender<usize> as NotSync<_>>::check();
    <channel::Receiver<usize> as NotSend<_>>::check();
    <channel::Receiver<usize> as NotSync<_>>::check();
}

#[test]
fn channel_test_sender_notifies_receiver() {
    let (sender, receiver) = open::<i32>();

    let mut receiver = spawn(receiver);
    assert_pending(receiver.poll_next());

    sender.send(42);
    assert!(receiver.is_woken());
    assert_eq!(Some(42), assert_ready(receiver.poll_next()));
    assert_pending(receiver.poll_next());

    drop(sender);
    assert!(receiver.is_woken());
    assert_eq!(None, assert_ready(receiver.poll_next()));
}

#[test]
fn channel_test_receiver_drains_queue_after_sender_dies() {
    let (sender, receiver) = open::<i32>();

    for i in 0..42 {
        sender.send(i);
    }
    drop(sender);

    let mut receiver = spawn(receiver);
    for i in 0..42 {
        let received = assert_ready(receiver.poll_next());
        assert_eq!(Some(i), received);
    }
    assert_eq!(None, assert_ready(receiver.poll_next()));
}

#[test]
fn channel_test_sender_is_closed() {
    let (sender, receiver) = open::<i32>();
    assert!(!sender.is_closed());

    drop(receiver);
    assert!(sender.is_closed());
}

#[test]
fn channel_test_receiver_is_closed() {
    let (sender, receiver) = open::<i32>();
    assert!(!receiver.is_closed());

    let sender2 = sender.clone();
    assert!(!receiver.is_closed());

    drop(sender);
    assert!(!receiver.is_closed());

    drop(sender2);
    assert!(receiver.is_closed());
}

#[test]
fn channel_try_send_respects_the_threshold() {
    let (sender, receiver) = open::<i32>();
    assert!(!receiver.has_pending_data());

    assert!(sender.try_send(2, 1));
    assert!(sender.try_send(2, 2));
    assert!(!sender.try_send(2, 3));
    assert!(!sender.try_send(0, 4));
    assert!(receiver.has_pending_data());

    let mut receiver = spawn(receiver);
    assert_eq!(Some(1), assert_ready(receiver.poll_next()));
    assert!(sender.try_send(2, 5));
    assert_eq!(Some(2), assert_ready(receiver.poll_next()));
    assert_eq!(Some(5), assert_ready(receiver.poll_next()));
    assert_pending(receiver.poll_next());
    assert!(!receiver.has_pending_data());
}

#[test]
fn channel_remove_all_retracts_queued_items() {
    let (sender, receiver) = open::<&'static str>();
    sender.send("keep");
    sender.send("cancel");
    sender.send("also keep");
    sender.send("cancel");

    assert!(sender.remove_all(&"cancel"));
    assert!(!sender.remove_all(&"cancel"));
    assert!(!sender.remove_all(&"never sent"));

    let mut receiver = spawn(receiver);
    assert_eq!(Some("keep"), assert_ready(receiver.poll_next()));
    assert_eq!(Some("also keep"), assert_ready(receiver.poll_next()));
    assert_pending(receiver.poll_next());
}
