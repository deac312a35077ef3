use local_async_utils::sealed::Queue;
use local_async_utils::sealed::SealedSet;
use local_async_utils::sealed::UnsafeWrapper;
use std::collections::HashSet;
use std::collections::VecDeque;
use std::rc::Rc;

#[test]
fn queue_is_first_in_first_out() {
    let mut queue = Queue::new();
    assert!(queue.is_empty());
    assert_eq!(queue.pop(), None::<i32>);

    queue.push(1);
    queue.push(2);
    queue.push(3);
    assert_eq!(queue.len(), 3);
    assert!(!queue.is_empty());

    assert_eq!(queue.pop(), Some(1));
    assert_eq!(queue.pop(), Some(2));
    queue.push(4);
    assert_eq!(queue.pop(), Some(3));
    assert_eq!(queue.pop(), Some(4));
    assert_eq!(queue.pop(), None);
    assert!(queue.is_empty());
}

#[test]
fn queue_contains_compares_by_value() {
    let mut queue = Queue::with_capacity(4);
    assert!(queue.capacity() >= 4);
    queue.push(String::from("a"));
    queue.push(String::from("b"));
    assert!(queue.contains(&String::from("b")));
    assert!(!queue.contains(&String::from("c")));
}

#[test]
fn queue_remove_all_keeps_the_order_of_the_rest() {
    let mut queue = Queue::from(VecDeque::from(vec![1, 2, 1, 3, 1, 1, 4]));
    assert!(queue.remove_all(&1));
    assert_eq!(queue.len(), 3);
    assert!(!queue.contains(&1));
    assert_eq!(queue.clone().into_inner(), VecDeque::from(vec![2, 3, 4]));

    assert!(!queue.remove_all(&1));
    assert!(!queue.remove_all(&7));
    assert_eq!(queue.into_inner(), VecDeque::from(vec![2, 3, 4]));
}

#[test]
fn queue_remove_all_on_empty_and_on_all_equal() {
    let mut queue: Queue<u8> = Queue::default();
    assert!(!queue.remove_all(&0));

    queue.push(5);
    queue.push(5);
    assert!(queue.remove_all(&5));
    assert!(queue.is_empty());
}

#[test]
fn queue_clear_and_clone() {
    let mut queue = Queue::new();
    queue.push(10);
    queue.push(20);
    let copy = queue.clone();
    queue.clear();
    assert!(queue.is_empty());
    assert_eq!(copy.len(), 2);
    assert_eq!(copy.into_inner(), VecDeque::from(vec![10, 20]));
}

#[test]
fn set_holds_each_value_once() {
    let mut set = SealedSet::new();
    assert!(set.is_empty());
    assert!(set.insert(String::from("a")));
    assert!(set.insert(String::from("b")));
    assert!(!set.insert(String::from("a")));
    assert_eq!(set.len(), 2);

    assert!(set.contains("a"));
    assert!(!set.contains("c"));

    assert!(set.remove("a"));
    assert!(!set.remove("a"));
    assert!(!set.contains("a"));
    assert_eq!(set.len(), 1);

    let expected: HashSet<String> = [String::from("b")].into_iter().collect();
    assert_eq!(set.into_inner(), expected);
}

#[test]
fn set_clear_and_capacity() {
    let mut set: SealedSet<u32> = SealedSet::with_capacity(8);
    assert!(set.capacity() >= 8);
    set.insert(1);
    set.insert(2);
    set.clear();
    assert!(set.is_empty());
    assert_eq!(set.len(), 0);
    assert!(SealedSet::<u32>::default().is_empty());
}

#[test]
fn wrapper_lends_its_value() {
    let mut wrapper = UnsafeWrapper::new(vec![1, 2, 3]);
    let len = wrapper.with(|items| {
        items.push(42);
        items.len()
    });
    assert_eq!(len, 4);
    assert_eq!(wrapper.into_inner(), vec![1, 2, 3, 42]);
}

#[test]
fn queue_remove_if_keeps_the_order_of_the_rest() {
    let mut queue = Queue::from(VecDeque::from(vec![1, 2, 3, 4, 5, 6]));
    assert!(queue.remove_if(|item| item % 2 == 0));
    assert_eq!(queue.clone().into_inner(), VecDeque::from(vec![1, 3, 5]));

    assert!(!queue.remove_if(|item| *item > 10));
    assert_eq!(queue.clone().into_inner(), VecDeque::from(vec![1, 3, 5]));

    assert!(queue.remove_if(|_| true));
    assert!(queue.is_empty());
    assert!(!queue.remove_if(|_| true));
}

#[test]
fn capacity_covers_what_is_held() {
    let mut queue = Queue::new();
    let mut set = SealedSet::new();
    assert!(queue.capacity() >= queue.len());
    assert!(set.capacity() >= set.len());
    for i in 0..100 {
        queue.push(i);
        set.insert(i);
        assert!(queue.capacity() >= queue.len());
        assert!(set.capacity() >= set.len());
    }
    for _ in 0..60 {
        queue.pop();
    }
    assert_eq!(queue.len(), 40);
    assert!(queue.capacity() >= 40);
    assert_eq!(set.len(), 100);
    assert!(set.capacity() >= 100);
}

fn is_send<T: Send>() {}

trait NotSend<A> {
    fn check() {}
}

impl<T: ?Sized> NotSend<()> for T {}

impl<T: ?Sized + Send> NotSend<u8> for T {}

// The collections are changed through `&mut self` only, so nothing keeps them
// from being `Sync`. What is tested is that they are `Send` with items that
// are, and with no others.

#[test]
fn queue_is_send_exactly_with_send_items() {
    is_send::<Queue<usize>>();
    // Compiles only if the type is not `Send`: with the trait there are two
    // impls to pick from.
    <Queue<Rc<usize>> as NotSend<_>>::check();
}

#[test]
fn set_is_send_exactly_with_send_items() {
    is_send::<SealedSet<usize>>();
    <SealedSet<Rc<usize>> as NotSend<_>>::check();
}

#[test]
fn set_from_hash_set_and_clone() {
    let items: HashSet<String> = [String::from("a"), String::from("b")].into_iter().collect();
    let mut set = SealedSet::from(items.clone());
    assert_eq!(set.len(), 2);
    assert!(set.contains("a"));

    let copy = set.clone();
    assert!(set.remove("a"));
    assert_eq!(set.len(), 1);
    assert_eq!(copy.len(), 2);
    assert_eq!(copy.into_inner(), items);
}
