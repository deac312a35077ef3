//! A first-in, first-out queue.

use std::collections::VecDeque;
use vstd::prelude::*;
use vstd::std_specs::cmp::PartialEqSpec;
use vstd::std_specs::convert::FromSpecImpl;

verus! {

/// `VecDeque::capacity` tells how many items the deque can hold without
/// allocating again. The allocator decides that number; what is claimed is
/// that the items that the deque holds are among those that it can hold.
#[verifier::external_body]
fn deque_capacity<T>(deque: &VecDeque<T>) -> (capacity: usize)
    ensures
        capacity >= deque@.len(),
{
    deque.capacity()
}

/// FIFO queue that never leaks references to its content. Its model is the
/// sequence of its items, oldest first.
#[derive(Debug)]
pub struct Queue<T> {
    items: VecDeque<T>,
}

impl<T> View for Queue<T> {
    type V = Seq<T>;

    closed spec fn view(&self) -> Seq<T> {
        self.items@
    }
}

/// `items` without those that equal `item`, in the same order.
pub open spec fn without<T: PartialEq>(items: Seq<T>, item: T) -> Seq<T> {
    items.filter(|e: T| !e.eq_spec(&item))
}

/// `pred` returns what `p` says, on every item.
pub open spec fn computes<T, F: Fn(&T) -> bool>(pred: F, p: spec_fn(T) -> bool) -> bool {
    forall|e: T, b: bool| #[trigger] pred.ensures((&e,), b) ==> b == p(e)
}

/// The predicate that holds of the items of which `p` does not.
pub open spec fn rejects<T>(p: spec_fn(T) -> bool) -> spec_fn(T) -> bool {
    |e: T| !p(e)
}

/// Some item of `items` equals `item`.
pub open spec fn holds<T: PartialEq>(items: Seq<T>, item: T) -> bool {
    exists|i: int| 0 <= i < items.len() && #[trigger] items[i].eq_spec(&item)
}

impl<T> Queue<T> {
    /// An empty queue.
    pub fn new() -> (queue: Self)
        ensures
            queue@ == Seq::<T>::empty(),
    {
        Queue { items: VecDeque::new() }
    }

    /// An empty queue with room for `capacity` items before it allocates again.
    pub fn with_capacity(capacity: usize) -> (queue: Self)
        ensures
            queue@ == Seq::<T>::empty(),
    {
        Queue { items: VecDeque::with_capacity(capacity) }
    }

    /// Appends `item` as the newest.
    pub fn push(&mut self, item: T)
        ensures
            final(self)@ == old(self)@.push(item),
    {
        self.items.push_back(item);
    }

    /// Removes the oldest item and returns it; `None` on an empty queue.
    pub fn pop(&mut self) -> (item: Option<T>)
        ensures
            item == if old(self)@.len() > 0 {
                Some(old(self)@[0])
            } else {
                None
            },
            final(self)@ == if old(self)@.len() > 0 {
                old(self)@.skip(1)
            } else {
                old(self)@
            },
    {
        self.items.pop_front()
    }

    /// Whether some item equals `item`.
    pub fn contains(&self, item: &T) -> (found: bool) where T: PartialEq
        ensures
            T::obeys_eq_spec() ==> found == holds(self@, *item),
    {
        let n = self.items.len();
        let mut i: usize = 0;
        while i < n
            invariant
                n == self.items@.len(),
                i <= n,
                T::obeys_eq_spec() ==> forall|j: int| 0 <= j < i ==> !(#[trigger] self.items@[j]).eq_spec(item),
            decreases n - i,
        {
            if self.items[i] == *item {
                return true;
            }
            i = i + 1;
        }
        false
    }

    /// Removes every item that equals `item`, keeping the others in order, and
    /// tells whether anything was removed.
    pub fn remove_all(&mut self, item: &T) -> (removed: bool) where T: PartialEq
        ensures
            removed == (final(self)@.len() != old(self)@.len()),
            final(self)@.len() <= old(self)@.len(),
            T::obeys_eq_spec() ==> final(self)@ == without(old(self)@, *item),
    {
        let initial_len = self.items.len();
        let ghost kept: Seq<T> = Seq::empty();
        let mut i: usize = 0;
        while i < initial_len
            invariant
                initial_len == old(self)@.len(),
                i <= initial_len,
                self.items@ == old(self)@.skip(i as int) + kept,
                kept.len() <= i,
                T::obeys_eq_spec() ==> kept == without(old(self)@.take(i as int), *item),
            decreases initial_len - i,
        {
            let front = self.items.pop_front();
            proof {
                assert(old(self)@.take(i + 1).drop_last() =~= old(self)@.take(i as int));
                reveal(Seq::filter);
            }
            match front {
                Some(e) => {
                    if e != *item {
                        self.items.push_back(e);
                        proof {
                            kept = kept.push(e);
                        }
                    }
                },
                None => {},
            }
            i = i + 1;
        }
        self.items.len() != initial_len
    }

    /// Removes every item of which `pred` says `true`, keeping the others in
    /// order, and tells whether anything was removed.
    ///
    /// Where `pred` computes a predicate `p`, the queue afterwards holds the
    /// items of which `p` is false.
    pub fn remove_if<F: Fn(&T) -> bool>(&mut self, pred: F) -> (removed: bool)
        requires
            forall|i: int| 0 <= i < old(self)@.len() ==> pred.requires((&#[trigger] old(self)@[i],)),
        ensures
            removed == (final(self)@.len() != old(self)@.len()),
            final(self)@.len() <= old(self)@.len(),
            forall|p: spec_fn(T) -> bool|
                computes(pred, p) ==> final(self)@ == #[trigger] old(self)@.filter(rejects(p)),
    {
        let initial_len = self.items.len();
        let ghost kept: Seq<T> = Seq::empty();
        let mut i: usize = 0;
        while i < initial_len
            invariant
                initial_len == old(self)@.len(),
                i <= initial_len,
                self.items@ == old(self)@.skip(i as int) + kept,
                kept.len() <= i,
                forall|i: int|
                    0 <= i < old(self)@.len() ==> pred.requires((&#[trigger] old(self)@[i],)),
                forall|p: spec_fn(T) -> bool|
                    computes(pred, p) ==> kept == #[trigger] old(self)@.take(i as int).filter(
                        rejects(p),
                    ),
            decreases initial_len - i,
        {
            let ghost kept_before = kept;
            let front = self.items.pop_front();
            match front {
                Some(e) => {
                    let remove = pred(&e);
                    if !remove {
                        self.items.push_back(e);
                        proof {
                            kept = kept.push(e);
                        }
                    }
                    proof {
                        assert forall|p: spec_fn(T) -> bool| computes(pred, p) implies kept
                            == #[trigger] old(self)@.take(i + 1).filter(rejects(p)) by {
                            assert(old(self)@.take(i + 1).drop_last() =~= old(self)@.take(i as int));
                            assert(kept_before == old(self)@.take(i as int).filter(rejects(p)));
                            reveal(Seq::filter);
                        }
                    }
                },
                None => {},
            }
            i = i + 1;
        }
        self.items.len() != initial_len
    }

    /// Removes every item.
    pub fn clear(&mut self)
        ensures
            final(self)@ == Seq::<T>::empty(),
    {
        self.items.clear();
    }

    /// The number of items.
    pub fn len(&self) -> (len: usize)
        ensures
            len == self@.len(),
    {
        self.items.len()
    }

    /// How many items the queue can hold without allocating again: at least
    /// as many as it holds. Beyond that the allocator decides.
    pub fn capacity(&self) -> (capacity: usize)
        ensures
            capacity >= self@.len(),
    {
        deque_capacity(&self.items)
    }

    /// Whether the queue holds nothing.
    pub fn is_empty(&self) -> (empty: bool)
        ensures
            empty == (self@.len() == 0),
    {
        self.items.len() == 0
    }

    /// The items, oldest first, as a `VecDeque`.
    pub fn into_inner(self) -> (items: VecDeque<T>)
        ensures
            items@ == self@,
    {
        self.items
    }
}

impl<T> From<VecDeque<T>> for Queue<T> {
    /// A queue of the deque's items, in the deque's order.
    fn from(items: VecDeque<T>) -> (queue: Self)
        ensures
            queue@ == items@,
    {
        Queue { items }
    }
}

impl<T> FromSpecImpl<VecDeque<T>> for Queue<T> {
    open spec fn obeys_from_spec() -> bool {
        true
    }

    closed spec fn from_spec(items: VecDeque<T>) -> Queue<T> {
        Queue { items }
    }
}

impl<T> Default for Queue<T> {
    fn default() -> (queue: Self)
        ensures
            queue@ == Seq::<T>::empty(),
    {
        Queue::new()
    }
}

impl<T: Clone> Clone for Queue<T> {
    /// A queue of clones of the items, in the same order.
    fn clone(&self) -> (queue: Self)
        ensures
            queue@.len() == self@.len(),
            forall|i: int| 0 <= i < self@.len() ==> cloned::<T>(#[trigger] self@[i], queue@[i]),
    {
        Queue { items: self.items.clone() }
    }
}

} // verus!
