//! An unordered set.

use std::borrow::Borrow;
use std::collections::HashSet;
use std::hash::Hash;
use vstd::prelude::*;
use vstd::std_specs::convert::FromSpecImpl;
use vstd::std_specs::hash::*;

verus! {

broadcast use vstd::std_specs::hash::group_hash_axioms;

/// `HashSet::capacity` tells how many items the set can hold without
/// allocating again. The allocator decides that number; what is claimed is
/// that the items that the set holds, as many as `HashSet::len` counts, are
/// among those that it can hold.
#[verifier::external_body]
fn hash_set_capacity<T>(set: &HashSet<T>) -> (capacity: usize)
    ensures
        capacity >= set.len(),
{
    set.capacity()
}

/// `copy` holds clones of the items of `original`: each item of the copy is a
/// clone of an item of the original, and each item of the original has its
/// clone in the copy.
pub open spec fn holds_clones<T: Clone>(copy: Set<T>, original: Set<T>) -> bool {
    &&& forall|x: T| #[trigger] copy.contains(x) ==> exists|y: T| original.contains(y) && cloned(y, x)
    &&& forall|y: T| #[trigger] original.contains(y) ==> exists|x: T| copy.contains(x) && cloned(y, x)
}

/// `HashSet::clone` makes a set of clones of the items.
#[verifier::external_body]
fn hash_set_clone<T: Clone>(set: &HashSet<T>) -> (copy: HashSet<T>)
    ensures
        holds_clones(copy@, set@),
{
    set.clone()
}

/// Unordered set that never leaks references to its content. Its model is the
/// mathematical set of its items.
///
/// What a hash set does rests on how its items hash and compare, so each
/// contract holds for item types that obey `obeys_key_model`.
#[derive(Debug)]
pub struct SealedSet<T> {
    items: HashSet<T>,
}

impl<T> View for SealedSet<T> {
    type V = Set<T>;

    closed spec fn view(&self) -> Set<T> {
        self.items@
    }
}

impl<T: Eq + Hash> SealedSet<T> {
    /// An empty set.
    pub fn new() -> (set: Self)
        ensures
            set@ == Set::<T>::empty(),
    {
        SealedSet { items: HashSet::new() }
    }

    /// An empty set with room for `capacity` items before it allocates again.
    pub fn with_capacity(capacity: usize) -> (set: Self)
        ensures
            set@ == Set::<T>::empty(),
    {
        SealedSet { items: HashSet::with_capacity(capacity) }
    }

    /// Whether `value` is in the set.
    pub fn contains<Q>(&self, value: &Q) -> (found: bool) where T: Borrow<Q>, Q: ?Sized + Hash + Eq
        ensures
            obeys_key_model::<T>() ==> found == set_contains_borrowed_key(self@, value),
    {
        self.items.contains(value)
    }

    /// Adds `value`, and tells whether it was new.
    pub fn insert(&mut self, value: T) -> (fresh: bool)
        ensures
            obeys_key_model::<T>() ==> final(self)@ == old(self)@.insert(value),
            obeys_key_model::<T>() ==> fresh == !old(self)@.contains(value),
    {
        self.items.insert(value)
    }

    /// Removes `value`, and tells whether it was there.
    pub fn remove<Q>(&mut self, value: &Q) -> (found: bool) where
        T: Borrow<Q>,
        Q: ?Sized + Hash + Eq,

        ensures
            obeys_key_model::<T>() ==> sets_differ_by_borrowed_key(old(self)@, final(self)@, value),
            obeys_key_model::<T>() ==> found == set_contains_borrowed_key(old(self)@, value),
    {
        self.items.remove(value)
    }

    /// Removes every item.
    pub fn clear(&mut self)
        ensures
            final(self)@ == Set::<T>::empty(),
    {
        self.items.clear();
    }

    /// The number of items.
    pub fn len(&self) -> (len: usize)
        ensures
            obeys_key_model::<T>() ==> len == self@.len(),
    {
        self.items.len()
    }

    /// How many items the set can hold without allocating again: at least as
    /// many as it holds. Beyond that the allocator decides.
    pub fn capacity(&self) -> (capacity: usize)
        ensures
            obeys_key_model::<T>() ==> capacity >= self@.len(),
    {
        hash_set_capacity(&self.items)
    }

    /// Whether the set holds nothing.
    pub fn is_empty(&self) -> (empty: bool)
        ensures
            empty == self@.is_empty(),
    {
        self.items.is_empty()
    }

    /// The items as a `HashSet`.
    pub fn into_inner(self) -> (items: HashSet<T>)
        ensures
            items@ == self@,
    {
        self.items
    }
}

impl<T> From<HashSet<T>> for SealedSet<T> {
    /// A set of the items of `items`.
    fn from(items: HashSet<T>) -> (set: Self)
        ensures
            set@ == items@,
    {
        SealedSet { items }
    }
}

impl<T> FromSpecImpl<HashSet<T>> for SealedSet<T> {
    open spec fn obeys_from_spec() -> bool {
        true
    }

    closed spec fn from_spec(items: HashSet<T>) -> SealedSet<T> {
        SealedSet { items }
    }
}

impl<T: Clone> Clone for SealedSet<T> {
    /// A set of clones of the items.
    fn clone(&self) -> (set: Self)
        ensures
            holds_clones(set@, self@),
    {
        SealedSet { items: hash_set_clone(&self.items) }
    }
}

impl<T: Eq + Hash> Default for SealedSet<T> {
    fn default() -> (set: Self)
        ensures
            set@ == Set::<T>::empty(),
    {
        SealedSet::new()
    }
}

/// For a value of the item type itself, membership and removal are those of
/// the mathematical set.
pub proof fn lemma_plain_keys<T>(before: Set<T>, after: Set<T>, value: &T)
    ensures
        set_contains_borrowed_key::<T, T>(before, value) <==> before.contains(*value),
        sets_differ_by_borrowed_key::<T, T>(before, after, value) <==> after == before.remove(
            *value,
        ),
{
}

} // verus!
