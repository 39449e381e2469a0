//! Storage that belongs to one task.
//!
//! Each task owns a map from keys to values. A key stands for one declared
//! task-local; its value is made on first access and stays in the map as
//! long as the task lives.

use vstd::prelude::*;
use std::collections::HashMap;

verus! {

broadcast use vstd::std_specs::hash::group_hash_axioms;

/// A value whose type the map does not know. Whoever declared the key knows
/// it.
pub trait Opaque: Send {
}

impl<T: Send> Opaque for T {
}

/// A task-local value in its box.
pub struct Local<T: ?Sized = dyn Opaque> {
    value: Box<T>,
}

impl<T: ?Sized> Local<T> {
    /// The boxed value.
    pub closed spec fn value(&self) -> Box<T> {
        self.value
    }

    /// Wraps a boxed value.
    pub fn new(value: Box<T>) -> (local: Self)
        ensures
            local.value() == value,
    {
        Local { value }
    }

    /// The boxed value.
    pub fn get(&self) -> (value: &Box<T>)
        ensures
            *value == self.value(),
    {
        &self.value
    }

    /// Unwraps the boxed value.
    pub fn into_inner(self) -> (value: Box<T>)
        ensures
            value == self.value(),
    {
        self.value
    }
}

/// The task-local values of one task, by key.
pub struct LocalMap<V = Local> {
    map: HashMap<usize, V>,
}

impl<V> View for LocalMap<V> {
    type V = Map<usize, V>;

    closed spec fn view(&self) -> Map<usize, V> {
        self.map@
    }
}

/// The map after an access to `key` that would store `fresh` if the key were
/// new: an access never replaces a value.
pub open spec fn accessed<V>(map: Map<usize, V>, key: usize, fresh: V) -> Map<usize, V> {
    if map.contains_key(key) {
        map
    } else {
        map.insert(key, fresh)
    }
}

impl<V> LocalMap<V> {
    /// A map without values.
    pub fn new() -> (locals: Self)
        ensures
            locals@ == Map::<usize, V>::empty(),
    {
        LocalMap { map: HashMap::new() }
    }

    /// The number of values.
    pub fn len(&self) -> (n: usize)
        ensures
            n == self@.len(),
    {
        self.map.len()
    }

    /// Whether `key` has a value.
    pub fn contains_key(&self, key: usize) -> (b: bool)
        ensures
            b == self@.contains_key(key),
    {
        self.map.contains_key(&key)
    }

    /// The value of `key`, if it has one.
    pub fn get(&self, key: usize) -> (value: Option<&V>)
        ensures
            match value {
                Some(v) => self@.contains_key(key) && *v == self@[key],
                None => !self@.contains_key(key),
            },
    {
        self.map.get(&key)
    }

    /// Sees to it that `key` has a value: where it has none, `init` makes
    /// one and it is stored. Says whether that was so.
    ///
    /// A key that has a value keeps it: `init` is not called then, and the
    /// map stays as it is.
    pub fn prepare<F: FnOnce() -> V>(&mut self, key: usize, init: F) -> (made: bool)
        requires
            !old(self)@.contains_key(key) ==> init.requires(()),
        ensures
            made == !old(self)@.contains_key(key),
            final(self)@.contains_key(key),
            final(self)@ == accessed(old(self)@, key, final(self)@[key]),
            made ==> init.ensures((), final(self)@[key]),
    {
        if self.map.contains_key(&key) {
            false
        } else {
            let fresh = init();
            self.map.insert(key, fresh);
            true
        }
    }

    /// The value of `key`, made by `init` and stored if the key had none.
    pub fn get_or_insert_with<F: FnOnce() -> V>(&mut self, key: usize, init: F) -> (value: &V)
        requires
            !old(self)@.contains_key(key) ==> init.requires(()),
        ensures
            final(self)@ == accessed(old(self)@, key, *value),
            final(self)@.contains_key(key),
            *value == final(self)@[key],
            !old(self)@.contains_key(key) ==> init.ensures((), *value),
    {
        self.prepare(key, init);
        self.map.get(&key).unwrap()
    }
}

/// Task-local values persist: once a key has been accessed, every later
/// access to it finds the value that the first one found or made, whatever
/// initial value the later access offers, and leaves the map as it is.
pub proof fn law_local_persists<V>(map: Map<usize, V>, key: usize, first: V, later: V)
    ensures
        accessed(accessed(map, key, first), key, later) == accessed(map, key, first),
        accessed(accessed(map, key, first), key, later)[key] == accessed(map, key, first)[key],
{
}

/// An access to one key leaves the values of all other keys alone.
pub proof fn law_local_separate<V>(map: Map<usize, V>, key: usize, other: usize, fresh: V)
    requires
        key != other,
    ensures
        accessed(map, other, fresh).contains_key(key) == map.contains_key(key),
        map.contains_key(key) ==> accessed(map, other, fresh)[key] == map[key],
{
}

} // verus!
