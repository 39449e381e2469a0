//! Wake reasons: what a notification records before it wakes the task.
//!
//! A task that waits on many things at once wants to know which of them
//! woke it. An unpark event names a shared set and an identifier; a handle
//! that carries the event inserts the identifier into the set each time it
//! is used to notify the task.

use vstd::prelude::*;
use std::sync::Arc;
use crate::shared::share;

verus! {

/// A set of identifiers that any thread may insert into.
///
/// How the set is represented, and how it is read, is up to whoever
/// implements it.
pub trait EventSet: Send + Sync + 'static {
    /// Inserts `id` into the set.
    fn insert(&self, id: usize);
}

/// An insertion to make when a task is notified: `item` goes into `set`.
pub struct UnparkEvent<S: ?Sized = dyn EventSet> {
    set: Arc<S>,
    item: usize,
}

impl<S: EventSet + ?Sized> UnparkEvent<S> {
    /// The set that the event inserts into.
    pub closed spec fn set(&self) -> Arc<S> {
        self.set
    }

    /// The identifier that the event inserts.
    pub closed spec fn item(&self) -> usize {
        self.item
    }

    /// An event that inserts `id` into `set` when it is triggered.
    pub fn new(set: Arc<S>, id: usize) -> (event: Self)
        ensures
            event.set() == set,
            event.item() == id,
    {
        UnparkEvent { set, item: id }
    }

    /// The identifier that the event inserts.
    pub fn id(&self) -> (id: usize)
        ensures
            id == self.item(),
    {
        self.item
    }

    /// The insertion has been made, as far as the set's own contract says
    /// what that means.
    pub open spec fn triggered(&self) -> bool {
        S::insert.ensures((&*self.set(), self.item()), ())
    }

    /// Makes the insertion.
    pub fn trigger(&self)
        ensures
            self.triggered(),
    {
        self.set.insert(self.item);
    }
}

impl<S: EventSet + ?Sized> Clone for UnparkEvent<S> {
    /// The same insertion into the same set, which both events then share.
    fn clone(&self) -> (event: Self)
        ensures
            event == *self,
    {
        UnparkEvent { set: share(&self.set), item: self.item }
    }
}

/// The events that a handle triggers, in the order in which they were
/// attached. A list is never changed: a longer one is made from it.
pub struct Events<S: ?Sized = dyn EventSet> {
    set: Vec<UnparkEvent<S>>,
}

impl<S: EventSet + ?Sized> View for Events<S> {
    type V = Seq<UnparkEvent<S>>;

    closed spec fn view(&self) -> Seq<UnparkEvent<S>> {
        self.set@
    }
}

impl<S: EventSet + ?Sized> Events<S> {
    /// The empty list.
    pub fn new() -> (events: Self)
        ensures
            events@ == Seq::<UnparkEvent<S>>::empty(),
    {
        Events { set: Vec::new() }
    }

    /// The number of events.
    pub fn len(&self) -> (n: usize)
        ensures
            n == self@.len(),
    {
        self.set.len()
    }

    /// Makes the insertions, in the order of the list.
    pub fn trigger(&self)
        ensures
            forall|i: int| 0 <= i < self@.len() ==> (#[trigger] self@[i]).triggered(),
    {
        let n = self.set.len();
        let mut i: usize = 0;
        while i < n
            invariant
                n == self.set.len(),
                i <= n,
                forall|j: int| 0 <= j < i ==> (#[trigger] self@[j]).triggered(),
            decreases n - i,
        {
            self.set[i].trigger();
            i += 1;
        }
    }

    /// A new list: this one, and `event` after it.
    pub fn with_event(&self, event: UnparkEvent<S>) -> (events: Self)
        ensures
            events@ == self@.push(event),
    {
        let mut set = self.set.clone();
        assert(set@ =~= self.set@);
        set.push(event);
        Events { set }
    }
}

impl<S: EventSet + ?Sized> Clone for Events<S> {
    /// The same events in the same order.
    fn clone(&self) -> (events: Self)
        ensures
            events@ == self@,
    {
        let set = self.set.clone();
        assert(set@ =~= self.set@);
        Events { set }
    }
}

} // verus!
