//! Handles through which a task is woken.

use vstd::prelude::*;
use std::sync::Arc;
use crate::events::{EventSet, Events, UnparkEvent};
use crate::shared::share;

verus! {

/// The capability to wake a task: to see to it that the task is polled
/// again soon. It can be used from any thread and any number of times.
pub trait Unpark: Send + Sync + 'static {
    /// Wakes the task.
    fn unpark(&self);
}

/// A handle to a task: its identifier, the capability to wake it, and the
/// events to trigger on the way.
///
/// A handle can be cloned cheaply, sent to other threads and kept for any
/// length of time. All that it offers is [`unpark`](Task::unpark).
pub struct Task<U: ?Sized = dyn Unpark, S: ?Sized = dyn EventSet> {
    id: usize,
    unpark: Arc<U>,
    events: Events<S>,
}

impl<U: Unpark + ?Sized, S: EventSet + ?Sized> Task<U, S> {
    /// The identifier of the task.
    pub closed spec fn id(&self) -> usize {
        self.id
    }

    /// The capability that wakes the task.
    pub closed spec fn waker(&self) -> Arc<U> {
        self.unpark
    }

    /// The events that the handle triggers, in order.
    pub closed spec fn events(&self) -> Seq<UnparkEvent<S>> {
        self.events@
    }

    /// The capability has been used, as far as its own contract says what
    /// that means.
    pub open spec fn woken(&self) -> bool {
        U::unpark.ensures((&*self.waker(),), ())
    }

    /// The handle has been used to notify the task: each of its events has
    /// been triggered and the capability has been used.
    pub open spec fn notified(&self) -> bool {
        &&& forall|i: int|
            0 <= i < self.events().len() ==> (#[trigger] self.events()[i]).triggered()
        &&& self.woken()
    }

    /// A handle to the task `id` that wakes it through `unpark` and triggers
    /// no event.
    pub fn new(id: usize, unpark: Arc<U>) -> (task: Self)
        ensures
            task.id() == id,
            task.waker() == unpark,
            task.events() == Seq::<UnparkEvent<S>>::empty(),
    {
        Task { id, unpark, events: Events::new() }
    }

    /// The identifier of the task.
    pub fn task_id(&self) -> (id: usize)
        ensures
            id == self.id(),
    {
        self.id
    }

    /// The number of events that the handle triggers.
    pub fn event_count(&self) -> (n: usize)
        ensures
            n == self.events().len(),
    {
        self.events.len()
    }

    /// A handle to the same task with the same capability that triggers
    /// `event` after the events of this one. This handle is not changed.
    pub fn with_event(&self, event: UnparkEvent<S>) -> (task: Self)
        ensures
            task.id() == self.id(),
            task.waker() == self.waker(),
            task.events() == self.events().push(event),
    {
        Task { id: self.id, unpark: share(&self.unpark), events: self.events.with_event(event) }
    }

    /// Notifies the task: triggers the events of the handle in their order,
    /// then uses the capability to wake the task.
    ///
    /// The events are triggered whether or not the capability then finds
    /// anything to do: they say why a wake-up was attempted, not whether it
    /// led to a poll.
    pub fn unpark(&self)
        ensures
            self.notified(),
    {
        self.events.trigger();
        self.unpark.unpark();
    }
}

impl<U: Unpark + ?Sized, S: EventSet + ?Sized> Clone for Task<U, S> {
    /// A second handle to the same task. The two share the capability and
    /// the sets of their events; each triggers every event of the list each
    /// time it is used.
    fn clone(&self) -> (task: Self)
        ensures
            task.id() == self.id(),
            task.waker() == self.waker(),
            task.events() == self.events(),
    {
        Task { id: self.id, unpark: share(&self.unpark), events: self.events.clone() }
    }
}

/// Clones are handles of their own: a clone triggers the events of the
/// handle it was made from, as many and in the same order, and wakes the
/// task through the same capability, each time it is used. Nothing is
/// merged: a handle with one more event has one more event to trigger,
/// whether or not the event was attached before.
pub proof fn law_clone_independent<U: Unpark + ?Sized, S: EventSet + ?Sized>(
    task: Task<U, S>,
    clone: Task<U, S>,
    extended: Task<U, S>,
    event: UnparkEvent<S>,
)
    requires
        clone.id() == task.id(),
        clone.waker() == task.waker(),
        clone.events() == task.events(),
        extended.events() == clone.events().push(event),
    ensures
        clone.notified() == task.notified(),
        extended.events().len() == task.events().len() + 1,
        extended.events().last() == event,
{
}

fn _assert_send<T: Send>() {
}

fn _assert_kinds() {
    _assert_send::<Task>();
}

} // verus!
