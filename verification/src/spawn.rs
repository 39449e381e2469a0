//! A computation bound to a task.

use vstd::prelude::*;
use std::sync::Arc;
use crate::ambient::{locals_left, Ambient, Frame};
use crate::events::UnparkEvent;
use crate::ids::{fresh_task_id, TaskIds};
use crate::local::{Local, LocalMap};
use crate::poll::{Future, Poll, Stream};
use crate::shared::share;
use crate::task::{Task, Unpark};

verus! {

/// A future or stream together with what makes it a task: an identifier and
/// local storage. It owns all three, and is polled through
/// [`poll_future`](Spawn::poll_future) or [`poll_stream`](Spawn::poll_stream).
pub struct Spawn<T> {
    obj: T,
    id: usize,
    data: LocalMap,
}

/// Binds `obj` to a new task, whose identifier is drawn from `ids`.
///
/// The counter must not be exhausted.
pub fn spawn<T>(obj: T, ids: &mut TaskIds) -> (spawned: Spawn<T>)
    requires
        old(ids)@ < TaskIds::limit(),
    ensures
        spawned.get() == obj,
        spawned.id() == old(ids).drawn(0),
        spawned.locals() == Map::<usize, Local>::empty(),
        final(ids)@ == old(ids)@ + 1,
        forall|n: nat| #[trigger] final(ids).drawn(n) == old(ids).drawn(n + 1),
{
    Spawn { obj, id: fresh_task_id(ids), data: LocalMap::new() }
}

impl<T> Spawn<T> {
    /// The computation.
    pub closed spec fn get(&self) -> T {
        self.obj
    }

    /// The identifier of the task.
    pub closed spec fn id(&self) -> usize {
        self.id
    }

    /// The task-local values.
    pub closed spec fn locals(&self) -> Map<usize, Local> {
        self.data@
    }

    /// Whether `installed` is what a poll of the task installs: a handle
    /// with the task's identifier and no events, and the task's local
    /// storage.
    pub open spec fn polled_in(&self, installed: Option<Frame>) -> bool {
        &&& installed matches Some(frame)
        &&& frame.task.id() == self.id()
        &&& frame.task.events() == Seq::<UnparkEvent>::empty()
        &&& frame.locals@ == self.locals()
    }

    /// The identifier of the task.
    pub fn task_id(&self) -> (id: usize)
        ensures
            id == self.id(),
    {
        self.id
    }

    /// The computation.
    pub fn get_ref(&self) -> (obj: &T)
        ensures
            *obj == self.get(),
    {
        &self.obj
    }

    /// Installs `task` and the local storage in `cx`, and hands out what
    /// was installed before. The local storage is away until
    /// [`leave`](Self::leave) brings it back.
    fn arrive(&mut self, task: Task, cx: &mut Ambient) -> (prior: Option<Frame>)
        ensures
            final(cx)@ == Some(Frame { task, locals: old(self).data }),
            prior == old(cx)@,
            final(self).obj == old(self).obj,
            final(self).id == old(self).id,
            final(self).data@ == Map::<usize, Local>::empty(),
    {
        let mut locals = LocalMap::new();
        std::mem::swap(&mut self.data, &mut locals);
        cx.install(Frame { task, locals })
    }

    /// Puts `prior` back in `cx` and takes the local storage from the frame
    /// that was installed in its place.
    fn leave(&mut self, cx: &mut Ambient, prior: Option<Frame>)
        requires
            old(self).data@ == Map::<usize, Local>::empty(),
        ensures
            final(cx)@ == prior,
            final(self).obj == old(self).obj,
            final(self).id == old(self).id,
            final(self).data@ == locals_left(old(cx)@),
    {
        match cx.restore(prior) {
            Some(frame) => {
                self.data = frame.locals;
            },
            None => {},
        }
    }

    /// Runs `f` on the computation as a poll of the task would run it.
    ///
    /// While `f` runs, the context holds a handle to the task that wakes it
    /// through `unpark` and triggers no event, and the task's local storage.
    /// Afterwards the context is what it was before, whatever `f` has done
    /// to it, so polls nest. The local storage is what `f` left in the
    /// frame.
    pub fn enter<F, R>(&mut self, unpark: &Arc<dyn Unpark>, cx: &mut Ambient, f: F) -> (result: R)
        where F: FnOnce(&mut T, &mut Ambient) -> R,
        requires
            forall|obj: &mut T, c: &mut Ambient|
                *obj == old(self).get() && old(self).polled_in(c@) && c@->0.task.waker() == *unpark
                    ==> #[trigger] f.requires((obj, c)),
        ensures
            final(cx)@ == old(cx)@,
            final(self).id() == old(self).id(),
            exists|obj: &mut T, c: &mut Ambient|
                *obj == old(self).get() && old(self).polled_in(c@) && c@->0.task.waker() == *unpark
                    && #[trigger] f.ensures((obj, c), result) && final(self).get() == *final(obj)
                    && final(self).locals() == locals_left(final(c)@),
    {
        let task = Task::new(self.id, share(unpark));
        let prior = self.arrive(task, cx);
        let result = f(&mut self.obj, cx);
        self.leave(cx, prior);
        result
    }
}

impl<F: Future> Spawn<F> {
    /// Polls the future once, as the task that wakes through `unpark`.
    ///
    /// The future finds a handle to the task and the task's local storage
    /// in `cx` while it is polled. Afterwards `cx` is what it was before.
    pub fn poll_future(&mut self, unpark: &Arc<dyn Unpark>, cx: &mut Ambient) -> (poll: Poll<
        F::Item,
        F::Error,
    >)
        ensures
            final(cx)@ == old(cx)@,
            final(self).id() == old(self).id(),
            exists|future: &mut F, c: &mut Ambient|
                *future == old(self).get() && old(self).polled_in(c@) && c@->0.task.waker() == *unpark
                    && #[trigger] F::poll.ensures((future, c), poll)
                    && final(self).get() == *final(future)
                    && final(self).locals() == locals_left(final(c)@),
    {
        let task = Task::new(self.id, share(unpark));
        let prior = self.arrive(task, cx);
        let poll = self.obj.poll(cx);
        self.leave(cx, prior);
        poll
    }
}

impl<S: Stream> Spawn<S> {
    /// Polls the stream once, as the task that wakes through `unpark`. See
    /// [`poll_future`](Spawn::poll_future).
    pub fn poll_stream(&mut self, unpark: &Arc<dyn Unpark>, cx: &mut Ambient) -> (poll: Poll<
        Option<S::Item>,
        S::Error,
    >)
        ensures
            final(cx)@ == old(cx)@,
            final(self).id() == old(self).id(),
            exists|stream: &mut S, c: &mut Ambient|
                *stream == old(self).get() && old(self).polled_in(c@) && c@->0.task.waker() == *unpark
                    && #[trigger] S::poll.ensures((stream, c), poll)
                    && final(self).get() == *final(stream)
                    && final(self).locals() == locals_left(final(c)@),
    {
        let task = Task::new(self.id, share(unpark));
        let prior = self.arrive(task, cx);
        let poll = self.obj.poll(cx);
        self.leave(cx, prior);
        poll
    }
}

} // verus!
