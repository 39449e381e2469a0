//! The ambient context of a poll.
//!
//! While a task is polled, the code that runs inside the poll can reach two
//! things without having them handed down through every layer: a handle to
//! the task, and the task's local storage. The pair is installed for the
//! length of the poll and the pair that was there before is put back
//! afterwards, so polls nest. A thread keeps one context.

use vstd::prelude::*;
use crate::events::UnparkEvent;
use crate::local::{accessed, Local, LocalMap};
use crate::task::Task;

verus! {

/// What is installed during a poll: the handle of the task that is polled,
/// and that task's local storage.
pub struct Frame {
    pub task: Task,
    pub locals: LocalMap,
}

/// The context of one thread: the frame of the poll under way, if any.
pub struct Ambient {
    current: Option<Frame>,
}

impl View for Ambient {
    type V = Option<Frame>;

    closed spec fn view(&self) -> Option<Frame> {
        self.current
    }
}

/// The local storage that a body leaves behind for the frame it ran in. A
/// body that removed the frame altogether leaves none.
pub open spec fn locals_left(left: Option<Frame>) -> Map<usize, Local> {
    match left {
        Some(frame) => frame.locals@,
        None => Map::empty(),
    }
}

/// Whether `frame` is `outer` with `event` attached: the same task, the
/// same capability and the same local storage, and `event` after the events
/// of `outer`.
pub open spec fn attached(frame: Frame, outer: Frame, event: UnparkEvent) -> bool {
    &&& frame.task.id() == outer.task.id()
    &&& frame.task.waker() == outer.task.waker()
    &&& frame.task.events() == outer.task.events().push(event)
    &&& frame.locals == outer.locals
}

impl Ambient {
    /// Whether a task is being polled.
    pub open spec fn running(&self) -> bool {
        self@ is Some
    }

    /// The context of a thread on which no task is being polled.
    pub fn new() -> (cx: Self)
        ensures
            !cx.running(),
    {
        Ambient { current: None }
    }

    /// Whether a task is being polled.
    pub fn is_running(&self) -> (b: bool)
        ensures
            b == self.running(),
    {
        self.current.is_some()
    }

    /// Installs `frame` and hands out what was installed before.
    pub fn install(&mut self, frame: Frame) -> (prior: Option<Frame>)
        ensures
            final(self)@ == Some(frame),
            prior == old(self)@,
    {
        let mut current = Some(frame);
        std::mem::swap(&mut self.current, &mut current);
        current
    }

    /// Puts `prior` back and hands out what was installed in its place.
    pub fn restore(&mut self, prior: Option<Frame>) -> (left: Option<Frame>)
        ensures
            final(self)@ == prior,
            left == old(self)@,
    {
        let mut current = prior;
        std::mem::swap(&mut self.current, &mut current);
        current
    }

    /// The handle of the task that is being polled.
    pub fn task(&self) -> (task: &Task)
        requires
            self.running(),
        ensures
            *task == self@->0.task,
    {
        &self.current.as_ref().unwrap().task
    }

    /// The local storage of the task that is being polled.
    pub fn locals(&self) -> (locals: &LocalMap)
        requires
            self.running(),
        ensures
            *locals == self@->0.locals,
    {
        &self.current.as_ref().unwrap().locals
    }

    /// The task-local value of `key` in the task that is being polled, made
    /// by `init` and stored if the key had none.
    pub fn local<F: FnOnce() -> Local>(&mut self, key: usize, init: F) -> (value: &Local)
        requires
            old(self).running(),
            !old(self)@->0.locals@.contains_key(key) ==> init.requires(()),
        ensures
            final(self).running(),
            final(self)@->0.task == old(self)@->0.task,
            final(self)@->0.locals@ == accessed(old(self)@->0.locals@, key, *value),
            *value == final(self)@->0.locals@[key],
            !old(self)@->0.locals@.contains_key(key) ==> init.ensures((), *value),
    {
        let frame = self.current.as_mut().unwrap();
        frame.locals.get_or_insert_with(key, init)
    }
}

/// Runs `f` with `frame` installed and puts back what was installed before,
/// whatever `f` has done to the context. Hands out the result of `f` and the
/// frame that `f` left.
pub fn set<F, R>(cx: &mut Ambient, frame: Frame, f: F) -> ((result, left): (R, Option<Frame>)) where
    F: FnOnce(&mut Ambient) -> R,

    requires
        forall|c: &mut Ambient| c@ == Some(frame) ==> #[trigger] f.requires((c,)),
    ensures
        final(cx)@ == old(cx)@,
        exists|c: &mut Ambient|
            c@ == Some(frame) && #[trigger] f.ensures((c,), result) && left == final(c)@,
{
    let prior = cx.install(frame);
    let result = f(cx);
    let left = cx.restore(prior);
    let out = (result, left);
    assert(out.0 == result && out.1 == left);
    out
}

/// Runs `f` on the handle and the local storage of the task that is being
/// polled. A task must be running.
pub fn with<F, R>(cx: &Ambient, f: F) -> (result: R) where F: FnOnce(&Task, &LocalMap) -> R
    requires
        cx.running(),
        f.requires((&cx@->0.task, &cx@->0.locals)),
    ensures
        f.ensures((&cx@->0.task, &cx@->0.locals), result),
{
    let frame = cx.current.as_ref().unwrap();
    f(&frame.task, &frame.locals)
}

/// A handle to the task that is being polled, to notify it later.
///
/// The handle triggers the events that are attached at this point. A task
/// must be running.
pub fn park(cx: &Ambient) -> (task: Task)
    requires
        cx.running(),
    ensures
        task.id() == cx@->0.task.id(),
        task.waker() == cx@->0.task.waker(),
        task.events() == cx@->0.task.events(),
{
    let handle = |task: &Task, _locals: &LocalMap| -> (handle: Task)
        ensures
            handle.id() == task.id(),
            handle.waker() == task.waker(),
            handle.events() == task.events(),
        {
            task.clone()
        };
    with(cx, handle)
}

/// Runs `f` with `event` attached: a handle obtained inside `f` triggers
/// `event` after the events that were attached before. The handle that was
/// installed is not changed, and it is installed again when `f` is done.
/// Local storage is the task's throughout. A task must be running.
pub fn with_unpark_event<F, R>(cx: &mut Ambient, event: UnparkEvent, f: F) -> (result: R) where
    F: FnOnce(&mut Ambient) -> R,

    requires
        old(cx).running(),
        forall|c: &mut Ambient|
            c.running() && attached(c@->0, old(cx)@->0, event) ==> #[trigger] f.requires((c,)),
    ensures
        final(cx).running(),
        final(cx)@->0.task == old(cx)@->0.task,
        exists|c: &mut Ambient|
            c.running() && attached(c@->0, old(cx)@->0, event) && #[trigger] f.ensures(
                (c,),
                result,
            ) && final(cx)@->0.locals@ == locals_left(final(c)@),
{
    let Frame { task, locals } = cx.current.take().unwrap();
    let (result, left) = set(cx, Frame { task: task.with_event(event), locals }, f);
    let locals = match left {
        Some(frame) => frame.locals,
        None => LocalMap::new(),
    };
    cx.current = Some(Frame { task, locals });
    result
}

/// Events are triggered in the order in which they were attached: where
/// `first` attaches an event to `outer` and `second` attaches another inside
/// it, a handle obtained in `second` triggers the events of `outer`, then
/// the event of `first`, then the event of `second`.
pub proof fn law_event_order(
    outer: Frame,
    first: Frame,
    second: Frame,
    earlier: UnparkEvent,
    later: UnparkEvent,
)
    requires
        attached(first, outer, earlier),
        attached(second, first, later),
    ensures
        second.task.events() == outer.task.events() + seq![earlier, later],
        second.task.id() == outer.task.id(),
        second.task.waker() == outer.task.waker(),
{
    assert(outer.task.events().push(earlier).push(later) =~= outer.task.events() + seq![
        earlier,
        later,
    ]);
}

} // verus!
