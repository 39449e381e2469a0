//! What the lock guarantees to a task that an executor runs.
//!
//! The model follows one task from its submission to an executor. Its steps
//! are the four things that can happen to the task: a notification through
//! some handle, an executor thread that takes the task from its queue and
//! begins to poll, and a poll that returns, either "not ready" or with the
//! final result. Each step is one call into the lock and changes the lock
//! as the contract of that call says. Steps of different threads interleave
//! in any order.
//!
//! Two facts are proved of every state that such a task can reach: polls
//! never overlap, and no notification is lost.

use vstd::prelude::*;
use crate::unpark_mutex::{Next, State};

verus! {

/// One task, as the lock, the executor and the threads that poll see it.
pub struct Scheduled<D> {
    /// The state of the task's lock.
    pub lock: State<D>,
    /// The payloads submitted to the executor and not yet taken by a thread.
    pub queue: Seq<D>,
    /// The payloads held by threads whose poll is under way.
    pub polling: Seq<D>,
    /// How many polls have begun.
    pub polls: nat,
    /// How many notifications arrived while the task was not complete and no
    /// poll was owed to it.
    pub wakes: nat,
}

/// What can happen to a task.
pub enum Step {
    /// Some thread notifies the task through a handle.
    Notify,
    /// An executor thread takes the task from the queue and begins to poll.
    Start,
    /// A poll returns "not ready".
    NotReady,
    /// A poll returns the final value or an error.
    Ready,
}

impl<D> Scheduled<D> {
    /// The task as it is submitted: never polled, its payload in the
    /// executor's queue.
    pub open spec fn submitted(payload: D) -> Self {
        Scheduled {
            lock: State::Waiting(None),
            queue: seq![payload],
            polling: seq![],
            polls: 0,
            wakes: 0,
        }
    }

    /// Whether `step` can happen. A notification can arrive at any time.
    pub open spec fn enabled(self, step: Step) -> bool {
        match step {
            Step::Notify => true,
            Step::Start => self.queue.len() > 0,
            Step::NotReady => self.polling.len() > 0,
            Step::Ready => self.polling.len() > 0,
        }
    }

    /// A poll is owed: the task is in the executor's queue, or the poll
    /// under way is to be followed by another.
    pub open spec fn owed(self) -> bool {
        self.queue.len() > 0 || self.lock is Repoll
    }

    /// Nothing is left to do without a further notification.
    pub open spec fn at_rest(self) -> bool {
        self.queue.len() == 0 && self.polling.len() == 0
    }

    /// The task after `step`.
    pub open spec fn next(self, step: Step) -> Self {
        match step {
            Step::Notify => Scheduled {
                lock: self.lock.notified(),
                queue: match self.lock.released() {
                    Some(payload) => self.queue.push(payload),
                    None => self.queue,
                },
                wakes: if self.owed() || self.lock is Complete {
                    self.wakes
                } else {
                    self.wakes + 1
                },
                ..self
            },
            Step::Start => Scheduled {
                lock: State::Polling,
                queue: self.queue.drop_first(),
                polling: self.polling.push(self.queue[0]),
                polls: self.polls + 1,
                ..self
            },
            Step::NotReady => {
                let lock = self.lock.settled(false, self.polling[0]);
                match self.lock.next_turn(false, self.polling[0]) {
                    Next::Repoll(payload) => Scheduled {
                        lock,
                        polling: self.polling.drop_first().push(payload),
                        polls: self.polls + 1,
                        ..self
                    },
                    _ => Scheduled { lock, polling: self.polling.drop_first(), ..self },
                }
            },
            Step::Ready => Scheduled {
                lock: self.lock.settled(true, self.polling[0]),
                polling: self.polling.drop_first(),
                ..self
            },
        }
    }

    /// Whether each of `steps` can happen in turn, from this state on.
    pub open spec fn admits(self, steps: Seq<Step>) -> bool
        decreases steps.len(),
    {
        steps.len() == 0 || {
            &&& self.enabled(steps[0])
            &&& self.next(steps[0]).admits(steps.drop_first())
        }
    }

    /// The task after all of `steps`.
    pub open spec fn after(self, steps: Seq<Step>) -> Self
        decreases steps.len(),
    {
        if steps.len() == 0 {
            self
        } else {
            self.next(steps[0]).after(steps.drop_first())
        }
    }

    /// Whether, in `steps`, no poll before the `k`-th returns the final
    /// result: the future answers "not ready" until it has been polled `k`
    /// times.
    pub open spec fn patient(self, steps: Seq<Step>, k: nat) -> bool
        decreases steps.len(),
    {
        steps.len() == 0 || {
            &&& steps[0] is Ready ==> self.polls >= k
            &&& self.next(steps[0]).patient(steps.drop_first(), k)
        }
    }

    /// How many hold the payload: the lock, the executor's queue, and the
    /// threads that poll.
    pub open spec fn holders(self) -> nat {
        (if self.lock.parked() { 1nat } else { 0nat }) + self.queue.len() + self.polling.len()
    }

    /// What holds of every state that a submitted task reaches.
    ///
    /// The payload is in exactly one place until the task completes, and
    /// then nowhere. A thread polls only while the lock says so. Until the
    /// task completes, each poll that has begun or is owed answers the
    /// submission or one notification that found no poll owed.
    pub open spec fn inv(self) -> bool {
        &&& self.holders() == if self.lock is Complete { 0nat } else { 1nat }
        &&& self.polling.len() > 0 ==> self.lock.in_poll()
        &&& !(self.lock is Complete) ==> self.polls + (if self.owed() { 1nat } else { 0nat })
            == 1 + self.wakes
    }
}

/// A submitted task satisfies the invariant.
pub proof fn lemma_submitted_inv<D>(payload: D)
    ensures
        Scheduled::submitted(payload).inv(),
{
}

/// Every step that can happen preserves the invariant, and it meets what
/// the lock's operation requires of its caller.
pub proof fn lemma_step_inv<D>(s: Scheduled<D>, step: Step)
    requires
        s.inv(),
        s.enabled(step),
    ensures
        s.next(step).inv(),
        step is Start ==> s.lock.payload_out(),
        step is NotReady || step is Ready ==> s.lock.in_poll(),
{
}

/// Steps preserve the invariant, however many.
pub proof fn lemma_steps_inv<D>(s: Scheduled<D>, steps: Seq<Step>)
    requires
        s.inv(),
        s.admits(steps),
    ensures
        s.after(steps).inv(),
    decreases steps.len(),
{
    if steps.len() > 0 {
        lemma_step_inv(s, steps[0]);
        lemma_steps_inv(s.next(steps[0]), steps.drop_first());
    }
}

/// Polls never overlap: whatever notifications arrive and whenever the
/// executor's threads run, at most one thread polls the task at any moment.
pub proof fn law_at_most_one_poll<D>(payload: D, steps: Seq<Step>)
    requires
        Scheduled::submitted(payload).admits(steps),
    ensures
        Scheduled::submitted(payload).after(steps).polling.len() <= 1,
{
    lemma_submitted_inv(payload);
    lemma_steps_inv(Scheduled::submitted(payload), steps);
}

/// While a poll is under way, a notification hands out no payload: it is
/// only recorded, so no second poll can begin beside the first.
pub proof fn law_notify_during_poll<D>(s: State<D>)
    requires
        s.in_poll(),
    ensures
        s.released() is None,
        s.notified() is Repoll,
{
}

/// A poll that is owed stays owed until a poll begins or the task completes.
pub proof fn lemma_owed_until_poll<D>(s: Scheduled<D>, steps: Seq<Step>)
    requires
        s.inv(),
        s.owed(),
        s.admits(steps),
    ensures
        s.after(steps).owed() || s.after(steps).polls > s.polls || s.after(steps).lock is Complete,
    decreases steps.len(),
{
    if steps.len() > 0 {
        let t = s.next(steps[0]);
        lemma_step_inv(s, steps[0]);
        assert(t.polls >= s.polls);
        if t.owed() {
            lemma_owed_until_poll(t, steps.drop_first());
        } else if t.lock is Complete {
            lemma_complete_stays(t, steps.drop_first());
        } else {
            lemma_polls_grow(t, steps.drop_first());
        }
    }
}

/// The number of polls begun never falls.
pub proof fn lemma_polls_grow<D>(s: Scheduled<D>, steps: Seq<Step>)
    requires
        s.admits(steps),
    ensures
        s.after(steps).polls >= s.polls,
    decreases steps.len(),
{
    if steps.len() > 0 {
        lemma_polls_grow(s.next(steps[0]), steps.drop_first());
    }
}

/// A task that is complete stays complete.
pub proof fn lemma_complete_stays<D>(s: Scheduled<D>, steps: Seq<Step>)
    requires
        s.inv(),
        s.admits(steps),
        s.lock is Complete,
    ensures
        s.after(steps).lock is Complete,
    decreases steps.len(),
{
    if steps.len() > 0 {
        lemma_step_inv(s, steps[0]);
        lemma_complete_stays(s.next(steps[0]), steps.drop_first());
    }
}

/// No notification is lost: after a notification of a task that is not
/// complete, a poll begins before the task comes to rest, unless the task
/// completes first. This holds from every state that a submitted task can
/// reach, and for every way in which the steps that follow interleave.
pub proof fn law_no_lost_wakeup<D>(s: Scheduled<D>, rest: Seq<Step>)
    requires
        s.inv(),
        !(s.lock is Complete),
        s.next(Step::Notify).admits(rest),
        s.next(Step::Notify).after(rest).at_rest(),
    ensures
        ({
            let end = s.next(Step::Notify).after(rest);
            end.polls > s.polls || end.lock is Complete
        }),
{
    let t = s.next(Step::Notify);
    lemma_step_inv(s, Step::Notify);
    lemma_owed_until_poll(t, rest);
    lemma_steps_inv(t, rest);
}

/// A task at rest has been polled once for its submission and once for each
/// notification that found no poll owed, unless it is complete.
pub proof fn law_polls_at_rest<D>(payload: D, steps: Seq<Step>)
    requires
        Scheduled::submitted(payload).admits(steps),
        Scheduled::submitted(payload).after(steps).at_rest(),
    ensures
        ({
            let end = Scheduled::submitted(payload).after(steps);
            end.lock is Complete || end.polls == 1 + end.wakes
        }),
{
    lemma_submitted_inv(payload);
    lemma_steps_inv(Scheduled::submitted(payload), steps);
}

/// A future that is not ready before its `k`-th poll is complete only once
/// it has been polled `k` times.
pub proof fn lemma_patient_complete<D>(s: Scheduled<D>, steps: Seq<Step>, k: nat)
    requires
        s.inv(),
        s.admits(steps),
        s.patient(steps, k),
        s.lock is Complete ==> s.polls >= k,
    ensures
        s.after(steps).lock is Complete ==> s.after(steps).polls >= k,
    decreases steps.len(),
{
    if steps.len() > 0 {
        lemma_step_inv(s, steps[0]);
        lemma_patient_complete(s.next(steps[0]), steps.drop_first(), k);
    }
}

/// A future that answers "not ready" until it has been polled `k` times is
/// polled `k` times before its task comes to rest, provided that of the
/// notifications at least `k - 1` found no poll owed. Nothing more is needed
/// from outside: the steps are those of the executor and of the polls alone.
pub proof fn law_polled_until_ready<D>(payload: D, steps: Seq<Step>, k: nat)
    requires
        Scheduled::submitted(payload).admits(steps),
        Scheduled::submitted(payload).patient(steps, k),
        Scheduled::submitted(payload).after(steps).at_rest(),
        k <= 1 + Scheduled::submitted(payload).after(steps).wakes,
    ensures
        Scheduled::submitted(payload).after(steps).polls >= k,
{
    lemma_submitted_inv(payload);
    lemma_steps_inv(Scheduled::submitted(payload), steps);
    lemma_patient_complete(Scheduled::submitted(payload), steps, k);
}

} // verus!
