//! The lock that sequences polling against notification.
//!
//! The lock is never held across a poll. It records instead, in one of four
//! states, whether a poll is under way and whether a notification arrived
//! during it, and it keeps the task's payload while nobody polls. Whoever
//! holds the payload is the only one entitled to poll.

use vstd::prelude::*;
use crate::poll::Poll;

verus! {

/// The four situations a task can be in, with the payload where the lock
/// keeps it.
pub enum State<D> {
    /// No poll is active and no notification is pending. The payload is
    /// parked here once a poll has returned "not ready"; before the first
    /// poll it is still with whoever created the task.
    Waiting(Option<D>),
    /// A poll is under way and no notification has arrived during it.
    Polling,
    /// A poll is under way and a notification has arrived during it: the
    /// task must be polled again as soon as this poll returns "not ready".
    Repoll,
    /// The task has finished. Notifications are ignored from now on.
    Complete,
}

/// The state without its payload.
#[derive(Clone, Copy, PartialEq, Eq, Structural, Debug)]
pub enum Status {
    Waiting,
    Polling,
    Repoll,
    Complete,
}

impl<D> State<D> {
    /// The state without its payload.
    pub open spec fn status(self) -> Status {
        match self {
            State::Waiting(_) => Status::Waiting,
            State::Polling => Status::Polling,
            State::Repoll => Status::Repoll,
            State::Complete => Status::Complete,
        }
    }

    /// The payload is parked in the lock.
    pub open spec fn parked(self) -> bool {
        self matches State::Waiting(Some(_))
    }

    /// The payload is outside the lock: its holder may begin a poll.
    pub open spec fn payload_out(self) -> bool {
        !(self is Complete) && !self.parked()
    }

    /// A poll is under way, as far as the lock knows.
    pub open spec fn in_poll(self) -> bool {
        self is Polling || self is Repoll
    }

    /// The state in which a notification leaves the lock.
    pub open spec fn notified(self) -> State<D> {
        match self {
            State::Waiting(_) => State::Polling,
            State::Polling => State::Repoll,
            State::Repoll => State::Repoll,
            State::Complete => State::Complete,
        }
    }

    /// The payload that a notification takes out of the lock, if any.
    pub open spec fn released(self) -> Option<D> {
        match self {
            State::Waiting(slot) => slot,
            _ => None,
        }
    }

    /// The state in which a poller that offers `payload` for parking leaves
    /// the lock.
    pub open spec fn waited(self, payload: D) -> State<D> {
        match self {
            State::Polling => State::Waiting(Some(payload)),
            State::Repoll => State::Polling,
            other => other,
        }
    }

    /// The state in which the poller leaves the lock at the end of a turn:
    /// `Complete` where the future has finished, else as after
    /// [`waited`](Self::waited).
    pub open spec fn settled(self, finished: bool, payload: D) -> State<D> {
        if finished {
            State::Complete
        } else {
            self.waited(payload)
        }
    }

    /// What the poller does after a turn that began in this state.
    pub open spec fn next_turn(self, finished: bool, payload: D) -> Next<D> {
        if finished {
            Next::Finished
        } else if self is Polling {
            Next::Parked
        } else {
            Next::Repoll(payload)
        }
    }
}

/// What the poller does next, once a poll has returned.
pub enum Next<D> {
    /// The future finished: the task is complete and its payload is gone.
    Finished,
    /// The payload is parked in the lock. The next notification takes it out.
    Parked,
    /// A notification arrived during the poll: poll again at once, with the
    /// payload handed back.
    Repoll(D),
}

/// A lock in one of the four states of [`State`].
pub struct UnparkMutex<D> {
    state: State<D>,
}

impl<D> View for UnparkMutex<D> {
    type V = State<D>;

    closed spec fn view(&self) -> State<D> {
        self.state
    }
}

impl<D> UnparkMutex<D> {
    /// A lock for a task that has not been polled yet: `Waiting`, with the
    /// payload still outside.
    pub fn new() -> (m: Self)
        ensures
            m@ == State::<D>::Waiting(None),
    {
        UnparkMutex { state: State::Waiting(None) }
    }

    /// The current state without its payload.
    pub fn status(&self) -> (s: Status)
        ensures
            s == self@.status(),
    {
        match &self.state {
            State::Waiting(_) => Status::Waiting,
            State::Polling => Status::Polling,
            State::Repoll => Status::Repoll,
            State::Complete => Status::Complete,
        }
    }

    /// Whether the payload is parked in the lock.
    pub fn is_parked(&self) -> (b: bool)
        ensures
            b == self@.parked(),
    {
        match &self.state {
            State::Waiting(Some(_)) => true,
            _ => false,
        }
    }

    /// Records a notification.
    ///
    /// From `Waiting` the payload is handed out and the state becomes
    /// `Polling`: the caller must see to it that the task is polled. From
    /// `Polling` the state becomes `Repoll` and nothing is handed out: the
    /// poll under way will be followed by another. In `Repoll` and in
    /// `Complete` nothing changes.
    ///
    /// Before the first poll the lock has no payload to hand out. The state
    /// becomes `Polling` all the same, and the first poll, which is still to
    /// come, answers the notification.
    pub fn notify(&mut self) -> (r: Result<D, ()>)
        ensures
            final(self)@ == old(self)@.notified(),
            r == match old(self)@.released() {
                Some(payload) => Ok::<D, ()>(payload),
                None => Err::<D, ()>(()),
            },
    {
        match &self.state {
            State::Waiting(_) => {
                let mut prior = State::Polling;
                std::mem::swap(&mut self.state, &mut prior);
                match prior {
                    State::Waiting(Some(payload)) => Ok(payload),
                    _ => Err(()),
                }
            },
            State::Polling => {
                self.state = State::Repoll;
                Err(())
            },
            _ => Err(()),
        }
    }

    /// Marks the beginning of a poll by the holder of the payload.
    ///
    /// The holder has the payload from the task's creation or from
    /// [`notify`](Self::notify). A notification that arrived since then is
    /// absorbed: the poll that begins now comes after it.
    pub fn start_poll(&mut self)
        requires
            old(self)@.payload_out(),
        ensures
            final(self)@ == State::<D>::Polling,
    {
        self.state = State::Polling;
    }

    /// Offers the payload for parking after a poll that returned "not ready".
    ///
    /// From `Polling` the payload is parked and the state becomes `Waiting`.
    /// From `Repoll` the state becomes `Polling` and the payload is handed
    /// back unchanged: the caller must poll again at once.
    pub fn wait(&mut self, payload: D) -> (r: Result<(), D>)
        requires
            old(self)@.in_poll(),
        ensures
            final(self)@ == old(self)@.waited(payload),
            r == if old(self)@ is Polling {
                Ok::<(), D>(())
            } else {
                Err::<(), D>(payload)
            },
    {
        match &self.state {
            State::Polling => {
                self.state = State::Waiting(Some(payload));
                Ok(())
            },
            _ => {
                self.state = State::Polling;
                Err(payload)
            },
        }
    }

    /// Marks the task as finished, from any state. A payload that was parked
    /// is dropped.
    pub fn complete(&mut self)
        ensures
            final(self)@ == State::<D>::Complete,
    {
        self.state = State::Complete;
    }

    /// Ends one turn of the poller, who holds `payload` and has just
    /// received `poll` from the future.
    ///
    /// A value or an error completes the task, and the payload is dropped.
    /// "Not ready" offers the payload for parking: it stays in the lock, or
    /// comes back for an immediate second poll where a notification arrived
    /// during the first.
    pub fn settle<T, E>(&mut self, poll: &Poll<T, E>, payload: D) -> (next: Next<D>)
        requires
            old(self)@.in_poll(),
        ensures
            final(self)@ == old(self)@.settled(poll.settled(), payload),
            next == old(self)@.next_turn(poll.settled(), payload),
    {
        if poll.is_settled() {
            self.complete();
            Next::Finished
        } else {
            match self.wait(payload) {
                Ok(()) => Next::Parked,
                Err(payload) => Next::Repoll(payload),
            }
        }
    }
}

} // verus!
