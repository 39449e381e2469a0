//! Tasks that drive lazily polled computations to completion.
//!
//! A future makes progress only when it is polled. A task binds one future
//! to an identifier and to storage of its own ([`spawn`], [`Spawn`]),
//! installs a context round each poll so that the future can obtain a handle
//! to wake itself ([`Ambient`], [`park`]), and is polled again whenever such
//! a handle is notified ([`Task`]). What synchronises polling with
//! notification is the [`UnparkMutex`]; what it guarantees to a task that an
//! executor runs is proved in [`protocol`].
//!
//! Nothing here is tied to a thread or to the process. The context of a
//! thread and the counter of identifiers are values that the caller keeps
//! and passes in, and each operation of the lock is one transition that the
//! caller makes under whatever exclusion it has.

pub mod ambient;
pub mod events;
pub mod ids;
pub mod local;
pub mod poll;
pub mod protocol;
mod shared;
pub mod spawn;
pub mod task;
pub mod unpark_mutex;

pub use ambient::{park, with, with_unpark_event, Ambient, Frame};
pub use events::{EventSet, Events, UnparkEvent};
pub use ids::{fresh_task_id, TaskIds};
pub use local::{Local, LocalMap, Opaque};
pub use poll::{Future, Poll, Stream};
pub use spawn::{spawn, Spawn};
pub use task::{Task, Unpark};
pub use unpark_mutex::{Next, State, Status, UnparkMutex};
