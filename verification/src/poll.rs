//! Futures and streams, and the outcome of one poll.

use vstd::prelude::*;
use crate::ambient::Ambient;

verus! {

/// A computation that yields one value, or fails, after any number of polls.
pub trait Future {
    /// The value that the future yields.
    type Item;

    /// The error with which it fails.
    type Error;

    /// Advances the computation by one step.
    ///
    /// A future that is not ready obtains a handle to its task from `cx`
    /// and sees to it that the handle is notified once progress is
    /// possible. It is polled only while its task is installed in `cx`.
    fn poll(&mut self, cx: &mut Ambient) -> Poll<Self::Item, Self::Error>
        requires
            old(cx).running(),
    ;
}

/// A computation that yields a sequence of values, ended by `None` or by an
/// error.
pub trait Stream {
    /// The values that the stream yields.
    type Item;

    /// The error with which it fails.
    type Error;

    /// Advances the computation by one step, towards the next item. See
    /// [`Future::poll`].
    fn poll(&mut self, cx: &mut Ambient) -> Poll<Option<Self::Item>, Self::Error>
        requires
            old(cx).running(),
    ;
}

impl<F: Future + ?Sized> Future for Box<F> {
    type Item = F::Item;

    type Error = F::Error;

    /// Polls the future in the box: result and effects are those of the future's own `poll`.
    fn poll(&mut self, cx: &mut Ambient) -> (poll: Poll<F::Item, F::Error>)
        ensures
            exists|future: &mut F, c: &mut Ambient|
                {
                    &&& &*future == &**old(self)
                    &&& &*final(future) == &**final(self)
                    &&& *c == *old(cx)
                    &&& *final(c) == *final(cx)
                    &&& #[trigger] F::poll.ensures((future, c), poll)
                },
    {
        let future: &mut F = &mut **self;
        future.poll(cx)
    }
}

impl<S: Stream + ?Sized> Stream for Box<S> {
    type Item = S::Item;

    type Error = S::Error;

    /// Polls the stream in the box: result and effects are those of the stream's own `poll`.
    fn poll(&mut self, cx: &mut Ambient) -> (poll: Poll<Option<S::Item>, S::Error>)
        ensures
            exists|stream: &mut S, c: &mut Ambient|
                {
                    &&& &*stream == &**old(self)
                    &&& &*final(stream) == &**final(self)
                    &&& *c == *old(cx)
                    &&& *final(c) == *final(cx)
                    &&& #[trigger] S::poll.ensures((stream, c), poll)
                },
    {
        let stream: &mut S = &mut **self;
        stream.poll(cx)
    }
}

/// What a single step of a future or stream yields.
pub enum Poll<T, E> {
    /// No value yet. Whoever is polled has arranged to be notified when
    /// progress becomes possible.
    NotReady,
    /// The final value, or a stream's next item.
    Ready(T),
    /// The computation failed.
    Failed(E),
}

impl<T, E> Poll<T, E> {
    /// Whether this is anything but `NotReady`.
    pub open spec fn settled(self) -> bool {
        !(self is NotReady)
    }

    /// Whether the poll produced a value or an error.
    pub fn is_settled(&self) -> (b: bool)
        ensures
            b == self.settled(),
    {
        match self {
            Poll::NotReady => false,
            _ => true,
        }
    }

    /// What a blocking wait on a future returns for this outcome: the value
    /// or the error, or `None` where the waiting thread has to park and poll
    /// again.
    pub fn into_result(self) -> (r: Option<Result<T, E>>)
        ensures
            r == match self {
                Poll::NotReady => None::<Result<T, E>>,
                Poll::Ready(value) => Some(Ok::<T, E>(value)),
                Poll::Failed(error) => Some(Err::<T, E>(error)),
            },
    {
        match self {
            Poll::NotReady => None,
            Poll::Ready(value) => Some(Ok(value)),
            Poll::Failed(error) => Some(Err(error)),
        }
    }
}

impl<T, E> Poll<Option<T>, E> {
    /// What a blocking wait on a stream returns for this outcome: the next
    /// item or the error, the inner `None` at the end of the stream, or the
    /// outer `None` where the waiting thread has to park and poll again.
    pub fn into_item(self) -> (r: Option<Option<Result<T, E>>>)
        ensures
            r == match self {
                Poll::NotReady => None::<Option<Result<T, E>>>,
                Poll::Ready(Some(item)) => Some(Some(Ok::<T, E>(item))),
                Poll::Ready(None) => Some(None::<Result<T, E>>),
                Poll::Failed(error) => Some(Some(Err::<T, E>(error))),
            },
    {
        match self {
            Poll::NotReady => None,
            Poll::Ready(Some(item)) => Some(Some(Ok(item))),
            Poll::Ready(None) => Some(None),
            Poll::Failed(error) => Some(Some(Err(error))),
        }
    }
}

} // verus!
