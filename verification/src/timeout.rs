//! The timeout layer's decision: at each wake-up, whether the call is
//! settled, and how.

use crate::time::TimeSpan;
use vstd::prelude::*;

verus! {

/// The error of a call under a deadline: the deadline passed, or the
/// wrapped service failed. The two stay apart, so that a caller can tell a
/// slow service from a broken one.
#[derive(Debug, PartialEq, Eq)]
pub enum TimeoutError<E> {
    /// The deadline passed before the wrapped call resolved.
    Elapsed,
    /// The wrapped call resolved in time, with this error.
    Inner(E),
}

/// What a call under a deadline has come to.
#[derive(Debug, PartialEq, Eq)]
pub enum Settled<T, E> {
    /// Neither resolved nor overdue. The caller waits on.
    Pending,
    /// Over, with this result. On `Elapsed` the wrapped call is abandoned.
    Done(Result<T, TimeoutError<E>>),
}

/// What a call has come to once `elapsed` nanoseconds have gone by, where
/// `inner` is what the wrapped call has resolved to, if it has. The wrapped
/// call is looked at first, so a result that is there is never lost to the
/// deadline.
pub open spec fn settled<T, E>(deadline: nat, inner: Option<Result<T, E>>, elapsed: nat) -> Settled<
    T,
    E,
> {
    match inner {
        Some(Ok(response)) => Settled::Done(Ok(response)),
        Some(Err(e)) => Settled::Done(Err(TimeoutError::Inner(e))),
        None => if elapsed >= deadline {
            Settled::Done(Err(TimeoutError::Elapsed))
        } else {
            Settled::Pending
        },
    }
}

/// Puts a deadline on the calls of the service that it wraps.
#[derive(Clone, Copy, Debug)]
pub struct TimeoutLayer {
    deadline: TimeSpan,
}

impl TimeoutLayer {
    /// The span after which a call that has not resolved fails.
    pub closed spec fn limit(&self) -> TimeSpan {
        self.deadline
    }

    pub fn new(deadline: TimeSpan) -> (layer: TimeoutLayer)
        ensures
            layer.limit() == deadline,
    {
        TimeoutLayer { deadline }
    }

    pub fn deadline(&self) -> (deadline: TimeSpan)
        ensures
            deadline == self.limit(),
    {
        self.deadline
    }

    /// Decides a wake-up: `inner` is what the wrapped call has resolved to,
    /// if it has, and `elapsed` the time since the call was issued.
    pub fn settle<T, E>(&self, inner: Option<Result<T, E>>, elapsed: &TimeSpan) -> (outcome: Settled<
        T,
        E,
    >)
        ensures
            outcome == settled(self.limit().as_nanos(), inner, elapsed.as_nanos()),
    {
        match inner {
            Some(Ok(response)) => Settled::Done(Ok(response)),
            Some(Err(e)) => Settled::Done(Err(TimeoutError::Inner(e))),
            None => if elapsed.at_least(&self.deadline) {
                Settled::Done(Err(TimeoutError::Elapsed))
            } else {
                Settled::Pending
            },
        }
    }
}

/// A call that has not resolved is pending exactly until the deadline, and
/// from the deadline on it is over with the timeout error, however long the
/// wrapped call would still take.
pub proof fn lemma_deadline_is_kept<T, E>(deadline: nat, elapsed: nat)
    ensures
        elapsed < deadline ==> settled::<T, E>(deadline, None, elapsed) == Settled::<T, E>::Pending,
        elapsed >= deadline ==> settled::<T, E>(deadline, None, elapsed) == Settled::<T, E>::Done(
            Err(TimeoutError::Elapsed),
        ),
{
}

/// A call that has resolved keeps its result whatever the clock says: the
/// response as it is, the error as the wrapped service gave it and marked as
/// the wrapped service's.
pub proof fn lemma_result_is_kept<T, E>(deadline: nat, result: Result<T, E>, elapsed: nat)
    ensures
        settled(deadline, Some(result), elapsed) == match result {
            Ok(response) => Settled::<T, E>::Done(Ok(response)),
            Err(e) => Settled::<T, E>::Done(Err(TimeoutError::Inner(e))),
        },
        settled(deadline, Some(result), elapsed) != Settled::<T, E>::Done(
            Err(TimeoutError::Elapsed),
        ),
{
}

} // verus!
