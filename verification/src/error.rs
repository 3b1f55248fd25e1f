use vstd::prelude::*;

verus! {

/// The conversion capability required of a wrapped producer's error
/// type: it must be constructible from a "deadline exceeded" condition,
/// so the adapters can inject a timeout failure into the caller's own
/// error channel without a separate one.
pub trait FromDeadlineExceeded: Sized {
    /// The value of this type that stands for a deadline-exceeded
    /// failure.
    spec fn deadline_exceeded_spec() -> Self;

    /// Build the deadline-exceeded value of this error type.
    fn from_deadline_exceeded() -> (r: Self)
        ensures
            r == Self::deadline_exceeded_spec(),
    ;
}

/// A ready-made tagged error for callers without a richer error
/// channel: either the deadline-exceeded condition injected by an
/// adapter, or a domain error of the wrapped producer.
#[derive(Debug, PartialEq, Eq)]
pub enum TimeoutError<E> {
    /// The adapter's deadline elapsed before the producer was ready.
    DeadlineExceeded,
    /// A domain error of the wrapped producer, passed through unchanged.
    Inner(E),
}

impl<E> FromDeadlineExceeded for TimeoutError<E> {
    open spec fn deadline_exceeded_spec() -> Self {
        TimeoutError::DeadlineExceeded
    }

    fn from_deadline_exceeded() -> (r: Self) {
        TimeoutError::DeadlineExceeded
    }
}

} // verus!
