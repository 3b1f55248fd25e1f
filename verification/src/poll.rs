use vstd::prelude::*;

verus! {

/// What one poll of a wrapped single-value computation observed: its
/// final result, or not-yet-ready.
#[derive(Debug, PartialEq, Eq)]
pub enum FuturePoll<T, E> {
    /// The computation resolved with its final result, success or
    /// domain error.
    Ready(Result<T, E>),
    /// The computation has not resolved yet.
    Pending,
}

/// What one poll of a wrapped multi-value sequence observed for its
/// next item: a value, the end marker, a domain error, or
/// not-yet-ready.
#[derive(Debug, PartialEq, Eq)]
pub enum StreamPoll<T, E> {
    /// The sequence yielded its next value.
    Item(T),
    /// The sequence ended.
    End,
    /// The sequence failed the current item with a domain error.
    Error(E),
    /// The next item has not arrived yet.
    Pending,
}

} // verus!
