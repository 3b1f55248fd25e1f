//! Deadline semantics for poll-based asynchronous producers.
//!
//! Two adapter state machines give a bounded wait to an asynchronous
//! producer: [`Timeout`] races a single-value computation against a
//! deadline timer, and [`TimeoutStream`] bounds every item of a
//! multi-value sequence individually, rearming the timer after each
//! item. Both are driven from outside: a scheduler polls the wrapped
//! producer and hands the observed outcome, together with the current
//! time, to the adapter, which decides what the caller sees.

mod error;
mod poll;
mod stream;
mod timeout;
mod timer;

pub use error::FromDeadlineExceeded;
pub use error::TimeoutError;
pub use poll::FuturePoll;
pub use poll::StreamPoll;
pub use stream::TimeoutStream;
pub use timeout::Timeout;
pub use timer::DeadlineTimer;
