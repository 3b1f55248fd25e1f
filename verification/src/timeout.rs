use vstd::prelude::*;

use crate::error::FromDeadlineExceeded;
use crate::poll::FuturePoll;
use crate::timer::DeadlineTimer;

verus! {

/// Single-timeout adapter: races one wrapped computation against one
/// deadline timer and resolves with whichever is ready first, the real
/// result taking priority. `done` records that a terminal outcome has
/// been yielded; a terminal adapter is never polled again.
#[derive(Clone, Copy, Debug, PartialEq, Eq, Structural)]
pub struct Timeout {
    pub timer: DeadlineTimer,
    pub done: bool,
}

/// One poll step of the single-timeout adapter as a transition: from
/// the adapter state, the clock, and what polling the wrapped
/// computation observed, to the next state and the outcome the caller
/// sees. The wrapped computation is consulted first: a real result
/// always wins, even when the timer has also fired; only a pending
/// computation lets the timer decide.
pub open spec fn timeout_step<T, E: FromDeadlineExceeded>(
    pre: Timeout,
    now: u64,
    inner: FuturePoll<T, E>,
) -> (Timeout, FuturePoll<T, E>) {
    match inner {
        FuturePoll::Ready(res) => (
            (Timeout { done: true, ..pre }),
            FuturePoll::Ready(res),
        ),
        FuturePoll::Pending => if now >= pre.timer.deadline {
            (
                (Timeout { done: true, ..pre }),
                FuturePoll::Ready(Err(E::deadline_exceeded_spec())),
            )
        } else {
            (pre, FuturePoll::Pending)
        },
    }
}

/// The outcomes an adapter yields over a whole schedule of polls: from
/// a state and a sequence of (clock, observation) events, the sequence
/// of outcomes up to and including the first terminal one. Polling
/// stops there: a terminal adapter is never polled again.
pub open spec fn timeout_run<T, E: FromDeadlineExceeded>(
    pre: Timeout,
    events: Seq<(u64, FuturePoll<T, E>)>,
) -> Seq<FuturePoll<T, E>>
    decreases events.len(),
{
    if events.len() == 0 || pre.done {
        Seq::empty()
    } else {
        let (post, out) = timeout_step(pre, events[0].0, events[0].1);
        seq![out] + timeout_run(post, events.drop_first())
    }
}

/// A computation that resolves is propagated unchanged and is never
/// reported as a timeout, whatever the clock says — in particular when
/// the deadline has passed in the very poll that observed the result.
/// The adapter is terminal afterwards.
pub proof fn lemma_resolution_wins<T, E: FromDeadlineExceeded>(
    pre: Timeout,
    now: u64,
    res: Result<T, E>,
)
    ensures
        timeout_step(pre, now, FuturePoll::Ready(res)).1 == FuturePoll::<T, E>::Ready(res),
        timeout_step(pre, now, FuturePoll::Ready(res)).0.done,
{
}

/// A computation that never resolves times out exactly once. Over any
/// schedule of polls that all observe a pending computation, the
/// adapter yields pending at every poll made before the deadline; the
/// first poll made at or after the deadline yields the
/// deadline-exceeded error, and it is the last poll of the run — the
/// adapter is terminal and no further poll can produce another
/// outcome.
pub proof fn lemma_unresolved_times_out_once<T, E: FromDeadlineExceeded>(
    pre: Timeout,
    events: Seq<(u64, FuturePoll<T, E>)>,
)
    requires
        !pre.done,
        forall|i: int| 0 <= i < events.len() ==> (#[trigger] events[i]).1 is Pending,
    ensures
        timeout_run(pre, events).len() <= events.len(),
        forall|i: int| 0 <= i < timeout_run(pre, events).len()
            ==> #[trigger] timeout_run(pre, events)[i] == (if events[i].0
                >= pre.timer.deadline {
                FuturePoll::<T, E>::Ready(Err(E::deadline_exceeded_spec()))
            } else {
                FuturePoll::<T, E>::Pending
            }),
        timeout_run(pre, events).len() == events.len() || events[timeout_run(
            pre,
            events,
        ).len() - 1].0 >= pre.timer.deadline,
        forall|j: int| 0 <= j < timeout_run(pre, events).len() - 1
            ==> (#[trigger] events[j]).0 < pre.timer.deadline,
    decreases events.len(),
{
    if events.len() == 0 {
    } else if events[0].0 >= pre.timer.deadline {
        let (post, out) = timeout_step(pre, events[0].0, events[0].1);
        assert(post.done);
        assert(timeout_run(post, events.drop_first()) =~= Seq::<FuturePoll<T, E>>::empty());
        assert(timeout_run(pre, events) =~= seq![out]);
    } else {
        let (post, out) = timeout_step(pre, events[0].0, events[0].1);
        assert(post == pre);
        lemma_unresolved_times_out_once::<T, E>(pre, events.drop_first());
        assert forall|i: int| 0 <= i < timeout_run(pre, events).len() implies #[trigger] timeout_run(
            pre,
            events,
        )[i] == (if events[i].0 >= pre.timer.deadline {
            FuturePoll::<T, E>::Ready(Err(E::deadline_exceeded_spec()))
        } else {
            FuturePoll::<T, E>::Pending
        }) by {
            if i > 0 {
                assert(timeout_run(pre, events)[i] == timeout_run(pre, events.drop_first())[i - 1]);
                assert(events.drop_first()[i - 1] == events[i]);
            }
        }
        assert forall|j: int| 0 <= j < timeout_run(pre, events).len() - 1 implies (
        #[trigger] events[j]).0 < pre.timer.deadline by {
            if j > 0 {
                assert(events.drop_first()[j - 1] == events[j]);
            }
        }
    }
}

impl Timeout {
    /// Create an adapter whose computation must resolve within `dur`
    /// ticks of `now`, the moment of this call.
    pub fn timeout(now: u64, dur: u64) -> (r: Timeout)
        requires
            now + dur <= u64::MAX,
        ensures
            r.timer.deadline == now + dur,
            !r.done,
    {
        Timeout { timer: DeadlineTimer::new(now, dur), done: false }
    }

    /// Create an adapter whose computation must resolve no later than
    /// the absolute instant `at`.
    pub fn timeout_at(at: u64) -> (r: Timeout)
        ensures
            r.timer.deadline == at,
            !r.done,
    {
        Timeout { timer: DeadlineTimer::new_at(at), done: false }
    }

    /// One poll of the adapter. `inner` is what polling the wrapped
    /// computation just observed; `now` is the clock at this poll. A
    /// resolved computation is propagated unchanged and ends the
    /// adapter without consulting the timer; a pending one ends the
    /// adapter with the deadline-exceeded error exactly when the timer
    /// has fired, and otherwise leaves everything unchanged.
    pub fn poll<T, E: FromDeadlineExceeded>(
        &mut self,
        now: u64,
        inner: FuturePoll<T, E>,
    ) -> (r: FuturePoll<T, E>)
        requires
            !old(self).done,
        ensures
            (*final(self), r) == timeout_step(*old(self), now, inner),
            inner is Ready ==> r == inner && final(self).done,
            inner is Pending && now >= old(self).timer.deadline ==> r == (
                FuturePoll::<T, E>::Ready(Err(E::deadline_exceeded_spec()))
            ) && final(self).done,
            inner is Pending && now < old(self).timer.deadline ==> r is Pending
                && *final(self) == *old(self),
            final(self).timer == old(self).timer,
    {
        match inner {
            FuturePoll::Ready(res) => {
                self.done = true;
                FuturePoll::Ready(res)
            },
            FuturePoll::Pending => {
                if self.timer.poll(now) {
                    self.done = true;
                    FuturePoll::Ready(Err(E::from_deadline_exceeded()))
                } else {
                    FuturePoll::Pending
                }
            },
        }
    }
}

} // verus!
