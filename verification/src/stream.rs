use vstd::prelude::*;

use crate::error::FromDeadlineExceeded;
use crate::poll::StreamPoll;
use crate::timer::DeadlineTimer;

verus! {

/// Per-item-timeout adapter: bounds every item of a wrapped sequence
/// individually. The timer is rearmed for the same fixed duration
/// every time an item is produced — a value, a domain error, the end
/// marker, or an injected timeout — so each item gets a fresh window
/// counted from the moment the previous one was observed. A timeout
/// never ends the sequence; only the end marker does.
#[derive(Clone, Copy, Debug, PartialEq, Eq, Structural)]
pub struct TimeoutStream {
    pub timer: DeadlineTimer,
    pub dur: u64,
    pub done: bool,
}

/// The adapter state after an item has been produced at `now`: the
/// timer is rearmed for the configured duration, counted from `now`.
pub open spec fn rearmed(pre: TimeoutStream, now: u64) -> TimeoutStream {
    TimeoutStream { timer: DeadlineTimer { deadline: (now + pre.dur) as u64 }, ..pre }
}

/// One poll step of the per-item adapter as a transition: from the
/// adapter state, the clock, and what polling the wrapped sequence
/// observed, to the next state and the item outcome the caller sees.
/// The sequence is consulted first: a real item, domain error or end
/// marker always wins, even when the timer has also fired, and rearms
/// the timer. Only a pending sequence lets the timer decide: if it has
/// fired, a deadline-exceeded error is yielded as the current item and
/// the timer is rearmed at once, leaving the sequence open.
pub open spec fn stream_step<T, E: FromDeadlineExceeded>(
    pre: TimeoutStream,
    now: u64,
    inner: StreamPoll<T, E>,
) -> (TimeoutStream, StreamPoll<T, E>) {
    match inner {
        StreamPoll::Item(v) => (rearmed(pre, now), StreamPoll::Item(v)),
        StreamPoll::End => (
            (TimeoutStream { done: true, ..rearmed(pre, now) }),
            StreamPoll::End,
        ),
        StreamPoll::Error(e) => (rearmed(pre, now), StreamPoll::Error(e)),
        StreamPoll::Pending => if now >= pre.timer.deadline {
            (rearmed(pre, now), StreamPoll::Error(E::deadline_exceeded_spec()))
        } else {
            (pre, StreamPoll::Pending)
        },
    }
}

/// The outcomes an adapter yields over a whole schedule of polls: from
/// a state and a sequence of (clock, observation) events, the sequence
/// of item outcomes up to and including the end marker. Polling stops
/// there: an ended sequence is not polled again.
pub open spec fn stream_run<T, E: FromDeadlineExceeded>(
    pre: TimeoutStream,
    events: Seq<(u64, StreamPoll<T, E>)>,
) -> Seq<StreamPoll<T, E>>
    decreases events.len(),
{
    if events.len() == 0 || pre.done {
        Seq::empty()
    } else {
        let (post, out) = stream_step(pre, events[0].0, events[0].1);
        seq![out] + stream_run(post, events.drop_first())
    }
}

/// Timeouts never end the sequence. Over any schedule of polls that
/// all find the wrapped sequence pending, the adapter answers every
/// poll — with pending or with a deadline-exceeded error for the
/// current item — and stays open, however many windows elapse.
pub proof fn lemma_pending_stream_never_closes<T, E: FromDeadlineExceeded>(
    pre: TimeoutStream,
    events: Seq<(u64, StreamPoll<T, E>)>,
)
    requires
        !pre.done,
        forall|i: int| 0 <= i < events.len() ==> (#[trigger] events[i]).1 is Pending,
    ensures
        stream_run(pre, events).len() == events.len(),
        forall|i: int| 0 <= i < events.len() ==> (#[trigger] stream_run(pre, events)[i])
            is Pending || stream_run(pre, events)[i] == (StreamPoll::<T, E>::Error(
            E::deadline_exceeded_spec(),
        )),
    decreases events.len(),
{
    if events.len() > 0 {
        let (post, out) = stream_step(pre, events[0].0, events[0].1);
        assert(!post.done);
        lemma_pending_stream_never_closes::<T, E>(post, events.drop_first());
        assert forall|i: int| 0 <= i < events.len() implies (#[trigger] stream_run(
            pre,
            events,
        )[i]) is Pending || stream_run(pre, events)[i] == (StreamPoll::<T, E>::Error(
            E::deadline_exceeded_spec(),
        )) by {
            if i > 0 {
                assert(stream_run(pre, events)[i] == stream_run(post, events.drop_first())[i - 1]);
            }
        }
    }
}

/// A genuine item wins over the timer: an item observed by a poll is
/// yielded unchanged, whatever the clock says — in particular when it
/// arrives in the very poll in which the deadline has also passed. The
/// item's window is rearmed from the moment of observation.
pub proof fn lemma_item_wins<T, E: FromDeadlineExceeded>(
    pre: TimeoutStream,
    now: u64,
    v: T,
)
    requires
        now + pre.dur <= u64::MAX,
    ensures
        stream_step(pre, now, StreamPoll::<T, E>::Item(v)).1 == StreamPoll::<T, E>::Item(v),
        stream_step(pre, now, StreamPoll::<T, E>::Item(v)).0.done == pre.done,
        stream_step(pre, now, StreamPoll::<T, E>::Item(v)).0.timer.deadline == now + pre.dur,
{
}

/// A pending item whose deadline has passed is failed with the
/// deadline-exceeded error, and the window for the next item starts
/// counting at the moment the error was yielded — not at the start of
/// the stream, and not at the previous deadline.
pub proof fn lemma_timeout_rearms_window<T, E: FromDeadlineExceeded>(
    pre: TimeoutStream,
    now: u64,
)
    requires
        now >= pre.timer.deadline,
        now + pre.dur <= u64::MAX,
    ensures
        stream_step::<T, E>(pre, now, StreamPoll::Pending).1 == (StreamPoll::<T, E>::Error(
            E::deadline_exceeded_spec(),
        )),
        stream_step::<T, E>(pre, now, StreamPoll::Pending).0.done == pre.done,
        stream_step::<T, E>(pre, now, StreamPoll::Pending).0.timer.deadline == now + pre.dur,
        stream_step::<T, E>(pre, now, StreamPoll::Pending).0.dur == pre.dur,
{
}

/// A timeout on one item leaves the sequence open. After the adapter
/// fails a pending item at `now1`, it is still live under a fresh
/// window of its fixed duration: a real item observed by a later poll
/// is yielded unchanged; a poll that still finds the sequence pending
/// yields pending before `now1 + dur` and a further independent
/// deadline-exceeded error from `now1 + dur` on.
pub proof fn lemma_stream_open_after_timeout<T, E: FromDeadlineExceeded>(
    pre: TimeoutStream,
    now1: u64,
    now2: u64,
    v: T,
)
    requires
        !pre.done,
        now1 >= pre.timer.deadline,
        now1 + pre.dur <= u64::MAX,
        now2 + pre.dur <= u64::MAX,
    ensures
        !stream_step::<T, E>(pre, now1, StreamPoll::Pending).0.done,
        stream_step(
            stream_step::<T, E>(pre, now1, StreamPoll::Pending).0,
            now2,
            StreamPoll::<T, E>::Item(v),
        ).1 == StreamPoll::<T, E>::Item(v),
        now2 < now1 + pre.dur ==> stream_step::<T, E>(
            stream_step::<T, E>(pre, now1, StreamPoll::Pending).0,
            now2,
            StreamPoll::Pending,
        ).1 is Pending,
        now2 >= now1 + pre.dur ==> stream_step::<T, E>(
            stream_step::<T, E>(pre, now1, StreamPoll::Pending).0,
            now2,
            StreamPoll::Pending,
        ).1 == (StreamPoll::<T, E>::Error(E::deadline_exceeded_spec())),
{
}

impl TimeoutStream {
    /// Create an adapter that gives each item of the wrapped sequence
    /// at most `dur` ticks, the first window counted from `now`, the
    /// moment of this call.
    pub fn timeout(now: u64, dur: u64) -> (r: TimeoutStream)
        requires
            now + dur <= u64::MAX,
        ensures
            r.timer.deadline == now + dur,
            r.dur == dur,
            !r.done,
    {
        TimeoutStream { timer: DeadlineTimer::new(now, dur), dur, done: false }
    }

    /// One poll of the adapter for the next item. `inner` is what
    /// polling the wrapped sequence just observed; `now` is the clock
    /// at this poll. Any produced item — value, domain error or end
    /// marker — is propagated unchanged and rearms the timer from
    /// `now`; only the end marker closes the adapter. While the
    /// sequence is pending, a fired timer yields one deadline-exceeded
    /// error as the current item and rearms from `now`, keeping the
    /// sequence open; an unfired one leaves everything unchanged.
    pub fn poll_next<T, E: FromDeadlineExceeded>(
        &mut self,
        now: u64,
        inner: StreamPoll<T, E>,
    ) -> (r: StreamPoll<T, E>)
        requires
            !old(self).done,
            now + old(self).dur <= u64::MAX,
        ensures
            (*final(self), r) == stream_step(*old(self), now, inner),
            final(self).dur == old(self).dur,
            inner !is Pending ==> r == inner
                && final(self).timer.deadline == now + old(self).dur,
            inner is Pending && now >= old(self).timer.deadline ==> r == (
                StreamPoll::<T, E>::Error(E::deadline_exceeded_spec())
            ) && final(self).timer.deadline == now + old(self).dur,
            inner is Pending && now < old(self).timer.deadline ==> r is Pending
                && *final(self) == *old(self),
            final(self).done <==> inner is End,
    {
        match inner {
            StreamPoll::Item(v) => {
                self.timer.reset(now, self.dur);
                StreamPoll::Item(v)
            },
            StreamPoll::End => {
                self.timer.reset(now, self.dur);
                self.done = true;
                StreamPoll::End
            },
            StreamPoll::Error(e) => {
                self.timer.reset(now, self.dur);
                StreamPoll::Error(e)
            },
            StreamPoll::Pending => {
                if self.timer.poll(now) {
                    self.timer.reset(now, self.dur);
                    StreamPoll::Error(E::from_deadline_exceeded())
                } else {
                    StreamPoll::Pending
                }
            },
        }
    }
}

} // verus!
