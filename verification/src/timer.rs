use vstd::prelude::*;

verus! {

/// Model of the deadline-timer primitive the adapters own: a timer armed
/// for an absolute instant, measured in ticks of an external clock. It
/// is `armed-pending` while the clock has not reached the deadline and
/// `armed-fired` once it has; `reset` rearms it for a fresh window.
#[derive(Clone, Copy, Debug, PartialEq, Eq, Structural)]
pub struct DeadlineTimer {
    pub deadline: u64,
}

impl DeadlineTimer {
    /// Arm a timer that fires `dur` ticks after `now`.
    pub fn new(now: u64, dur: u64) -> (r: DeadlineTimer)
        requires
            now + dur <= u64::MAX,
        ensures
            r.deadline == now + dur,
    {
        DeadlineTimer { deadline: now + dur }
    }

    /// Arm a timer that fires at the absolute instant `at`.
    pub fn new_at(at: u64) -> (r: DeadlineTimer)
        ensures
            r.deadline == at,
    {
        DeadlineTimer { deadline: at }
    }

    /// Report whether the deadline has passed: fired exactly when the
    /// clock has reached it.
    pub fn poll(&self, now: u64) -> (fired: bool)
        ensures
            fired == (now >= self.deadline),
    {
        now >= self.deadline
    }

    /// Rearm the timer for a fresh window of `dur` ticks from `now`.
    pub fn reset(&mut self, now: u64, dur: u64)
        requires
            now + dur <= u64::MAX,
        ensures
            final(self).deadline == now + dur,
    {
        self.deadline = now + dur;
    }
}

} // verus!
