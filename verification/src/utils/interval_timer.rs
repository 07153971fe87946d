//! A restartable periodic boundary in time.

use vstd::arithmetic::div_mod::{lemma_basic_div, lemma_div_plus_one};
use vstd::prelude::*;

verus! {

/// Whether a boundary at `deadline` has passed at the time `now`.
pub open spec fn is_due(deadline: int, now: int) -> bool {
    now >= deadline
}

/// The number of boundaries that a timer with the given deadline and period
/// reports to `polls` polls, the first made at the time `first` and each
/// further one `tick` later.
pub open spec fn pulses(deadline: int, period: int, first: int, tick: int, polls: nat) -> nat
    decreases polls,
{
    if polls == 0 {
        0
    } else if is_due(deadline, first) {
        1 + pulses(deadline + period, period, first + tick, tick, (polls - 1) as nat)
    } else {
        pulses(deadline, period, first + tick, tick, (polls - 1) as nat)
    }
}

/// A repeating boundary in time: one boundary every `period`, the next one at
/// `deadline`. The clock is the caller's: every operation is handed the
/// current time.
#[derive(Clone, Copy, Debug)]
pub struct IntervalTimer {
    period: u64,
    opened: u64,
}

impl IntervalTimer {
    /// The time between two boundaries.
    pub closed spec fn spec_period(&self) -> u64 {
        self.period
    }

    /// The time of the next boundary.
    pub closed spec fn deadline(&self) -> int {
        self.opened + self.period
    }

    /// A timer whose first boundary lies one `period` after `now`.
    pub fn new(period: u64, now: u64) -> (timer: Self)
        ensures
            timer.period() == period,
            timer.deadline() == now + period,
    {
        IntervalTimer { period, opened: now }
    }

    #[verifier::when_used_as_spec(spec_period)]
    pub fn period(&self) -> (period: u64)
        ensures
            period == self.spec_period(),
    {
        self.period
    }

    /// Restarts the timer at `now` with the period `period`: whatever phase it
    /// had is forgotten.
    pub fn reset(&mut self, period: u64, now: u64)
        ensures
            final(self).period() == period,
            final(self).deadline() == now + period,
    {
        self.period = period;
        self.opened = now;
    }

    /// Tells whether the boundary has passed at `now`. A boundary is reported
    /// once: the report moves the deadline one period on. A poll that reports
    /// nothing changes nothing.
    pub fn elapsed(&mut self, now: u64) -> (due: bool)
        ensures
            due == is_due(old(self).deadline(), now as int),
            final(self).period() == old(self).period(),
            final(self).deadline() == if due {
                old(self).deadline() + old(self).period()
            } else {
                old(self).deadline()
            },
    {
        if now >= self.opened && now - self.opened >= self.period {
            self.opened = self.opened + self.period;
            true
        } else {
            false
        }
    }
}

/// A timer restarted at `now` is closed: it reports nothing before a whole
/// period has gone by, and it reports at the first poll after that.
pub proof fn lemma_restart_is_closed(now: int, period: int, later: int)
    requires
        period > 0,
    ensures
        !is_due(now + period, now),
        later < now + period ==> !is_due(now + period, later),
        later >= now + period ==> is_due(now + period, later),
{
}

/// The count of boundaries reported to polls every `tick`, for a timer whose
/// deadline lies after the time one tick before the first poll and at most a
/// period after it.
proof fn lemma_pulses_in_phase(deadline: int, period: int, first: int, tick: int, polls: nat)
    requires
        0 < tick <= period,
        first - tick < deadline <= first - tick + period,
    ensures
        pulses(deadline, period, first, tick, polls) == (first + (polls - 1) * tick - deadline
            + period) / period,
    decreases polls,
{
    if polls == 0 {
        assert((polls - 1) * tick == -tick) by (nonlinear_arith)
            requires
                polls == 0,
        ;
        lemma_basic_div(first - tick - deadline + period, period);
    } else {
        let rest = (polls - 1) as nat;
        assert((polls - 1) * tick == (rest - 1) * tick + tick) by (nonlinear_arith)
            requires
                rest == polls - 1,
        ;
        if is_due(deadline, first) {
            lemma_pulses_in_phase(deadline + period, period, first + tick, tick, rest);
            lemma_div_plus_one(first + (polls - 1) * tick - deadline, period);
        } else {
            lemma_pulses_in_phase(deadline, period, first + tick, tick, rest);
        }
    }
}

/// The duty of a timer polled at a fixed cadence: restarted at `now` with the
/// period `period` and then polled `polls` times, once every `tick`, it
/// reports `polls * tick / period` boundaries, provided that a tick is no
/// longer than a period.
pub proof fn lemma_duty(now: int, period: int, tick: int, polls: nat)
    requires
        0 < tick <= period,
    ensures
        pulses(now + period, period, now + tick, tick, polls) == (polls * tick) / period,
{
    lemma_pulses_in_phase(now + period, period, now + tick, tick, polls);
    assert(now + tick + (polls - 1) * tick - (now + period) + period == polls * tick)
        by (nonlinear_arith);
}

} // verus!
