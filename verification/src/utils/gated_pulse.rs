//! A pulse train that a gating condition switches on and off.

use crate::utils::interval_timer::{is_due, lemma_duty, pulses, IntervalTimer};
use vstd::arithmetic::div_mod::lemma_div_by_multiple;
use vstd::prelude::*;

verus! {

/// Where a pulse train stands.
pub enum TrainPhase {
    /// No tick has run yet, so there is no deadline.
    Fresh,
    /// The last tick found the gating condition not to hold and restarted the
    /// train: the next boundary is at `deadline`.
    Armed { deadline: int },
    /// The last tick found the gating condition to hold: the next boundary is
    /// at `deadline`.
    Running { deadline: int },
}

/// The pulse train as the contracts see it: the length of a window and
/// where the train stands.
pub struct PulseTrain {
    pub window: int,
    pub phase: TrainPhase,
}

impl PulseTrain {
    /// A pulse train on which no tick has run.
    pub open spec fn fresh(window: int) -> PulseTrain {
        PulseTrain { window, phase: TrainPhase::Fresh }
    }

    /// The pulse train restarted at `now` by a tick on which the gating
    /// condition does not hold: its next boundary is a whole window away.
    pub open spec fn armed(self, now: int) -> PulseTrain {
        PulseTrain { window: self.window, phase: TrainPhase::Armed { deadline: now + self.window } }
    }

    /// The pulse train restarted at `now` by a tick on which the gating
    /// condition begins to hold: its next boundary is a whole window away.
    pub open spec fn started(self, now: int) -> PulseTrain {
        PulseTrain {
            window: self.window,
            phase: TrainPhase::Running { deadline: now + self.window },
        }
    }

    /// Whether the pulse train holds a deadline, and that deadline is `time`
    /// or later.
    pub open spec fn closed_until(self, time: int) -> bool {
        match self.phase {
            TrainPhase::Fresh => false,
            TrainPhase::Armed { deadline } => deadline >= time,
            TrainPhase::Running { deadline } => deadline >= time,
        }
    }

    /// The level that the pulse train commands on a tick at `now`: high
    /// exactly if the gating condition holds, held on the tick before as
    /// well, and a boundary has passed.
    pub open spec fn level(self, active: bool, now: int) -> bool {
        active && (self.phase matches TrainPhase::Running { deadline } && is_due(deadline, now))
    }

    /// The pulse train after a tick at `now`.
    ///
    /// While the gating condition does not hold, every tick restarts it.
    /// The tick on which the condition begins to hold takes over the deadline
    /// that the last restart left, unless there is none or it has passed:
    /// then this tick restarts the train. While the condition goes on
    /// holding, a boundary that has passed moves the deadline one window on.
    pub open spec fn step(self, active: bool, now: int) -> PulseTrain {
        if !active {
            self.armed(now)
        } else {
            match self.phase {
                TrainPhase::Fresh => self.started(now),
                TrainPhase::Armed { deadline } => if is_due(deadline, now) {
                    self.started(now)
                } else {
                    PulseTrain { window: self.window, phase: TrainPhase::Running { deadline } }
                },
                TrainPhase::Running { deadline } => PulseTrain {
                    window: self.window,
                    phase: TrainPhase::Running {
                        deadline: if is_due(deadline, now) {
                            deadline + self.window
                        } else {
                            deadline
                        },
                    },
                },
            }
        }
    }

    /// The number of ticks on which the pulse train commands the high level,
    /// out of `ticks` ticks on all of which the gating condition holds, the
    /// first at the time `first` and each further one `tick` later.
    pub open spec fn high_ticks(self, first: int, tick: int, ticks: nat) -> nat
        decreases ticks,
    {
        if ticks == 0 {
            0
        } else {
            (if self.level(true, first) {
                1nat
            } else {
                0nat
            }) + self.step(true, first).high_ticks(first + tick, tick, (ticks - 1) as nat)
        }
    }
}

/// What the last tick of a gated pulse found.
#[derive(Clone, Copy, Debug)]
enum Stage {
    Fresh,
    Armed,
    Running,
}

/// Drives an actuator with a fixed-duty pulse train while a gating condition
/// holds, and holds it low while the condition does not hold. Every
/// activation starts at the low level.
#[derive(Clone, Copy, Debug)]
pub struct GatedPulse {
    timer: IntervalTimer,
    stage: Stage,
}

impl View for GatedPulse {
    type V = PulseTrain;

    closed spec fn view(&self) -> PulseTrain {
        PulseTrain {
            window: self.timer.period() as int,
            phase: match self.stage {
                Stage::Fresh => TrainPhase::Fresh,
                Stage::Armed => TrainPhase::Armed { deadline: self.timer.deadline() },
                Stage::Running => TrainPhase::Running { deadline: self.timer.deadline() },
            },
        }
    }
}

impl GatedPulse {
    /// A pulse train with the given window on which no tick has run. It
    /// takes its first deadline from its first tick, not from the time at
    /// which it was made.
    pub fn new(window: u64) -> (train: Self)
        ensures
            train@ == PulseTrain::fresh(window as int),
    {
        GatedPulse { timer: IntervalTimer::new(window, 0), stage: Stage::Fresh }
    }

    /// The length of a window.
    pub fn window(&self) -> (window: u64)
        ensures
            window == self@.window,
    {
        self.timer.period()
    }

    /// Whether the gating condition held on the last tick.
    pub fn is_running(&self) -> (running: bool)
        ensures
            running == (self@.phase is Running),
    {
        match self.stage {
            Stage::Running => true,
            _ => false,
        }
    }

    /// Runs one tick at `now` and returns the level to command.
    ///
    /// While `active` does not hold the level is low and the pulse train is
    /// restarted. The tick on which `active` begins to hold is low as well,
    /// and it restarts the pulse train where no restart is on record or the
    /// window of the last one has gone by. On the further ticks on which
    /// `active` holds the level is high where a window boundary has passed.
    pub fn pulse(&mut self, active: bool, now: u64) -> (level: bool)
        ensures
            level == old(self)@.level(active, now as int),
            final(self)@ == old(self)@.step(active, now as int),
    {
        let window: u64 = self.timer.period();
        if !active {
            self.timer.reset(window, now);
            self.stage = Stage::Armed;
            return false;
        }
        match self.stage {
            Stage::Running => self.timer.elapsed(now),
            Stage::Armed => {
                let stale: bool = self.timer.elapsed(now);
                if stale {
                    self.timer.reset(window, now);
                }
                self.stage = Stage::Running;
                false
            },
            Stage::Fresh => {
                self.timer.reset(window, now);
                self.stage = Stage::Running;
                false
            },
        }
    }
}

/// Every activation starts at the low level: a tick on which the gating
/// condition holds, while it did not hold on the tick before or there was no
/// tick before, commands the low level whatever the time is. It leaves a
/// deadline behind that is a whole window away, or the one of the last
/// restart where that has not passed yet.
pub proof fn lemma_activation_starts_low(train: PulseTrain, now: int)
    requires
        !(train.phase is Running),
    ensures
        !train.level(true, now),
        train.step(true, now).phase is Running,
        train.step(true, now) == train.started(now) || (train.phase matches TrainPhase::Armed {
            deadline,
        } && now < deadline && train.step(true, now).phase == (TrainPhase::Running { deadline })),
{
}

/// A tick on which the gating condition does not hold commands the low level
/// and restarts the pulse train, whatever went before.
pub proof fn lemma_inactive_tick_restarts(train: PulseTrain, now: int)
    ensures
        !train.level(false, now),
        train.step(false, now) == train.armed(now),
        train.armed(now).closed_until(now + train.window),
        train.started(now).closed_until(now + train.window),
{
}

/// No high level comes earlier than one window after the tick that last
/// restarted the pulse train. Once a restart at `restart` has left its
/// deadline, every tick at that time or later keeps a deadline of at least
/// `restart + window`, and commands the high level only from that time on.
pub proof fn lemma_window_is_kept(train: PulseTrain, restart: int, active: bool, now: int)
    requires
        train.window >= 0,
        train.closed_until(restart + train.window),
        now >= restart,
    ensures
        train.level(active, now) ==> now >= restart + train.window,
        train.step(active, now).closed_until(restart + train.window),
{
}

/// While the gating condition goes on holding, the pulse train reports the
/// boundaries of its timer, one per tick at most.
pub proof fn lemma_train_follows_timer(train: PulseTrain, first: int, tick: int, ticks: nat)
    requires
        train.phase is Running,
    ensures
        train.high_ticks(first, tick, ticks) == pulses(
            train.phase->Running_deadline,
            train.window,
            first,
            tick,
            ticks,
        ),
    decreases ticks,
{
    if ticks > 0 {
        lemma_train_follows_timer(train.step(true, first), first + tick, tick, (ticks - 1) as nat);
    }
}

/// The duty of the pulse train. Restarted at `now` by a tick on which the
/// gating condition does not hold, and then run for `ticks` ticks on which it
/// holds, one every `tick`, the pulse train commands the high level on
/// `ticks * tick / window` of them, provided that a tick is shorter than a
/// window.
pub proof fn lemma_train_duty(train: PulseTrain, now: int, tick: int, ticks: nat)
    requires
        0 < tick < train.window,
    ensures
        train.armed(now).high_ticks(now + tick, tick, ticks) == (ticks * tick) / train.window,
{
    let armed = train.armed(now);
    let deadline = now + train.window;
    lemma_duty(now, train.window, tick, ticks);
    if ticks > 0 {
        let running = armed.step(true, now + tick);
        assert(running.phase == (TrainPhase::Running { deadline }));
        lemma_train_follows_timer(running, now + tick + tick, tick, (ticks - 1) as nat);
    }
}

/// Where a tick is as long as a window, the tick of the activation finds the
/// window of the last restart gone by and restarts the pulse train itself:
/// of `ticks` ticks all but the first command the high level.
pub proof fn lemma_train_duty_at_full_window(train: PulseTrain, now: int, ticks: nat)
    requires
        0 < train.window,
        ticks > 0,
    ensures
        train.armed(now).high_ticks(now + train.window, train.window, ticks) == ticks - 1,
{
    let window = train.window;
    let running = train.armed(now).step(true, now + window);
    assert(running.phase == (TrainPhase::Running { deadline: now + window + window }));
    lemma_train_follows_timer(running, now + window + window, window, (ticks - 1) as nat);
    lemma_duty(now + window, window, window, (ticks - 1) as nat);
    lemma_div_by_multiple(ticks - 1, window);
}

} // verus!
