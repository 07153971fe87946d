//! Autonomous disc scoring: spin the flywheel up, then feed discs for as long
//! as the routine runs.

use crate::controller::FlywheelReading;
use crate::shooter_system::reaches;
use crate::utils::gated_pulse::{lemma_train_duty, GatedPulse, PulseTrain};
use vstd::prelude::*;

verus! {

/// The window of the indexer's pulse train while scoring, in microseconds.
pub const SCORING_INDEXER_DURATION: u64 = 300_000;

/// What one tick of scoring commands. `None` leaves an actuator as it was
/// commanded last.
#[derive(Clone, Copy, Debug, PartialEq, Eq)]
pub struct ScoreCommand {
    /// The flywheel voltage in millivolts.
    pub flywheel_voltage: Option<i64>,
    /// The level of the indexer piston, `true` for extended.
    pub indexer: Option<bool>,
}

/// The scoring routine as the contracts see it.
pub struct ScoreState {
    pub at_speed: bool,
    pub speed_target: int,
    pub train: PulseTrain,
}

/// The voltage commanded to the flywheel while scoring: zero on a sensor
/// fault, the regulator's answer where it is not negative, and no command
/// where it is negative.
pub open spec fn scoring_voltage(reading: FlywheelReading) -> Option<i64> {
    match reading {
        FlywheelReading::Fault => Some(0i64),
        FlywheelReading::Measured { regulated, .. } => if regulated >= 0 {
            Some(regulated)
        } else {
            None
        },
    }
}

impl ScoreState {
    /// A routine on which no tick has run: the flywheel has not been at
    /// speed and the indexer's pulse train is fresh.
    pub open spec fn initial(speed_target: int) -> ScoreState {
        ScoreState {
            at_speed: false,
            speed_target,
            train: PulseTrain::fresh(SCORING_INDEXER_DURATION as int),
        }
    }

    /// The pulse train runs exactly once the flywheel counts as at speed.
    /// This holds of a routine after any run of ticks.
    pub open spec fn consistent(self) -> bool {
        self.at_speed <==> self.train.phase is Running
    }

    /// Whether the flywheel is at speed on this tick or has been before.
    pub open spec fn feeding(self, reading: FlywheelReading) -> bool {
        self.at_speed || reaches(reading, self.speed_target)
    }

    /// The routine after a tick at `now`.
    pub open spec fn step(self, reading: FlywheelReading, now: int) -> ScoreState {
        ScoreState {
            at_speed: self.feeding(reading),
            speed_target: self.speed_target,
            train: self.train.step(self.feeding(reading), now),
        }
    }

    /// What the routine commands on a tick at `now`: the piston is left alone
    /// until the flywheel has been at speed, and pulsed from then on.
    pub open spec fn command(self, reading: FlywheelReading, now: int) -> ScoreCommand {
        ScoreCommand {
            flywheel_voltage: scoring_voltage(reading),
            indexer: if self.feeding(reading) {
                Some(self.train.level(true, now))
            } else {
                None
            },
        }
    }

    /// The number of ticks on which the piston is extended, out of one tick
    /// for each of `readings`, the first at the time `first` and each further
    /// one `tick` later.
    pub open spec fn extended_ticks(
        self,
        readings: Seq<FlywheelReading>,
        first: int,
        tick: int,
    ) -> nat
        decreases readings.len(),
    {
        if readings.len() == 0 {
            0
        } else {
            (if self.command(readings.first(), first).indexer == Some(true) {
                1nat
            } else {
                0nat
            }) + self.step(readings.first(), first).extended_ticks(
                readings.drop_first(),
                first + tick,
                tick,
            )
        }
    }
}

/// The retained state of the scoring routine.
#[derive(Clone, Copy, Debug)]
pub struct DiscScorer {
    at_speed: bool,
    speed_target: i64,
    indexer_pulse: GatedPulse,
}

impl View for DiscScorer {
    type V = ScoreState;

    closed spec fn view(&self) -> ScoreState {
        ScoreState {
            at_speed: self.at_speed,
            speed_target: self.speed_target as int,
            train: self.indexer_pulse@,
        }
    }
}

impl DiscScorer {
    #[verifier::type_invariant]
    spec fn well_formed(self) -> bool {
        self@.consistent()
    }

    /// A routine that feeds discs once the flywheel has reached
    /// `speed_target`, in thousandths of a revolution per minute.
    pub fn new(speed_target: i64) -> (scorer: Self)
        ensures
            scorer@ == ScoreState::initial(speed_target as int),
    {
        DiscScorer {
            at_speed: false,
            speed_target,
            indexer_pulse: GatedPulse::new(SCORING_INDEXER_DURATION),
        }
    }

    /// Whether the flywheel has reached its target. The pulse train runs
    /// exactly once it has.
    pub fn at_speed(&self) -> (at_speed: bool)
        ensures
            at_speed == self@.at_speed,
            self@.consistent(),
    {
        proof {
            use_type_invariant(self);
        }
        self.at_speed
    }

    /// The flywheel velocity from which discs are fed.
    pub fn speed_target(&self) -> (speed_target: i64)
        ensures
            speed_target == self@.speed_target,
    {
        self.speed_target
    }
}

/// Runs one tick of the scoring routine at the time `now`, on what the
/// flywheel sensor and its regulator delivered. The regulator's answer is
/// passed on to the flywheel unless it is negative. Once the flywheel has
/// reached its target the indexer piston is pulsed, and it stays so for the
/// rest of the routine. The tick on which the flywheel reaches its target
/// commands the piston retracted, whatever the time is.
pub fn score_discs(scorer: &mut DiscScorer, reading: FlywheelReading, now: u64) -> (command:
    ScoreCommand)
    ensures
        final(scorer)@ == old(scorer)@.step(reading, now as int),
        command == old(scorer)@.command(reading, now as int),
        !old(scorer)@.at_speed ==> command.indexer != Some(true),
        old(scorer)@.consistent(),
        final(scorer)@.consistent(),
{
    proof {
        use_type_invariant(&*scorer);
    }
    let (flywheel_voltage, reached): (Option<i64>, bool) = match reading {
        FlywheelReading::Measured { velocity, regulated } => (
            if regulated >= 0 {
                Some(regulated)
            } else {
                None
            },
            velocity >= scorer.speed_target,
        ),
        FlywheelReading::Fault => (Some(0), false),
    };
    let at_speed: bool = scorer.at_speed || reached;
    let mut indexer_pulse: GatedPulse = scorer.indexer_pulse;
    let level: bool = indexer_pulse.pulse(at_speed, now);
    *scorer = DiscScorer { at_speed, speed_target: scorer.speed_target, indexer_pulse };
    let indexer: Option<bool> = if at_speed {
        Some(level)
    } else {
        None
    };
    ScoreCommand { flywheel_voltage, indexer }
}

/// A flywheel that has once been at speed counts as at speed for the rest of
/// the routine, whatever it reads later, and the piston is commanded on every
/// tick from then on.
pub proof fn lemma_scoring_latch_persists(state: ScoreState, reading: FlywheelReading, now: int)
    requires
        state.at_speed,
    ensures
        state.step(reading, now).at_speed,
        state.command(reading, now).indexer == Some(state.train.level(true, now)),
{
}

/// Until the flywheel reaches its target the piston is left alone, and each
/// tick restarts the pulse train.
pub proof fn lemma_scoring_waits_for_speed(state: ScoreState, reading: FlywheelReading, now: int)
    requires
        !state.at_speed,
        !reaches(reading, state.speed_target),
    ensures
        !state.step(reading, now).at_speed,
        state.command(reading, now).indexer is None,
        state.step(reading, now).train == state.train.armed(now),
{
}

/// A routine keeps its pulse train running exactly once the flywheel counts
/// as at speed: this holds of a new routine and every tick preserves it.
pub proof fn lemma_scoring_stays_consistent(
    speed_target: int,
    state: ScoreState,
    reading: FlywheelReading,
    now: int,
)
    ensures
        ScoreState::initial(speed_target).consistent(),
        state.consistent() ==> state.step(reading, now).consistent(),
{
}

/// The first pulse starts retracted. The tick on which the flywheel reaches
/// its target, be it the first tick of the routine or a later one, commands
/// the piston retracted whatever the time is.
pub proof fn lemma_scoring_starts_retracted(
    speed_target: int,
    state: ScoreState,
    reading: FlywheelReading,
    now: int,
)
    ensures
        ScoreState::initial(speed_target).command(reading, now).indexer != Some(true),
        reaches(reading, speed_target) ==> ScoreState::initial(speed_target).command(
            reading,
            now,
        ).indexer == Some(false),
        state.consistent() && !state.at_speed ==> state.command(reading, now).indexer != Some(
            true,
        ),
        state.consistent() && !state.at_speed && reaches(reading, state.speed_target)
            ==> state.command(reading, now).indexer == Some(false),
{
}

/// The piston is extended no earlier than one window after the tick that
/// last restarted the pulse train. Once a restart at `restart` has left its
/// deadline, every tick at that time or later keeps a deadline of at least
/// one window after `restart`, and extends the piston only from that time on.
pub proof fn lemma_scoring_waits_a_window(
    state: ScoreState,
    restart: int,
    reading: FlywheelReading,
    now: int,
)
    requires
        state.train.window >= 0,
        state.train.closed_until(restart + state.train.window),
        now >= restart,
    ensures
        state.command(reading, now).indexer == Some(true) ==> now >= restart + state.train.window,
        state.step(reading, now).train.closed_until(restart + state.train.window),
{
}

/// While the flywheel counts as at speed, the piston is extended on the
/// ticks on which the pulse train is high.
proof fn lemma_scoring_follows_train(
    state: ScoreState,
    readings: Seq<FlywheelReading>,
    first: int,
    tick: int,
)
    requires
        readings.len() > 0 ==> state.feeding(readings[0]),
    ensures
        state.extended_ticks(readings, first, tick) == state.train.high_ticks(
            first,
            tick,
            readings.len(),
        ),
    decreases readings.len(),
{
    if readings.len() > 0 {
        lemma_scoring_follows_train(
            state.step(readings[0], first),
            readings.drop_first(),
            first + tick,
            tick,
        );
    }
}

/// The duty of the scoring routine. Let a tick at `now` below speed have
/// restarted the pulse train, and let the flywheel reach its target on the
/// next tick. Then of the ticks that follow at `now`, one every `tick`, the
/// piston is extended on `ticks * tick / window`, whatever the flywheel reads
/// later, provided that a tick is shorter than the window.
pub proof fn lemma_scoring_duty(
    state: ScoreState,
    readings: Seq<FlywheelReading>,
    now: int,
    tick: int,
)
    requires
        state.train == state.train.armed(now),
        0 < tick < state.train.window,
        readings.len() > 0 ==> state.feeding(readings[0]),
    ensures
        state.extended_ticks(readings, now + tick, tick) == (readings.len() * tick)
            / state.train.window,
{
    lemma_scoring_follows_train(state, readings, now + tick, tick);
    lemma_train_duty(state.train, now, tick, readings.len());
}

} // verus!
