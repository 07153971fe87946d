//! Shooter: a velocity-regulated flywheel and an indexer piston that feeds
//! discs into it once it has come up to speed.

use crate::controller::{Controller, FlywheelReading, TickSnapshot};
use crate::utils::gated_pulse::{lemma_train_duty, GatedPulse, PulseTrain};
use crate::DriverControlHandler;
use vstd::prelude::*;

verus! {

/// The flywheel velocity that the shooter fires at, in thousandths of a
/// revolution per minute.
pub const LOW_SPEED: i64 = 350_000;

/// The window of the indexer's pulse train, in microseconds.
pub const INDEXER_DURATION: u64 = 500_000;

/// Where the indexer stands.
#[derive(Clone, Copy, Debug, PartialEq, Eq, Structural)]
pub enum IndexerPhase {
    /// The feed button is released.
    Idle,
    /// The feed button is held. `at_speed` tells whether the flywheel has
    /// reached its target since the button went down.
    Priming { at_speed: bool },
}

/// What the shooter commands on a tick: the flywheel voltage in millivolts
/// and the level of the indexer piston, `true` for extended.
#[derive(Clone, Copy, Debug, PartialEq, Eq, Structural)]
pub struct ShooterCommand {
    pub flywheel_voltage: i64,
    pub indexer: bool,
}

/// The shooter as the contracts see it.
pub struct ShooterState {
    pub phase: IndexerPhase,
    pub target_velocity: int,
    pub train: PulseTrain,
}

/// Whether the flywheel has reached its target in this phase.
pub open spec fn is_at_speed(phase: IndexerPhase) -> bool {
    phase matches IndexerPhase::Priming { at_speed } && at_speed
}

/// Whether a reading shows the flywheel at or above `target_velocity`. A
/// fault shows nothing.
pub open spec fn reaches(reading: FlywheelReading, target_velocity: int) -> bool {
    reading matches FlywheelReading::Measured { velocity, .. } && velocity >= target_velocity
}

/// The voltage commanded to the flywheel: what the regulator answered while
/// the fire-enable button is held and the sensor delivers, zero otherwise.
pub open spec fn flywheel_voltage(controller: Controller, reading: FlywheelReading) -> i64 {
    match reading {
        FlywheelReading::Measured { regulated, .. } if controller.r1 => regulated,
        _ => 0,
    }
}

/// The phase after a tick. Releasing the feed button leads to `Idle` and
/// forgets that the flywheel was at speed; while the button is held, having
/// been at speed is remembered, also when the velocity drops again.
pub open spec fn phase_after(phase: IndexerPhase, feed: bool, reached: bool) -> IndexerPhase {
    if feed {
        IndexerPhase::Priming { at_speed: is_at_speed(phase) || reached }
    } else {
        IndexerPhase::Idle
    }
}

impl ShooterState {
    /// A shooter on which no tick has run: its feed button has not been
    /// pressed yet and the indexer's pulse train is fresh.
    pub open spec fn initial(target_velocity: int, window: int) -> ShooterState {
        ShooterState {
            phase: IndexerPhase::Idle,
            target_velocity,
            train: PulseTrain::fresh(window),
        }
    }

    /// The pulse train runs exactly while the flywheel counts as at speed.
    /// This holds of a shooter after any run of ticks.
    pub open spec fn consistent(self) -> bool {
        is_at_speed(self.phase) <==> self.train.phase is Running
    }

    /// Whether the indexer feeds on a tick: the feed button is held and the
    /// flywheel is at speed on this tick or has been since the button went
    /// down.
    pub open spec fn feeding(self, snapshot: TickSnapshot) -> bool {
        is_at_speed(
            phase_after(
                self.phase,
                snapshot.controller.r2,
                reaches(snapshot.flywheel, self.target_velocity),
            ),
        )
    }

    /// The shooter after one tick.
    pub open spec fn step(self, snapshot: TickSnapshot) -> ShooterState {
        ShooterState {
            phase: phase_after(
                self.phase,
                snapshot.controller.r2,
                reaches(snapshot.flywheel, self.target_velocity),
            ),
            target_velocity: self.target_velocity,
            train: self.train.step(self.feeding(snapshot), snapshot.now as int),
        }
    }

    /// What the shooter commands on a tick.
    pub open spec fn command(self, snapshot: TickSnapshot) -> ShooterCommand {
        ShooterCommand {
            flywheel_voltage: flywheel_voltage(snapshot.controller, snapshot.flywheel),
            indexer: self.train.level(self.feeding(snapshot), snapshot.now as int),
        }
    }

    /// The number of ticks on which the piston is extended, out of one tick
    /// for each of `snapshots`, in order.
    pub open spec fn extended_ticks(self, snapshots: Seq<TickSnapshot>) -> nat
        decreases snapshots.len(),
    {
        if snapshots.len() == 0 {
            0
        } else {
            (if self.command(snapshots.first()).indexer {
                1nat
            } else {
                0nat
            }) + self.step(snapshots.first()).extended_ticks(snapshots.drop_first())
        }
    }
}

/// The shooter sub-controller.
#[derive(Clone, Copy, Debug)]
pub struct ShooterSystem {
    phase: IndexerPhase,
    target_velocity: i64,
    indexer_pulse: GatedPulse,
}

impl View for ShooterSystem {
    type V = ShooterState;

    closed spec fn view(&self) -> ShooterState {
        ShooterState {
            phase: self.phase,
            target_velocity: self.target_velocity as int,
            train: self.indexer_pulse@,
        }
    }
}

impl ShooterSystem {
    #[verifier::type_invariant]
    spec fn well_formed(self) -> bool {
        self@.consistent()
    }

    /// The shooter that [`ShooterSystem::new`] makes.
    pub open spec fn spec_initial() -> ShooterState {
        ShooterState::initial(LOW_SPEED as int, INDEXER_DURATION as int)
    }

    /// A shooter that fires at [`LOW_SPEED`] with an indexer window of
    /// [`INDEXER_DURATION`].
    pub fn new() -> (shooter: Self)
        ensures
            shooter@ == ShooterSystem::spec_initial(),
    {
        ShooterSystem::with_settings(LOW_SPEED, INDEXER_DURATION)
    }

    /// A shooter that fires at `target_velocity` with an indexer window of
    /// `window`.
    pub fn with_settings(target_velocity: i64, window: u64) -> (shooter: Self)
        ensures
            shooter@ == ShooterState::initial(target_velocity as int, window as int),
    {
        ShooterSystem {
            phase: IndexerPhase::Idle,
            target_velocity,
            indexer_pulse: GatedPulse::new(window),
        }
    }

    /// Where the indexer stands. The pulse train runs exactly while the
    /// flywheel counts as at speed.
    pub fn phase(&self) -> (phase: IndexerPhase)
        ensures
            phase == self@.phase,
            self@.consistent(),
    {
        proof {
            use_type_invariant(self);
        }
        self.phase
    }

    /// The flywheel velocity that the shooter fires at.
    pub fn target_velocity(&self) -> (target_velocity: i64)
        ensures
            target_velocity == self@.target_velocity,
    {
        self.target_velocity
    }

    /// The window of the indexer's pulse train.
    pub fn window(&self) -> (window: u64)
        ensures
            window == self@.train.window,
    {
        self.indexer_pulse.window()
    }
}

impl DriverControlHandler for ShooterSystem {
    type Command = ShooterCommand;

    open spec fn next_state(state: ShooterState, snapshot: TickSnapshot) -> ShooterState {
        state.step(snapshot)
    }

    open spec fn commanded(state: ShooterState, snapshot: TickSnapshot) -> ShooterCommand {
        state.command(snapshot)
    }

    /// Commands the flywheel with the regulator's answer while the
    /// fire-enable button is held, and with zero while it is released or the
    /// sensor is at fault. Pulses the indexer piston while the feed button is
    /// held and the flywheel has been at speed since it went down; holds the
    /// piston retracted and restarts the pulse train otherwise. The tick on
    /// which the indexer begins to feed holds the piston retracted as well,
    /// whatever the time is.
    fn driver_control_cycle(&mut self, snapshot: &TickSnapshot) -> (command: ShooterCommand)
        ensures
            !is_at_speed(old(self)@.phase) ==> !command.indexer,
            old(self)@.consistent(),
            final(self)@.consistent(),
    {
        proof {
            use_type_invariant(&*self);
        }
        let (flywheel_voltage, reached): (i64, bool) = match snapshot.flywheel {
            FlywheelReading::Measured { velocity, regulated } => (
                if snapshot.controller.r1 {
                    regulated
                } else {
                    0
                },
                velocity >= self.target_velocity,
            ),
            FlywheelReading::Fault => (0, false),
        };
        let was_at_speed: bool = match self.phase {
            IndexerPhase::Priming { at_speed } => at_speed,
            IndexerPhase::Idle => false,
        };
        let feeding: bool = snapshot.controller.r2 && (was_at_speed || reached);
        let phase: IndexerPhase = if snapshot.controller.r2 {
            IndexerPhase::Priming { at_speed: feeding }
        } else {
            IndexerPhase::Idle
        };
        let mut indexer_pulse: GatedPulse = self.indexer_pulse;
        let indexer: bool = indexer_pulse.pulse(feeding, snapshot.now);
        *self = ShooterSystem { phase, target_velocity: self.target_velocity, indexer_pulse };
        ShooterCommand { flywheel_voltage, indexer }
    }
}

/// The at-speed latch persists: once the flywheel has been at speed while
/// the feed button is held, every further tick with the button held keeps
/// the indexer feeding, whatever the flywheel reads or the sensor does, and
/// the piston then follows the pulse train alone.
pub proof fn lemma_latch_persists(state: ShooterState, snapshot: TickSnapshot)
    requires
        is_at_speed(state.phase),
        snapshot.controller.r2,
    ensures
        is_at_speed(state.step(snapshot).phase),
        state.command(snapshot).indexer == state.train.level(true, snapshot.now as int),
{
}

/// The latch is set by a flywheel at or above its target while the feed
/// button is held, and by nothing else.
pub proof fn lemma_latch_is_set_at_speed(state: ShooterState, snapshot: TickSnapshot)
    requires
        !is_at_speed(state.phase),
    ensures
        is_at_speed(state.step(snapshot).phase) <==> snapshot.controller.r2 && reaches(
            snapshot.flywheel,
            state.target_velocity,
        ),
        !is_at_speed(state.step(snapshot).phase) ==> !state.command(snapshot).indexer,
{
}

/// Releasing the feed button retracts the piston, clears the latch and
/// restarts the pulse train at the time of the tick.
pub proof fn lemma_release_retracts(state: ShooterState, snapshot: TickSnapshot)
    requires
        !snapshot.controller.r2,
    ensures
        !state.command(snapshot).indexer,
        state.step(snapshot).phase == IndexerPhase::Idle,
        state.step(snapshot).train == state.train.armed(snapshot.now as int),
{
}

/// A shooter keeps its pulse train running exactly while the flywheel counts
/// as at speed: this holds of a new shooter and every tick preserves it.
pub proof fn lemma_shooter_stays_consistent(
    target_velocity: int,
    window: int,
    state: ShooterState,
    snapshot: TickSnapshot,
)
    ensures
        ShooterState::initial(target_velocity, window).consistent(),
        state.consistent() ==> state.step(snapshot).consistent(),
{
}

/// Every activation starts retracted. The tick on which the indexer begins
/// to feed, be it the first tick of a new shooter or a later one, holds the
/// piston retracted whatever the time is, and so does every tick on which the
/// indexer does not feed.
pub proof fn lemma_activation_starts_retracted(
    target_velocity: int,
    window: int,
    state: ShooterState,
    snapshot: TickSnapshot,
)
    ensures
        !ShooterState::initial(target_velocity, window).command(snapshot).indexer,
        state.consistent() && !is_at_speed(state.phase) ==> !state.command(snapshot).indexer,
        !state.feeding(snapshot) ==> !state.command(snapshot).indexer,
{
}

/// The piston is extended no earlier than one window after the tick that
/// last restarted the pulse train. Once a restart at `restart` has left its
/// deadline, every tick at that time or later keeps a deadline of at least
/// `restart + window`, and extends the piston only from that time on.
pub proof fn lemma_piston_waits_a_window(state: ShooterState, restart: int, snapshot: TickSnapshot)
    requires
        state.train.window >= 0,
        state.train.closed_until(restart + state.train.window),
        snapshot.now >= restart,
    ensures
        state.command(snapshot).indexer ==> snapshot.now >= restart + state.train.window,
        state.step(snapshot).train.closed_until(restart + state.train.window),
{
}

/// The flywheel is commanded only while the fire-enable button is held: with
/// the button released, or the sensor at fault, the command is zero.
pub proof fn lemma_flywheel_is_gated(controller: Controller, reading: FlywheelReading)
    ensures
        !controller.r1 ==> flywheel_voltage(controller, reading) == 0,
        reading is Fault ==> flywheel_voltage(controller, reading) == 0,
        controller.r1 && reading is Measured ==> flywheel_voltage(controller, reading)
            == reading->regulated,
{
}

/// Whether `snapshots` are taken at a fixed cadence, the first at the time
/// `first` and each further one `tick` later, with the feed button held on all
/// of them.
pub open spec fn feed_held_at_cadence(snapshots: Seq<TickSnapshot>, first: int, tick: int) -> bool {
    forall|k: int|
        0 <= k < snapshots.len() ==> (#[trigger] snapshots[k]).controller.r2 && snapshots[k].now
            == first + k * tick
}

/// While the indexer feeds, the piston is extended on the ticks on which its
/// pulse train is high.
proof fn lemma_feeding_follows_train(
    state: ShooterState,
    snapshots: Seq<TickSnapshot>,
    first: int,
    tick: int,
)
    requires
        feed_held_at_cadence(snapshots, first, tick),
        snapshots.len() > 0 ==> state.feeding(snapshots[0]),
    ensures
        state.extended_ticks(snapshots) == state.train.high_ticks(first, tick, snapshots.len()),
    decreases snapshots.len(),
{
    if snapshots.len() > 0 {
        let rest = snapshots.drop_first();
        let next = state.step(snapshots[0]);
        assert(snapshots[0].now == first + 0 * tick);
        assert forall|k: int| 0 <= k < rest.len() implies (#[trigger] rest[k]).controller.r2
            && rest[k].now == first + tick + k * tick by {
            assert(rest[k] == snapshots[k + 1]);
            assert((k + 1) * tick == k * tick + tick) by (nonlinear_arith);
        }
        if rest.len() > 0 {
            assert(rest[0].controller.r2);
        }
        lemma_feeding_follows_train(next, rest, first + tick, tick);
    }
}

/// The duty of the indexer. Let a tick at `now` on which the indexer does
/// not feed have restarted the pulse train, and let the feed button then be
/// held for a run of ticks, one every `tick`, with the flywheel at speed on
/// the first of them. Then the piston is extended on `ticks * tick / window`
/// of these ticks, whatever the flywheel reads later, provided that a tick is
/// shorter than the window.
pub proof fn lemma_indexer_duty(
    state: ShooterState,
    snapshots: Seq<TickSnapshot>,
    now: int,
    tick: int,
)
    requires
        state.train == state.train.armed(now),
        0 < tick < state.train.window,
        feed_held_at_cadence(snapshots, now + tick, tick),
        snapshots.len() > 0 ==> state.feeding(snapshots[0]),
    ensures
        state.extended_ticks(snapshots) == (snapshots.len() * tick) / state.train.window,
{
    lemma_feeding_follows_train(state, snapshots, now + tick, tick);
    lemma_train_duty(state.train, now, tick, snapshots.len());
}

} // verus!
