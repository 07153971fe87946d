//! The scheduler of a session: it owns every sub-controller and runs each of
//! them once per tick, in a fixed order, on one snapshot.

use crate::controller::TickSnapshot;
use crate::drive_system::{DriveCommand, DriveState, DriveSystem};
use crate::expansion_system::{fired_after, ExpansionSystem};
use crate::intake_system::{intake_command, IntakeSystem};
use crate::shooter_system::{is_at_speed, ShooterCommand, ShooterState, ShooterSystem};
use crate::DriverControlHandler;
use vstd::prelude::*;

verus! {

/// The nominal time between two ticks, in microseconds.
pub const TICK_PERIOD: u64 = 50_000;

/// The angle that the autonomous routine turns the robot by, in thousandths
/// of a degree.
pub const AUTONOMOUS_TURN: i64 = -90_000;

/// An open-loop motion that the drive train carries out by itself.
#[derive(Clone, Copy, Debug, PartialEq, Eq, Structural)]
pub enum MotionCommand {
    /// Drive straight, by a distance in micrometres.
    DriveDistance { micrometres: i64 },
    /// Turn on the spot, by an angle in thousandths of a degree.
    RotateAngle { millidegrees: i64 },
}

/// What the loop's single suspension point woke up to.
#[derive(Clone, Copy, Debug, PartialEq, Eq, Structural)]
pub enum LoopEvent {
    /// The tick period has gone by; this is what the tick reads.
    Tick(TickSnapshot),
    /// The session was cancelled.
    Cancelled,
}

/// The commands of one tick, one per sub-controller.
#[derive(Clone, Copy, Debug, PartialEq, Eq, Structural)]
pub struct ActuatorCommands {
    pub drive: DriveCommand,
    /// The intake's velocity, in thousandths of full scale.
    pub intake: i64,
    pub shooter: ShooterCommand,
    /// The level of the expansion release.
    pub expansion: bool,
}

/// What the loop does next.
#[derive(Clone, Copy, Debug, PartialEq, Eq, Structural)]
pub enum LoopAction {
    /// Issue these commands, then suspend until the next event.
    Actuate(ActuatorCommands),
    /// Leave the loop.
    Exit,
}

/// The session as the contracts see it.
pub struct BotState {
    pub running: bool,
    pub drive: DriveState,
    pub shooter: ShooterState,
    pub expansion_fired: bool,
}

impl BotState {
    /// A session on which no tick has run.
    pub open spec fn initial() -> BotState {
        BotState {
            running: true,
            drive: DriveState::initial(),
            shooter: ShooterSystem::spec_initial(),
            expansion_fired: false,
        }
    }

    /// What holds of a session after any run of events: the drive's commands
    /// lie within full scale, and the indexer's pulse train runs exactly
    /// while the flywheel counts as at speed.
    pub open spec fn well_formed(self) -> bool {
        &&& self.drive.in_range()
        &&& self.shooter.consistent()
    }

    /// What one tick commands: every sub-controller answers the same
    /// snapshot.
    pub open spec fn commands(self, snapshot: TickSnapshot) -> ActuatorCommands {
        ActuatorCommands {
            drive: self.drive.command(snapshot.controller),
            intake: intake_command(snapshot.controller),
            shooter: self.shooter.command(snapshot),
            expansion: fired_after(self.expansion_fired, snapshot.controller),
        }
    }

    /// The session after an event. A tick steps every sub-controller once; a
    /// cancellation ends the session; a session that has ended stays as it
    /// is.
    pub open spec fn step(self, event: LoopEvent) -> BotState {
        if !self.running {
            self
        } else {
            match event {
                LoopEvent::Cancelled => BotState { running: false, ..self },
                LoopEvent::Tick(snapshot) => BotState {
                    running: true,
                    drive: self.drive.step(snapshot.controller),
                    shooter: self.shooter.step(snapshot),
                    expansion_fired: fired_after(self.expansion_fired, snapshot.controller),
                },
            }
        }
    }

    /// What the loop does on an event: it actuates on a tick of a running
    /// session and leaves otherwise.
    pub open spec fn action(self, event: LoopEvent) -> LoopAction {
        match event {
            LoopEvent::Tick(snapshot) if self.running => LoopAction::Actuate(
                self.commands(snapshot),
            ),
            _ => LoopAction::Exit,
        }
    }

    /// The session after each of `events`, in order.
    pub open spec fn run(self, events: Seq<LoopEvent>) -> BotState
        decreases events.len(),
    {
        if events.len() == 0 {
            self
        } else {
            self.run(events.drop_last()).step(events.last())
        }
    }
}

/// The robot's control state for one session.
#[derive(Clone, Copy, Debug)]
pub struct Bot {
    running: bool,
    drive_system: DriveSystem,
    intake_system: IntakeSystem,
    shooter_system: ShooterSystem,
    expansion_system: ExpansionSystem,
}

impl View for Bot {
    type V = BotState;

    closed spec fn view(&self) -> BotState {
        BotState {
            running: self.running,
            drive: self.drive_system@,
            shooter: self.shooter_system@,
            expansion_fired: self.expansion_system@,
        }
    }
}

impl Bot {
    #[verifier::type_invariant]
    spec fn well_formed(self) -> bool {
        self@.well_formed()
    }

    /// A session on which no tick has run, with every sub-controller in its
    /// initial state.
    pub fn new() -> (bot: Self)
        ensures
            bot@ == BotState::initial(),
    {
        Bot {
            running: true,
            drive_system: DriveSystem::new(),
            intake_system: IntakeSystem::new(),
            shooter_system: ShooterSystem::new(),
            expansion_system: ExpansionSystem::new(),
        }
    }

    /// Whether the session is still running. Whatever ticks have run, the
    /// drive's commands lie within full scale and the indexer's pulse train
    /// runs exactly while the flywheel counts as at speed.
    pub fn is_running(&self) -> (running: bool)
        ensures
            running == self@.running,
            self@.well_formed(),
    {
        proof {
            use_type_invariant(self);
        }
        self.running
    }


    /// The motion that the autonomous period consists of: one turn on the
    /// spot by [`AUTONOMOUS_TURN`].
    pub fn autonomous(&self) -> (motion: MotionCommand)
        ensures
            motion == (MotionCommand::RotateAngle { millidegrees: AUTONOMOUS_TURN }),
    {
        MotionCommand::RotateAngle { millidegrees: AUTONOMOUS_TURN }
    }

    /// Handles what the driver-control loop woke up to. On a tick the drive,
    /// the intake, the shooter and the expansion run once each, in this
    /// order and on the same snapshot, and their commands are returned. On a
    /// cancellation the session ends, and from then on every event is
    /// answered with [`LoopAction::Exit`]. The drive's commands are what its
    /// two sides hold after the tick, and they lie within full scale.
    pub fn opcontrol(&mut self, event: &LoopEvent) -> (action: LoopAction)
        ensures
            final(self)@ == old(self)@.step(*event),
            action == old(self)@.action(*event),
            old(self)@.well_formed(),
            final(self)@.well_formed(),
            final(self)@.drive.in_range(),
            action matches LoopAction::Actuate(commands) ==> {
                &&& commands.drive.left == final(self)@.drive.left
                &&& commands.drive.right == final(self)@.drive.right
                &&& commands.expansion == final(self)@.expansion_fired
                &&& !is_at_speed(old(self)@.shooter.phase) ==> !commands.shooter.indexer
            },
    {
        proof {
            use_type_invariant(&*self);
        }
        if !self.running {
            return LoopAction::Exit;
        }
        match event {
            LoopEvent::Cancelled => {
                self.running = false;
                LoopAction::Exit
            },
            LoopEvent::Tick(snapshot) => {
                let mut drive_system: DriveSystem = self.drive_system;
                let mut intake_system: IntakeSystem = self.intake_system;
                let mut shooter_system: ShooterSystem = self.shooter_system;
                let mut expansion_system: ExpansionSystem = self.expansion_system;
                let drive: DriveCommand = drive_system.driver_control_cycle(snapshot);
                let intake: i64 = intake_system.driver_control_cycle(snapshot);
                let shooter: ShooterCommand = shooter_system.driver_control_cycle(snapshot);
                let expansion: bool = expansion_system.driver_control_cycle(snapshot);
                *self = Bot {
                    running: true,
                    drive_system,
                    intake_system,
                    shooter_system,
                    expansion_system,
                };
                LoopAction::Actuate(ActuatorCommands { drive, intake, shooter, expansion })
            },
        }
    }
}

/// Cancellation is final: it ends the session without a command, and a
/// session that has ended answers every further event with an exit and does
/// not change any more.
pub proof fn lemma_cancellation_is_final(state: BotState, events: Seq<LoopEvent>)
    ensures
        state.action(LoopEvent::Cancelled) == LoopAction::Exit,
        !state.step(LoopEvent::Cancelled).running,
        state.step(LoopEvent::Cancelled).run(events) == state.step(LoopEvent::Cancelled),
        events.len() > 0 ==> state.step(LoopEvent::Cancelled).run(events.drop_last()).action(
            events.last(),
        ) == LoopAction::Exit,
    decreases events.len(),
{
    if events.len() > 0 {
        lemma_cancellation_is_final(state, events.drop_last());
    }
}

/// A running session actuates on every tick, and the tick leaves it running.
pub proof fn lemma_tick_actuates(state: BotState, snapshot: TickSnapshot)
    requires
        state.running,
    ensures
        state.action(LoopEvent::Tick(snapshot)) == LoopAction::Actuate(state.commands(snapshot)),
        state.step(LoopEvent::Tick(snapshot)).running,
{
}

/// What holds of a new session holds after every event: the drive's
/// commands stay within full scale, and the indexer's pulse train runs
/// exactly while the flywheel counts as at speed.
pub proof fn lemma_session_stays_well_formed(state: BotState, event: LoopEvent)
    ensures
        BotState::initial().well_formed(),
        state.well_formed() ==> state.step(event).well_formed(),
{
}

/// In a session that is well formed the drive is commanded what its two
/// sides hold after the tick, and a tick on which the indexer begins to feed
/// holds the piston retracted.
pub proof fn lemma_tick_commands_what_is_held(state: BotState, snapshot: TickSnapshot)
    requires
        state.well_formed(),
    ensures
        state.commands(snapshot).drive.left == state.drive.step(snapshot.controller).left,
        state.commands(snapshot).drive.right == state.drive.step(snapshot.controller).right,
        !is_at_speed(state.shooter.phase) ==> !state.commands(snapshot).shooter.indexer,
{
}

} // verus!
