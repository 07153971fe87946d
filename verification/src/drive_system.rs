//! Tank drive: each stick commands one side, through a rate limiter, and the
//! operator can turn the robot's front and back around.

use crate::controller::{saturate, saturated, Controller, TickSnapshot, FULL_SCALE};
use crate::utils::dampener::{gap, step_toward, Dampener};
use crate::DriverControlHandler;
use vstd::prelude::*;

verus! {

/// The largest change of a side's velocity command per tick, in thousandths
/// of full scale.
pub const DRIVE_MAX_STEP: u64 = 400;

/// Which end of the robot the operator drives as its front.
#[derive(Clone, Copy, Debug, PartialEq, Eq, Structural)]
pub enum DriveMode {
    Forward,
    Reversed,
}

/// The velocity commands of the two sides, in thousandths of full scale.
#[derive(Clone, Copy, Debug, PartialEq, Eq, Structural)]
pub struct DriveCommand {
    pub left: i64,
    pub right: i64,
}

/// The drive as the contracts see it: the mode and the command that each
/// side's rate limiter holds.
pub struct DriveState {
    pub mode: DriveMode,
    pub left: int,
    pub right: int,
}

/// The mode after a tick: the reverse button turns the drive around, the
/// restore button turns it back, and the reverse button wins over the restore
/// button. Nothing else changes the mode.
pub open spec fn mode_after(mode: DriveMode, controller: Controller) -> DriveMode {
    if controller.down {
        DriveMode::Reversed
    } else if controller.b {
        DriveMode::Forward
    } else {
        mode
    }
}

/// The value that the left side is steered toward.
pub open spec fn left_target(mode: DriveMode, controller: Controller) -> int {
    match mode {
        DriveMode::Forward => saturated(controller.left_y as int),
        DriveMode::Reversed => -saturated(controller.right_y as int),
    }
}

/// The value that the right side is steered toward.
pub open spec fn right_target(mode: DriveMode, controller: Controller) -> int {
    match mode {
        DriveMode::Forward => saturated(controller.right_y as int),
        DriveMode::Reversed => -saturated(controller.left_y as int),
    }
}

impl DriveState {
    /// The drive at rest, front end first.
    pub open spec fn initial() -> DriveState {
        DriveState { mode: DriveMode::Forward, left: 0, right: 0 }
    }

    /// Both commands lie within full scale.
    pub open spec fn in_range(self) -> bool {
        &&& -FULL_SCALE <= self.left <= FULL_SCALE
        &&& -FULL_SCALE <= self.right <= FULL_SCALE
    }

    /// The drive after one tick with the given controller state: the mode is
    /// switched first, then each side takes one bounded step toward the
    /// target that the new mode gives it.
    pub open spec fn step(self, controller: Controller) -> DriveState {
        let mode = mode_after(self.mode, controller);
        DriveState {
            mode,
            left: step_toward(self.left, left_target(mode, controller), DRIVE_MAX_STEP as int),
            right: step_toward(self.right, right_target(mode, controller), DRIVE_MAX_STEP as int),
        }
    }

    /// The commands that a tick with the given controller state gives: what
    /// the two sides hold after it.
    pub open spec fn command(self, controller: Controller) -> DriveCommand {
        DriveCommand {
            left: self.step(controller).left as i64,
            right: self.step(controller).right as i64,
        }
    }

    /// The drive after one tick for each of `controllers`, in order.
    pub open spec fn run(self, controllers: Seq<Controller>) -> DriveState
        decreases controllers.len(),
    {
        if controllers.len() == 0 {
            self
        } else {
            self.run(controllers.drop_last()).step(controllers.last())
        }
    }
}

/// The drive sub-controller.
#[derive(Clone, Copy, Debug)]
pub struct DriveSystem {
    mode: DriveMode,
    left_dampener: Dampener,
    right_dampener: Dampener,
}

impl View for DriveSystem {
    type V = DriveState;

    closed spec fn view(&self) -> DriveState {
        DriveState {
            mode: self.mode,
            left: self.left_dampener.current() as int,
            right: self.right_dampener.current() as int,
        }
    }
}

impl DriveSystem {
    #[verifier::type_invariant]
    spec fn well_formed(self) -> bool {
        &&& self.left_dampener.max_step() == DRIVE_MAX_STEP
        &&& self.right_dampener.max_step() == DRIVE_MAX_STEP
        &&& self@.in_range()
    }

    /// A drive at rest, front end first.
    pub fn new() -> (drive: Self)
        ensures
            drive@ == DriveState::initial(),
    {
        DriveSystem {
            mode: DriveMode::Forward,
            left_dampener: Dampener::new(DRIVE_MAX_STEP),
            right_dampener: Dampener::new(DRIVE_MAX_STEP),
        }
    }

    /// Which end the operator drives as the front.
    pub fn mode(&self) -> (mode: DriveMode)
        ensures
            mode == self@.mode,
    {
        self.mode
    }

    /// The commands that the two sides hold. They lie within full scale.
    pub fn command(&self) -> (command: DriveCommand)
        ensures
            command.left == self@.left,
            command.right == self@.right,
            self@.in_range(),
    {
        proof {
            use_type_invariant(self);
        }
        DriveCommand { left: self.left_dampener.current(), right: self.right_dampener.current() }
    }
}

impl DriverControlHandler for DriveSystem {
    type Command = DriveCommand;

    open spec fn next_state(state: DriveState, snapshot: TickSnapshot) -> DriveState {
        state.step(snapshot.controller)
    }

    open spec fn commanded(state: DriveState, snapshot: TickSnapshot) -> DriveCommand {
        state.command(snapshot.controller)
    }

    /// Switches the mode as the reverse and restore buttons say, then steers
    /// each side toward its stick: in forward mode the left side toward the
    /// left stick and the right side toward the right stick, in reversed mode
    /// the left side toward the negated right stick and the right side toward
    /// the negated left stick. The commands lie within full scale.
    fn driver_control_cycle(&mut self, snapshot: &TickSnapshot) -> (command: DriveCommand)
        ensures
            command.left == final(self)@.left,
            command.right == final(self)@.right,
            final(self)@.in_range(),
    {
        proof {
            use_type_invariant(&*self);
        }
        if snapshot.controller.down {
            self.mode = DriveMode::Reversed;
        } else if snapshot.controller.b {
            self.mode = DriveMode::Forward;
        }
        let left_stick: i64 = saturate(snapshot.controller.left_y);
        let right_stick: i64 = saturate(snapshot.controller.right_y);
        let (left_input, right_input): (i64, i64) = match self.mode {
            DriveMode::Forward => (left_stick, right_stick),
            DriveMode::Reversed => (-right_stick, -left_stick),
        };
        let mut left_dampener: Dampener = self.left_dampener;
        let mut right_dampener: Dampener = self.right_dampener;
        let left: i64 = left_dampener.advance(left_input);
        let right: i64 = right_dampener.advance(right_input);
        self.left_dampener = left_dampener;
        self.right_dampener = right_dampener;
        DriveCommand { left, right }
    }
}

/// Turning the drive around swaps the sticks and negates them: what the left
/// side is steered toward in reversed mode is the negation of what the right
/// side is steered toward in forward mode, and likewise for the right side.
pub proof fn lemma_reversal_swaps_and_negates(controller: Controller)
    ensures
        left_target(DriveMode::Reversed, controller) == -right_target(
            DriveMode::Forward,
            controller,
        ),
        right_target(DriveMode::Reversed, controller) == -left_target(
            DriveMode::Forward,
            controller,
        ),
{
}

/// The mode is sticky: a tick on which neither the reverse nor the restore
/// button is pressed leaves it as it was, whatever else the controller does.
pub proof fn lemma_mode_is_sticky(state: DriveState, controller: Controller)
    requires
        !controller.down,
        !controller.b,
    ensures
        state.step(controller).mode == state.mode,
{
}

/// No tick changes a side's command by more than the step bound, not even one
/// that switches the mode, and commands that lie within full scale stay there.
pub proof fn lemma_drive_is_damped(state: DriveState, controller: Controller)
    ensures
        gap(state.step(controller).left, state.left) <= DRIVE_MAX_STEP,
        gap(state.step(controller).right, state.right) <= DRIVE_MAX_STEP,
        state.in_range() ==> state.step(controller).in_range(),
{
}

/// Whatever the operator does, for however many ticks, a drive that started
/// within full scale commands nothing beyond it.
pub proof fn lemma_drive_stays_in_range(state: DriveState, controllers: Seq<Controller>)
    requires
        state.in_range(),
    ensures
        state.run(controllers).in_range(),
    decreases controllers.len(),
{
    if controllers.len() > 0 {
        lemma_drive_stays_in_range(state, controllers.drop_last());
        lemma_drive_is_damped(state.run(controllers.drop_last()), controllers.last());
    }
}

} // verus!
