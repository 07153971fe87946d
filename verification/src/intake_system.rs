//! Intake: two buttons, full speed one way or the other, nothing retained.

use crate::controller::{Controller, TickSnapshot, FULL_SCALE};
use crate::DriverControlHandler;
use vstd::prelude::*;

verus! {

/// The velocity that the intake runs at, in thousandths of full scale.
pub const INTAKE_SPEED: i64 = FULL_SCALE;

/// The velocity command that a controller state asks of the intake: the
/// upper left shoulder button runs it inward at full speed, the lower one
/// outward, and the upper wins where both are pressed. With neither pressed
/// the intake stands still.
pub open spec fn intake_command(controller: Controller) -> i64 {
    if controller.l1 {
        INTAKE_SPEED
    } else if controller.l2 {
        (-INTAKE_SPEED) as i64
    } else {
        0
    }
}

/// The intake sub-controller.
#[derive(Clone, Copy, Debug)]
pub struct IntakeSystem {}

impl View for IntakeSystem {
    type V = ();

    open spec fn view(&self) -> () {
        ()
    }
}

impl IntakeSystem {
    /// The intake. It has no state to set up.
    pub fn new() -> (intake: Self) {
        IntakeSystem {}
    }
}

impl DriverControlHandler for IntakeSystem {
    /// The velocity command, in thousandths of full scale.
    type Command = i64;

    open spec fn next_state(state: (), snapshot: TickSnapshot) -> () {
        ()
    }

    open spec fn commanded(state: (), snapshot: TickSnapshot) -> i64 {
        intake_command(snapshot.controller)
    }

    fn driver_control_cycle(&mut self, snapshot: &TickSnapshot) -> (command: i64) {
        if snapshot.controller.l1 {
            INTAKE_SPEED
        } else if snapshot.controller.l2 {
            -INTAKE_SPEED
        } else {
            0
        }
    }
}

} // verus!
