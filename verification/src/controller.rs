//! What one tick reads: the operator's controller, the clock and the
//! flywheel sensor.

use vstd::prelude::*;

verus! {

/// Full scale of a normalised ratio, in thousandths.
pub const FULL_SCALE: i64 = 1000;

/// A ratio cut off at full scale in either direction.
pub open spec fn saturated(ratio: int) -> int {
    if ratio > FULL_SCALE {
        FULL_SCALE as int
    } else if ratio < -FULL_SCALE {
        -FULL_SCALE
    } else {
        ratio
    }
}

/// Cuts `ratio` off at full scale in either direction.
pub fn saturate(ratio: i64) -> (cut: i64)
    ensures
        cut == saturated(ratio as int),
{
    if ratio > FULL_SCALE {
        FULL_SCALE
    } else if ratio < -FULL_SCALE {
        -FULL_SCALE
    } else {
        ratio
    }
}

/// The state of the operator's controller at one tick: the stick axes as
/// ratios in thousandths of full deflection, the buttons as pressed or not.
#[derive(Clone, Copy, Debug, PartialEq, Eq, Structural)]
pub struct Controller {
    pub left_x: i64,
    pub left_y: i64,
    pub right_x: i64,
    pub right_y: i64,
    pub l1: bool,
    pub l2: bool,
    pub r1: bool,
    pub r2: bool,
    pub up: bool,
    pub down: bool,
    pub left: bool,
    pub right: bool,
    pub x: bool,
    pub y: bool,
    pub a: bool,
    pub b: bool,
}

impl Controller {
    /// A controller that nobody touches: sticks centred, no button pressed.
    pub open spec fn spec_neutral() -> Controller {
        Controller {
            left_x: 0,
            left_y: 0,
            right_x: 0,
            right_y: 0,
            l1: false,
            l2: false,
            r1: false,
            r2: false,
            up: false,
            down: false,
            left: false,
            right: false,
            x: false,
            y: false,
            a: false,
            b: false,
        }
    }

    /// A controller that nobody touches: sticks centred, no button pressed.
    #[verifier::when_used_as_spec(spec_neutral)]
    pub fn neutral() -> (controller: Controller)
        ensures
            controller == Controller::spec_neutral(),
    {
        Controller {
            left_x: 0,
            left_y: 0,
            right_x: 0,
            right_y: 0,
            l1: false,
            l2: false,
            r1: false,
            r2: false,
            up: false,
            down: false,
            left: false,
            right: false,
            x: false,
            y: false,
            a: false,
            b: false,
        }
    }
}

/// What the flywheel sensor and the velocity regulator that follows it
/// delivered for one tick.
#[derive(Clone, Copy, Debug, PartialEq, Eq, Structural)]
pub enum FlywheelReading {
    /// The sensor reported a fault, so the regulator was not run.
    Fault,
    /// The measured velocity, in thousandths of a revolution per minute, and
    /// the voltage that the regulator answered to it, in millivolts.
    Measured { velocity: i64, regulated: i64 },
}

/// Everything a tick reads, taken once at its start and seen alike by every
/// sub-controller.
#[derive(Clone, Copy, Debug, PartialEq, Eq, Structural)]
pub struct TickSnapshot {
    pub controller: Controller,
    /// Microseconds since program start.
    pub now: u64,
    pub flywheel: FlywheelReading,
}

} // verus!
