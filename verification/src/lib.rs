//! Control core of a competition robot's driver-operated period.
//!
//! The core decides; it touches no hardware. Once per tick its caller reads
//! the operator's controller, the clock and the flywheel sensor into a
//! [`TickSnapshot`], hands it to [`Bot::opcontrol`] and writes the commands
//! that come back to the actuators. The flywheel's velocity regulator runs on
//! the caller's side as well, and its answer is part of the snapshot.
//!
//! Every quantity is a fixed-point integer. Normalised ratios (stick axes,
//! velocity commands) are counted in thousandths of full scale, voltages in
//! millivolts, flywheel velocities in thousandths of a revolution per minute
//! and times in microseconds since program start.
//!
//! Each sub-controller has a view, its state as the contracts see it, and
//! the view carries the transition as a spec function. The laws of a
//! component are proof functions beside it.
#![allow(unused_imports)]

use vstd::prelude::*;

pub mod auton;
pub mod bot;
pub mod controller;
pub mod drive_system;
pub mod expansion_system;
pub mod intake_system;
pub mod shooter_system;
pub mod utils;

pub use bot::Bot;
pub use controller::{Controller, FlywheelReading, TickSnapshot};
pub use drive_system::DriveSystem;
pub use expansion_system::ExpansionSystem;
pub use intake_system::IntakeSystem;
pub use shooter_system::ShooterSystem;

verus! {

/// A sub-controller of the driver-operated period. Once per tick it turns
/// its own retained state and the tick's snapshot into a command and a new
/// state, and nothing else enters into either: the view of the state and the
/// snapshot determine both.
pub trait DriverControlHandler: View + Sized {
    /// What the sub-controller commands its actuators to do.
    type Command;

    /// The state that a tick on `snapshot` leaves behind.
    spec fn next_state(state: Self::V, snapshot: TickSnapshot) -> Self::V;

    /// The command that a tick on `snapshot` gives.
    spec fn commanded(state: Self::V, snapshot: TickSnapshot) -> Self::Command;

    /// Runs once before the first tick. Unless a sub-controller says
    /// otherwise it does nothing.
    fn driver_control_initialize(&mut self)
        default_ensures
            *final(self) == *old(self),
    {
    }

    /// Runs one tick.
    fn driver_control_cycle(&mut self, snapshot: &TickSnapshot) -> (command: Self::Command)
        ensures
            final(self)@ == Self::next_state(old(self)@, *snapshot),
            command == Self::commanded(old(self)@, *snapshot),
    ;
}

} // verus!
