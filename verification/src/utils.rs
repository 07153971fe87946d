//! Leaf components shared by the sub-controllers.

pub mod dampener;
pub mod edge_detector;
pub mod gated_pulse;
pub mod interval_timer;

pub use dampener::Dampener;
pub use edge_detector::EdgeDetector;
pub use gated_pulse::GatedPulse;
pub use interval_timer::IntervalTimer;
