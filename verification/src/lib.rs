//! Motion-control core for a differential-drive competition robot.
//!
//! The crate covers the three parts of the robot with real invariants and
//! state-transition logic: the lift/wrist actuator state machine, the
//! differential drive abstraction with saturating tank/arcade mixing, and the
//! tracking-wheel pose estimator. All angles are fixed-point millidegrees and
//! all drive commands fixed-point millivolts, so every rule is exact and
//! machine-checked; the hardware boundary (motors, sensors, the screen)
//! converts at the edge.

pub mod arm;
pub mod localisation;
pub mod piston;
pub mod tank_chassis;
