//! A closed-loop waypoint steering controller.
//!
//! The controller consumes position/heading telemetry, keeps an ordered
//! queue of waypoints, and on every tick computes a turn command (a
//! clamped magnitude plus a direction) and a walk command (idle, walk or
//! run) that converge the controlled body onto the active waypoint.
//!
//! All quantities are fixed point: world coordinates are carried in
//! milliunits (one thousandth of a world unit) and angles in centidegrees
//! (one hundredth of a degree), so that every step of the decision
//! algorithm is exact integer arithmetic.

pub mod angles;
pub mod atan;
pub mod command;
pub mod controller;
pub mod vectors;
