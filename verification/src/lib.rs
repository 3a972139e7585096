//! Fixed-timestep 2D pong physics core.
//!
//! The simulation advances in ticks; each tick runs three stages in order:
//! velocity integration, paddle movement with clamping, and circle-vs-box
//! collision resolution that reflects the ball's velocity and records a
//! collision event per struck collider.
//!
//! All lengths are measured in milliunits (one thousandth of a world unit),
//! time deltas in milliseconds, and velocities in milliunits per millisecond
//! (numerically equal to world units per second). With these units every
//! stage is exact integer arithmetic.

pub mod config;
pub mod geometry;
pub mod world;
pub mod systems;
pub mod laws;
