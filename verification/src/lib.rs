//! A fixed-step integrator for the flight of a point mass under gravity.
//!
//! Every physical quantity is a decimal fixed-point number: an `i64` that
//! counts millionths of its unit. The arithmetic on such numbers is exact
//! integer arithmetic, so a trajectory is a sequence of integers that can be
//! stated, computed and proved without rounding beyond the two places where
//! the rules themselves round: a product and a square root are rounded down
//! to the resolution.
//!
//! - [`fixed`] holds the arithmetic,
//! - [`state`] the record of one sample and its mathematical value,
//! - [`dynamics`] the rule that takes a sample to the next,
//! - [`integrator`] the integrator itself, and
//! - [`laws`] what holds of every trajectory.

pub mod fixed;
pub mod state;
pub mod dynamics;
pub mod integrator;
pub mod laws;

pub use crate::dynamics::GRAVITY;
pub use crate::fixed::SCALE;
pub use crate::integrator::{projectile_physics, sample_count, SimulationError};
pub use crate::state::State;
