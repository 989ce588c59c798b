//! A 2D platformer jump controller: ground-contact classification, a five-way
//! jump state machine, closed-form jump kinematics, and the per-tick driver
//! that turns input and physics state into velocity and force effects.
//!
//! All physical scalars are fixed-point: an `i64` counting thousandths of the
//! underlying unit (metres, seconds, or a dimensionless coefficient). The host
//! converts to and from its own floating-point representation at the boundary.

pub mod contact;
pub mod driver;
pub mod fixed;
pub mod player;
pub mod settings;
pub mod status;
pub mod vec2;

use vstd::prelude::*;

verus! {

} // verus!
