//! Per-frame simulation of a side-scrolling arcade game: a bird that falls
//! and jumps, pipe pairs that scroll towards it, collisions and scoring.
//!
//! All geometry is integer: lengths are in subpixels (a millionth of a pixel),
//! time in microseconds and speeds in pixels per second, so that a speed
//! multiplied by a time step is a displacement in subpixels.

pub mod kinematics;
pub mod collision;
pub mod components;
pub mod pipes;
pub mod resources;
pub mod random;
pub mod gameloop;
pub mod laws;
