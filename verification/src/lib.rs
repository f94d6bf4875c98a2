//! A verified 2D rigid-body / particle physics core: bodies under gravity,
//! boundary collisions, impulse-based pairwise collision response, spring
//! constraints, and a pointer-driven grab-and-throw interaction.
//!
//! All state is held in fixed-point integers: positions and velocities in
//! thousandths of a pixel (and per second), dimensionless coefficients such
//! as restitution and friction in thousandths, timesteps in milliseconds.
//! Every update formula is stated exactly in the contracts over truncating
//! integer division.

pub mod math;
pub mod vec2;
pub mod body;
pub mod collision;
pub mod spring;
pub mod interact;
pub mod world;
