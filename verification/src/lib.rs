//! A grid-coupled flow/particle simulation engine.
//!
//! A rectangular domain is partitioned into a fixed grid of flow cells. A
//! population of particles and one player-controlled boat move through the
//! domain with toroidal wrapping; particle velocities are accumulated per
//! cell each frame and folded into the cells' smoothed flow field, which in
//! turn pulls the particles' velocities toward the local average.
//!
//! All quantities are fixed-point integers: one pixel is `SCALE` units, and
//! blend factors are given in thousandths (`SCALE` = a factor of one).
//! Window creation, input polling and drawing belong to the caller: the
//! engine takes plain input values and exposes read accessors to render
//! from.

pub mod boat;
pub mod config;
pub mod fixed;
pub mod grid;
pub mod particle;
pub mod random;
pub mod session;
pub mod sim;
pub mod trig;
