//! Compile-time configuration: domain size, grid resolution, fixed-point
//! scale, and the smoothing rates of the engine.

use vstd::prelude::*;

verus! {

/// Fixed-point scale: the number of units in one pixel, and the denominator
/// of every blend factor (a factor of `SCALE` blends all the way).
pub const SCALE: i64 = 1000;

/// Domain width in units (640 pixels).
pub const WIDTH: i64 = 640 * SCALE;

/// Domain height in units (360 pixels).
pub const HEIGHT: i64 = 360 * SCALE;

/// Number of grid cells along the x axis.
pub const CELLS_X: i64 = 20;

/// Number of grid cells along the y axis.
pub const CELLS_Y: i64 = 12;

/// Total number of grid cells.
pub const CELLS_TOTAL: i64 = CELLS_X * CELLS_Y;

/// Width of one grid cell in units: `CELLS_X` cells cover `WIDTH` exactly.
pub const CELL_WIDTH: i64 = 32 * SCALE;

/// Height of one grid cell in units: `CELLS_Y` cells cover `HEIGHT` exactly.
pub const CELL_HEIGHT: i64 = 30 * SCALE;

/// Blend factor of a cell's committed flow toward the frame's local average
/// velocity (0.1 of the gap per commit).
pub const ALPHA_GRID: i64 = 100;

/// Blend factor of a particle's velocity toward its cell's committed flow
/// (0.03 of the gap per frame).
pub const ALPHA_PARTICLE: i64 = 30;

/// Blend factor of the boat's velocity toward its thrust vector.
pub const ALPHA_THRUST: i64 = 100;

/// Blend factor of the drag tracking point toward the pointer.
pub const ALPHA_TRACK: i64 = 30;

/// Base thrust magnitude in units (0.1 of a pixel per tick).
pub const THRUST_BASE: i64 = 100;

/// Largest magnitude either argument of `lerp` may take; the scaled gap
/// between two such values still fits in an `i64`.
pub const LERP_MAX: i64 = 4_000_000_000_000_000;

/// Largest magnitude a particle velocity component may take. Far beyond any
/// reachable speed; it keeps every per-cell accumulation inside `i64`.
pub const VEL_MAX: i64 = 2_000_000_000;

/// Largest magnitude a boat velocity component may take. Thrust from a
/// velocity within `VEL_MAX` stays within this bound.
pub const BOAT_VEL_MAX: i64 = 3_000_000_000;

/// Largest population the particle set accepts.
pub const PARTICLE_CAP: usize = 100_000;

/// Particle population created at session start.
pub const INITIAL_PARTICLES: usize = 8;

/// Half a turn of the boat's heading, in milliradians.
pub const PI_MRAD: i64 = 3142;

/// A quarter turn of the boat's heading, in milliradians.
pub const HALF_PI_MRAD: i64 = 1571;

/// One full turn of the boat's heading, in milliradians.
pub const TAU_MRAD: i64 = 2 * PI_MRAD;

/// Heading change of one turn input, in milliradians (0.1 radians).
pub const TURN_STEP: i64 = 100;

/// Scaled factor from drag offset to spawned particle velocity (0.03).
pub const SPRAY_RATE: i64 = 30;

/// Scaled factor from drag offset to the pull velocity target (0.2).
pub const PULL_RATE: i64 = 200;

/// Blend factor applied by an external pull to a particle's velocity.
pub const ALPHA_PULL: i64 = 20;

} // verus!
