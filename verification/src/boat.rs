//! The player-controlled boat: heading, speed-coupled thrust, and the same
//! toroidal motion rule as the particles.
//!
//! The heading is a fixed-point angle in milliradians; `thrust` derives its
//! direction from it with the engine's fixed-point trigonometry, and
//! `render_pose` hands position and heading out for the external renderer to
//! draw from.

use vstd::prelude::*;
use crate::config::{
    ALPHA_THRUST, BOAT_VEL_MAX, HEIGHT, SCALE, TAU_MRAD, THRUST_BASE, VEL_MAX, WIDTH,
};
use crate::fixed::{
    div_trunc, isqrt, lemma_div_trunc_bound, lemma_sqrt_floor_bounds, lerp, lerp_spec,
    sqrt_floor, wrap_coord, wrap_spec, Point2, Vec2i,
};
use crate::particle::in_domain;
use crate::trig::{cos_mrad, cos_mrad_spec, sin_mrad, sin_mrad_spec};

verus! {

/// The player's body: position, velocity, heading, and the session-terminal
/// health value.
#[derive(Clone, Copy, Debug, PartialEq, Eq, Structural)]
pub struct Boat {
    pub loc: Point2,
    pub vel: Vec2i,
    pub health: i64,
    pub facing: i64,
}

/// The magnitude of the boat's thrust: a fixed base plus the current speed,
/// so a push is felt at rest and saturates at high speed.
pub open spec fn thrust_magnitude(v: Vec2i) -> int {
    THRUST_BASE + sqrt_floor((v.x * v.x + v.y * v.y) as nat)
}

/// The boat after one thrust along its heading's unit direction (fixed
/// point, `SCALE` = length one): velocity blended toward the thrust vector
/// by `ALPHA_THRUST`.
pub open spec fn thrusted_boat(b: Boat) -> Boat {
    let mag = thrust_magnitude(b.vel);
    let tx = div_trunc(cos_mrad_spec(b.facing as int) * mag, SCALE as int);
    let ty = div_trunc(sin_mrad_spec(b.facing as int) * mag, SCALE as int);
    Boat {
        loc: b.loc,
        vel: Vec2i {
            x: lerp_spec(b.vel.x as int, tx, ALPHA_THRUST as int) as i64,
            y: lerp_spec(b.vel.y as int, ty, ALPHA_THRUST as int) as i64,
        },
        health: b.health,
        facing: b.facing,
    }
}

/// The boat one tick later: position advanced by the velocity and wrapped
/// toroidally into the domain.
pub open spec fn advanced_boat(b: Boat) -> Boat {
    Boat {
        loc: Point2 {
            x: wrap_spec(b.loc.x + b.vel.x, WIDTH as int) as i64,
            y: wrap_spec(b.loc.y + b.vel.y, HEIGHT as int) as i64,
        },
        vel: b.vel,
        health: b.health,
        facing: b.facing,
    }
}

/// Wrap invariant for the agent: after an advance the boat's position lies
/// inside the domain, for any velocity magnitude.
pub proof fn lemma_boat_wrap_invariant(b: Boat)
    ensures
        in_domain(advanced_boat(b).loc),
{
    vstd::arithmetic::div_mod::lemma_mod_division_less_than_divisor(
        b.loc.x + b.vel.x,
        WIDTH as int,
    );
    vstd::arithmetic::div_mod::lemma_mod_division_less_than_divisor(
        b.loc.y + b.vel.y,
        HEIGHT as int,
    );
}

impl Boat {
    /// Well-formedness: position in the domain, velocity within the boat's
    /// speed bound, heading wrapped into one turn.
    pub open spec fn wf(self) -> bool {
        &&& in_domain(self.loc)
        &&& -BOAT_VEL_MAX <= self.vel.x <= BOAT_VEL_MAX
        &&& -BOAT_VEL_MAX <= self.vel.y <= BOAT_VEL_MAX
        &&& 0 <= self.facing < TAU_MRAD
    }

    /// Turn the heading by `delta` milliradians, wrapping it toroidally into
    /// `[0, TAU_MRAD)`.
    pub fn turn(&mut self, delta: i64)
        requires
            old(self).wf(),
            -1_000_000 <= delta <= 1_000_000,
        ensures
            final(self).facing == wrap_spec(old(self).facing + delta, TAU_MRAD as int),
            final(self).loc == old(self).loc,
            final(self).vel == old(self).vel,
            final(self).health == old(self).health,
            final(self).wf(),
    {
        self.facing = wrap_coord(self.facing + delta, TAU_MRAD);
    }

    /// Blend the velocity toward a thrust vector along the heading's unit
    /// direction, whose magnitude couples to the current speed.
    pub fn thrust(&mut self)
        requires
            old(self).wf(),
            -VEL_MAX <= old(self).vel.x <= VEL_MAX,
            -VEL_MAX <= old(self).vel.y <= VEL_MAX,
        ensures
            *final(self) == thrusted_boat(*old(self)),
            final(self).wf(),
    {
        let dir_x = cos_mrad(self.facing);
        let dir_y = sin_mrad(self.facing);
        let vx = self.vel.x;
        let vy = self.vel.y;
        proof {
            assert(0 <= vx * vx <= 4_000_000_000_000_000_000 && 0 <= vy * vy
                <= 4_000_000_000_000_000_000) by (nonlinear_arith)
                requires -VEL_MAX <= vx <= VEL_MAX && -VEL_MAX <= vy <= VEL_MAX;
        }
        let sq = (vx * vx) as u64 + (vy * vy) as u64;
        let speed = isqrt(sq) as i64;
        proof {
            lemma_sqrt_floor_bounds(sq as nat);
            assert(sqrt_floor(sq as nat) < 2_900_000_000) by (nonlinear_arith)
                requires
                    sqrt_floor(sq as nat) * sqrt_floor(sq as nat) <= sq as nat,
                    sq as nat <= 8_000_000_000_000_000_000;
        }
        let thrust_mag = THRUST_BASE + speed;
        proof {
            assert(-(SCALE * thrust_mag) <= dir_x * thrust_mag <= SCALE * thrust_mag
                && -(SCALE * thrust_mag) <= dir_y * thrust_mag <= SCALE
                * thrust_mag) by (nonlinear_arith)
                requires thrust_mag >= 0 && -SCALE <= dir_x <= SCALE && -SCALE <= dir_y
                    <= SCALE;
            lemma_div_trunc_bound(dir_x as int * thrust_mag as int, SCALE as int,
                thrust_mag as int);
            lemma_div_trunc_bound(dir_y as int * thrust_mag as int, SCALE as int,
                thrust_mag as int);
        }
        let thrust_x = (dir_x * thrust_mag) / SCALE;
        let thrust_y = (dir_y * thrust_mag) / SCALE;
        self.vel.x = lerp(self.vel.x, thrust_x, ALPHA_THRUST);
        self.vel.y = lerp(self.vel.y, thrust_y, ALPHA_THRUST);
    }

    /// Advance the position by the velocity, wrapping each axis toroidally
    /// into the domain, exactly as a particle does.
    pub fn advance(&mut self)
        requires
            old(self).wf(),
        ensures
            *final(self) == advanced_boat(*old(self)),
            final(self).wf(),
    {
        let nx = self.loc.x + self.vel.x;
        let ny = self.loc.y + self.vel.y;
        self.loc.x = wrap_coord(nx, WIDTH);
        self.loc.y = wrap_coord(ny, HEIGHT);
    }

    /// The pose the external renderer draws the boat from: position and
    /// heading. A pure read.
    pub fn render_pose(&self) -> (pose: (Point2, i64))
        ensures
            pose.0 == self.loc,
            pose.1 == self.facing,
    {
        (self.loc, self.facing)
    }
}

/// A boat at the given position with the given velocity, full health, and a
/// heading of zero.
pub fn new_boat(x: i64, y: i64, vx: i64, vy: i64) -> (b: Boat)
    requires
        0 <= x < WIDTH,
        0 <= y < HEIGHT,
        -BOAT_VEL_MAX <= vx <= BOAT_VEL_MAX,
        -BOAT_VEL_MAX <= vy <= BOAT_VEL_MAX,
    ensures
        b == (Boat {
            loc: Point2 { x, y },
            vel: Vec2i { x: vx, y: vy },
            health: SCALE,
            facing: 0,
        }),
        b.wf(),
{
    Boat { loc: Point2 { x, y }, vel: Vec2i { x: vx, y: vy }, health: SCALE, facing: 0 }
}

} // verus!
