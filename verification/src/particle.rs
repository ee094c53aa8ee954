//! Passive point particles: toroidally wrapped motion, the cell a particle
//! lies in, and the blend of a particle's velocity toward its cell's flow.

use vstd::prelude::*;
use crate::config::{
    ALPHA_PARTICLE, CELLS_TOTAL, CELLS_X, CELLS_Y, CELL_HEIGHT, CELL_WIDTH, HEIGHT, SCALE,
    VEL_MAX, WIDTH,
};
use crate::fixed::{lemma_div_below, lerp, lerp_spec, wrap_coord, wrap_spec, Point2, Vec2i};
use vstd::arithmetic::div_mod::lemma_mod_division_less_than_divisor;
use crate::grid::FluidCell;
use crate::random::random_in_range;

verus! {

/// Whether a position lies inside the simulation domain.
pub open spec fn in_domain(p: Point2) -> bool {
    &&& 0 <= p.x < WIDTH
    &&& 0 <= p.y < HEIGHT
}

/// Whether a velocity's components are within the engine's speed bound.
pub open spec fn vel_bounded(v: Vec2i) -> bool {
    &&& -VEL_MAX <= v.x <= VEL_MAX
    &&& -VEL_MAX <= v.y <= VEL_MAX
}

/// A point agent carried by, and feeding, the flow field.
#[derive(Clone, Copy, Debug, PartialEq, Eq, Structural)]
pub struct Particle {
    pub velocity: Vec2i,
    pub position: Point2,
    pub size: i64,
}

/// The grid cell a position falls in, counted row by row.
pub open spec fn cell_index_spec(p: Point2) -> int {
    (p.y / CELL_HEIGHT) * CELLS_X + p.x / CELL_WIDTH
}

/// A particle one tick later: position advanced by the velocity and wrapped
/// toroidally into the domain.
pub open spec fn advanced_particle(p: Particle) -> Particle {
    Particle {
        velocity: p.velocity,
        position: Point2 {
            x: wrap_spec(p.position.x + p.velocity.x, WIDTH as int) as i64,
            y: wrap_spec(p.position.y + p.velocity.y, HEIGHT as int) as i64,
        },
        size: p.size,
    }
}

/// A particle after reading a cell: velocity blended toward the cell's
/// committed flow by `ALPHA_PARTICLE`.
pub open spec fn relaxed_particle(p: Particle, cell: FluidCell) -> Particle {
    Particle {
        velocity: Vec2i {
            x: lerp_spec(p.velocity.x as int, cell.flow_v.x as int, ALPHA_PARTICLE as int) as i64,
            y: lerp_spec(p.velocity.y as int, cell.flow_v.y as int, ALPHA_PARTICLE as int) as i64,
        },
        position: p.position,
        size: p.size,
    }
}

/// Wrap invariant: after an advance the position lies inside the domain —
/// for any pre-wrap position and any velocity magnitude, including ones far
/// larger than the domain extent.
pub proof fn lemma_particle_wrap_invariant(p: Particle)
    ensures
        in_domain(advanced_particle(p).position),
{
    lemma_mod_division_less_than_divisor(p.position.x + p.velocity.x, WIDTH as int);
    lemma_mod_division_less_than_divisor(p.position.y + p.velocity.y, HEIGHT as int);
}

impl Particle {
    /// Well-formedness: the position lies in the domain and the velocity is
    /// within the speed bound.
    pub open spec fn wf(self) -> bool {
        &&& in_domain(self.position)
        &&& vel_bounded(self.velocity)
    }

    /// Advance the position by the velocity, then wrap each axis
    /// independently into the domain; the wrap invariant holds afterward for
    /// any velocity magnitude.
    pub fn update_pos(&mut self)
        requires
            old(self).wf(),
        ensures
            *final(self) == advanced_particle(*old(self)),
            final(self).wf(),
    {
        let nx = self.position.x + self.velocity.x;
        let ny = self.position.y + self.velocity.y;
        self.position.x = wrap_coord(nx, WIDTH);
        self.position.y = wrap_coord(ny, HEIGHT);
    }

    /// The index of the cell this particle lies in. An index pushed out of
    /// range by a rounding fault would be clamped to the last cell; for an
    /// in-domain position the clamp provably never fires.
    pub fn get_cell_index(&self) -> (ret: usize)
        requires
            in_domain(self.position),
        ensures
            ret == cell_index_spec(self.position),
            ret < CELLS_TOTAL,
    {
        let cell_width = CELL_WIDTH;
        let cell_height = CELL_HEIGHT;
        proof {
            lemma_div_below(self.position.x as int, CELL_WIDTH as int, CELLS_X as int);
            lemma_div_below(self.position.y as int, CELL_HEIGHT as int, CELLS_Y as int);
        }
        let particle_coord_x = (self.position.x / cell_width) as usize;
        let particle_coord_y = (self.position.y / cell_height) as usize;
        let mut ret = particle_coord_y * (CELLS_X as usize) + particle_coord_x;
        if ret >= (CELLS_X * CELLS_Y) as usize {
            ret = (CELLS_X * CELLS_Y - 1) as usize;
        }
        ret
    }

    /// Blend this particle's velocity toward the committed flow of the cell
    /// it lies in, by `ALPHA_PARTICLE` of the gap.
    pub fn update_velocity_from_cell(&mut self, cell: &FluidCell)
        requires
            old(self).wf(),
            cell.wf(),
        ensures
            *final(self) == relaxed_particle(*old(self), *cell),
            final(self).wf(),
    {
        self.velocity.x = lerp(self.velocity.x, cell.flow_v.x, ALPHA_PARTICLE);
        self.velocity.y = lerp(self.velocity.y, cell.flow_v.y, ALPHA_PARTICLE);
    }
}

/// A new particle at a random position in the domain, with a small random
/// velocity of at most one pixel per tick on each axis, of unit size.
pub fn new_particle() -> (p: Particle)
    ensures
        p.wf(),
        p.size == SCALE,
        -SCALE <= p.velocity.x <= SCALE,
        -SCALE <= p.velocity.y <= SCALE,
{
    Particle {
        position: Point2 {
            x: random_in_range(0, WIDTH - 1),
            y: random_in_range(0, HEIGHT - 1),
        },
        size: SCALE,
        velocity: Vec2i {
            x: random_in_range(-SCALE, SCALE),
            y: random_in_range(-SCALE, SCALE),
        },
    }
}

/// A particle at the given position with the given velocity, of unit size.
pub fn new_particle_at(x: i64, y: i64, vx: i64, vy: i64) -> (p: Particle)
    requires
        0 <= x < WIDTH,
        0 <= y < HEIGHT,
        -VEL_MAX <= vx <= VEL_MAX,
        -VEL_MAX <= vy <= VEL_MAX,
    ensures
        p == (Particle {
            position: Point2 { x, y },
            size: SCALE,
            velocity: Vec2i { x: vx, y: vy },
        }),
        p.wf(),
{
    Particle { position: Point2 { x, y }, size: SCALE, velocity: Vec2i { x: vx, y: vy } }
}

} // verus!
