//! The per-frame systems over the whole particle population: advance all
//! positions, feed every particle's velocity into its cell, commit the grid,
//! and relax every particle toward its cell's committed flow — in that
//! order, so that every particle of a frame reads the same committed field.

use vstd::prelude::*;
use vstd::pervasive::VecAdditionalExecFns;
use crate::config::{CELLS_TOTAL, PARTICLE_CAP, SCALE};
use crate::fixed::{lerp, lerp_spec, Point2, Vec2i};
use crate::grid::{accumulated_cell, committed_cell, Cells, FluidCell};
use crate::particle::{
    advanced_particle, cell_index_spec, in_domain, relaxed_particle, vel_bounded, Particle,
};

verus! {

/// The grid after a sequence of particles has fed it, each particle's
/// velocity accumulated into the cell its position falls in, in order.
pub open spec fn fed_cells(cells: Seq<FluidCell>, ps: Seq<Particle>) -> Seq<FluidCell>
    decreases ps.len(),
{
    if ps.len() == 0 {
        cells
    } else {
        let prev = fed_cells(cells, ps.drop_last());
        let k = cell_index_spec(ps.last().position);
        prev.update(k, accumulated_cell(prev[k], ps.last().velocity))
    }
}

/// Every particle advanced one tick.
pub open spec fn advanced_all(ps: Seq<Particle>) -> Seq<Particle> {
    Seq::new(ps.len(), |i: int| advanced_particle(ps[i]))
}

/// Every cell committed.
pub open spec fn committed_all(cells: Seq<FluidCell>) -> Seq<FluidCell> {
    Seq::new(cells.len(), |i: int| committed_cell(cells[i]))
}

/// Every particle relaxed toward the committed flow of its cell.
pub open spec fn relaxed_all(ps: Seq<Particle>, cells: Seq<FluidCell>) -> Seq<Particle> {
    Seq::new(ps.len(), |i: int| relaxed_particle(ps[i], cells[cell_index_spec(ps[i].position)]))
}

/// The particles after one full simulation tick: advanced, then relaxed
/// against the field the advanced population fed and the grid committed.
pub open spec fn frame_particles(ps: Seq<Particle>, cells: Seq<FluidCell>) -> Seq<Particle> {
    relaxed_all(advanced_all(ps), frame_cells(ps, cells))
}

/// The grid after one full simulation tick: fed by the advanced particles,
/// then committed.
pub open spec fn frame_cells(ps: Seq<Particle>, cells: Seq<FluidCell>) -> Seq<FluidCell> {
    committed_all(fed_cells(cells, advanced_all(ps)))
}

/// Whether every particle of the sequence is well-formed.
pub open spec fn all_wf(ps: Seq<Particle>) -> bool {
    forall|i: int| 0 <= i < ps.len() ==> (#[trigger] ps[i]).wf()
}

/// Advance every particle's position by its velocity, wrapped toroidally.
pub fn move_particle(particles: &mut Vec<Particle>)
    requires
        all_wf(old(particles)@),
    ensures
        final(particles)@.len() == old(particles)@.len(),
        forall|i: int|
            0 <= i < final(particles)@.len() ==> final(particles)@[i] == advanced_particle(
                #[trigger] old(particles)@[i],
            ),
        all_wf(final(particles)@),
{
    let ghost orig = particles@;
    let n = particles.len();
    let mut i: usize = 0;
    while i < n
        invariant
            i <= n,
            n == particles@.len(),
            particles@.len() == orig.len(),
            all_wf(orig),
            forall|j: int| i <= j < n ==> particles@[j] == orig[j],
            forall|j: int|
                0 <= j < i ==> particles@[j] == advanced_particle(#[trigger] orig[j]),
            forall|j: int| 0 <= j < i ==> (#[trigger] particles@[j]).wf(),
        decreases n - i,
    {
        let mut p = particles[i];
        proof {
            assert(particles@[i as int] == orig[i as int]);
            assert(orig[i as int].wf());
        }
        p.update_pos();
        particles.set(i, p);
        i = i + 1;
    }
}

/// Feed the grid: accumulate every particle's velocity into the pending sum
/// of the cell it lies in. Commits nothing; the committed flow of every cell
/// is untouched.
pub fn update_grid_flow(particles: &Vec<Particle>, map: &mut Cells)
    requires
        old(map).wf(),
        all_wf(particles@),
        forall|c: int|
            0 <= c < old(map).all_cells@.len() ==> (#[trigger] old(
                map,
            ).all_cells@[c]).particle_count + particles@.len() <= u32::MAX,
    ensures
        final(map).wf(),
        final(map).all_cells@ == fed_cells(old(map).all_cells@, particles@),
        final(map).all_cells@.len() == old(map).all_cells@.len(),
        forall|c: int|
            0 <= c < final(map).all_cells@.len() ==> (#[trigger] final(map).all_cells@[c]).flow_v
                == old(map).all_cells@[c].flow_v,
{
    let ghost orig = map.all_cells@;
    let n = particles.len();
    let mut i: usize = 0;
    while i < n
        invariant
            i <= n,
            n == particles@.len(),
            all_wf(particles@),
            map.all_cells@.len() == orig.len(),
            orig.len() == CELLS_TOTAL,
            map.all_cells@ == fed_cells(orig, particles@.take(i as int)),
            forall|c: int| 0 <= c < orig.len() ==> (#[trigger] map.all_cells@[c]).wf(),
            forall|c: int|
                0 <= c < orig.len() ==> (#[trigger] map.all_cells@[c]).flow_v
                    == orig[c].flow_v,
            forall|c: int|
                0 <= c < orig.len() ==> (#[trigger] map.all_cells@[c]).particle_count
                    <= orig[c].particle_count + i,
            forall|c: int|
                0 <= c < orig.len() ==> (#[trigger] orig[c]).particle_count + n
                    <= u32::MAX,
        decreases n - i,
    {
        let p = particles[i];
        let idx = p.get_cell_index();
        let ghost prev = map.all_cells@;
        let mut cell = map.all_cells[idx];
        cell.update_flow(&p);
        map.all_cells.set(idx, cell);
        proof {
            assert(particles@.take(i as int + 1).drop_last() =~= particles@.take(i as int));
            assert(particles@.take(i as int + 1).last() == particles@[i as int]);
            assert(map.all_cells@ =~= fed_cells(orig, particles@.take(i as int + 1)));
        }
        i = i + 1;
    }
    proof {
        assert(particles@.take(n as int) =~= particles@);
    }
}

/// Commit the grid: fold every cell's pending average into its flow and
/// clear every accumulator.
pub fn apply_grid_updates(map: &mut Cells)
    requires
        old(map).wf(),
    ensures
        final(map).wf(),
        final(map).pending_clear(),
        final(map).all_cells@.len() == old(map).all_cells@.len(),
        forall|c: int|
            0 <= c < final(map).all_cells@.len() ==> final(map).all_cells@[c] == committed_cell(
                #[trigger] old(map).all_cells@[c],
            ),
{
    let ghost orig = map.all_cells@;
    let n = map.all_cells.len();
    let mut i: usize = 0;
    while i < n
        invariant
            i <= n,
            n == map.all_cells@.len(),
            map.all_cells@.len() == orig.len(),
            forall|c: int| 0 <= c < orig.len() ==> (#[trigger] orig[c]).wf(),
            forall|c: int| i <= c < n ==> map.all_cells@[c] == orig[c],
            forall|c: int|
                0 <= c < i ==> map.all_cells@[c] == committed_cell(#[trigger] orig[c]),
            forall|c: int| 0 <= c < i ==> (#[trigger] map.all_cells@[c]).wf(),
            forall|c: int| 0 <= c < i ==> (#[trigger] map.all_cells@[c]).pending_zero(),
        decreases n - i,
    {
        let mut cell = map.all_cells[i];
        proof {
            assert(map.all_cells@[i as int] == orig[i as int]);
            assert(orig[i as int].wf());
        }
        cell.apply_flow_update();
        map.all_cells.set(i, cell);
        i = i + 1;
    }
}

/// Relax every particle: blend its velocity toward the committed flow of the
/// cell it lies in.
pub fn update_particles_vectors(particles: &mut Vec<Particle>, map: &Cells)
    requires
        map.wf(),
        all_wf(old(particles)@),
    ensures
        final(particles)@.len() == old(particles)@.len(),
        forall|i: int|
            0 <= i < final(particles)@.len() ==> final(particles)@[i] == relaxed_particle(
                #[trigger] old(particles)@[i],
                map.all_cells@[cell_index_spec(old(particles)@[i].position)],
            ),
        all_wf(final(particles)@),
{
    let ghost orig = particles@;
    let n = particles.len();
    let mut i: usize = 0;
    while i < n
        invariant
            i <= n,
            n == particles@.len(),
            particles@.len() == orig.len(),
            all_wf(orig),
            map.wf(),
            forall|j: int| i <= j < n ==> particles@[j] == orig[j],
            forall|j: int|
                0 <= j < i ==> particles@[j] == relaxed_particle(
                    #[trigger] orig[j],
                    map.all_cells@[cell_index_spec(orig[j].position)],
                ),
            forall|j: int| 0 <= j < i ==> (#[trigger] particles@[j]).wf(),
        decreases n - i,
    {
        let mut p = particles[i];
        proof {
            assert(particles@[i as int] == orig[i as int]);
            assert(orig[i as int].wf());
        }
        let idx = p.get_cell_index();
        let cell = map.all_cells[idx];
        p.update_velocity_from_cell(&cell);
        particles.set(i, p);
        i = i + 1;
    }
}

/// Whether a position lies within `radius` of a center, by squared
/// straight-line distance.
pub open spec fn within_radius(p: Point2, center: Point2, radius: int) -> bool {
    (p.x - center.x) * (p.x - center.x) + (p.y - center.y) * (p.y - center.y) <= radius
        * radius
}

/// A particle after an external pull: velocity blended toward the target if
/// the particle lies within the radius, untouched otherwise.
pub open spec fn pulled_particle(
    p: Particle,
    center: Point2,
    velocity_target: Vec2i,
    radius: int,
    alpha_pull: int,
) -> Particle {
    if within_radius(p.position, center, radius) {
        Particle {
            velocity: Vec2i {
                x: lerp_spec(p.velocity.x as int, velocity_target.x as int, alpha_pull) as i64,
                y: lerp_spec(p.velocity.y as int, velocity_target.y as int, alpha_pull) as i64,
            },
            position: p.position,
            size: p.size,
        }
    } else {
        p
    }
}

/// Blend the velocity of every particle within `radius` of `center` toward
/// `velocity_target` at rate `alpha_pull`; particles outside are untouched.
pub fn apply_external_pull(
    particles: &mut Vec<Particle>,
    center: Point2,
    velocity_target: Vec2i,
    radius: i64,
    alpha_pull: i64,
)
    requires
        all_wf(old(particles)@),
        in_domain(center),
        vel_bounded(velocity_target),
        0 <= radius <= 1_000_000,
        0 <= alpha_pull <= SCALE,
    ensures
        final(particles)@.len() == old(particles)@.len(),
        forall|i: int|
            0 <= i < final(particles)@.len() ==> final(particles)@[i] == pulled_particle(
                #[trigger] old(particles)@[i],
                center,
                velocity_target,
                radius as int,
                alpha_pull as int,
            ),
        all_wf(final(particles)@),
{
    let ghost orig = particles@;
    let n = particles.len();
    let mut i: usize = 0;
    while i < n
        invariant
            i <= n,
            n == particles@.len(),
            particles@.len() == orig.len(),
            all_wf(orig),
            in_domain(center),
            vel_bounded(velocity_target),
            0 <= radius <= 1_000_000,
            0 <= alpha_pull <= SCALE,
            forall|j: int| i <= j < n ==> particles@[j] == orig[j],
            forall|j: int|
                0 <= j < i ==> particles@[j] == pulled_particle(
                    #[trigger] orig[j],
                    center,
                    velocity_target,
                    radius as int,
                    alpha_pull as int,
                ),
            forall|j: int| 0 <= j < i ==> (#[trigger] particles@[j]).wf(),
        decreases n - i,
    {
        let mut p = particles[i];
        proof {
            assert(particles@[i as int] == orig[i as int]);
            assert(orig[i as int].wf());
        }
        let dx = p.position.x - center.x;
        let dy = p.position.y - center.y;
        proof {
            assert(0 <= dx * dx <= 409_600_000_000 && 0 <= dy * dy <= 129_600_000_000
                && 0 <= radius * radius <= 1_000_000_000_000) by (nonlinear_arith)
                requires
                    -640_000 <= dx <= 640_000,
                    -360_000 <= dy <= 360_000,
                    0 <= radius <= 1_000_000;
        }
        if dx * dx + dy * dy <= radius * radius {
            p.velocity.x = lerp(p.velocity.x, velocity_target.x, alpha_pull);
            p.velocity.y = lerp(p.velocity.y, velocity_target.y, alpha_pull);
        }
        particles.set(i, p);
        i = i + 1;
    }
}

/// Append one particle to the set.
pub fn spawn(particles: &mut Vec<Particle>, position: Point2, velocity: Vec2i)
    requires
        all_wf(old(particles)@),
        old(particles)@.len() < PARTICLE_CAP,
        in_domain(position),
        vel_bounded(velocity),
    ensures
        final(particles)@ == old(particles)@.push(
            Particle { position, size: SCALE, velocity },
        ),
        all_wf(final(particles)@),
{
    particles.push(Particle { position, size: SCALE, velocity });
}

/// Remove every particle; used on session reset.
pub fn despawn_all(particles: &mut Vec<Particle>)
    ensures
        final(particles)@.len() == 0,
{
    particles.clear();
}

} // verus!
