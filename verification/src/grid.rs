//! The flow grid: per-cell accumulate/commit two-phase update.
//!
//! During a frame every particle adds its velocity to its cell's pending
//! accumulator (`update_flow`); committing (`apply_flow_update`) folds each
//! cell's pending average into the persistent smoothed flow and clears the
//! accumulator. Every particle of a frame therefore samples the same
//! pre-update field, and the committed flow does not depend on the order in
//! which the particles contributed.

use vstd::prelude::*;
use crate::config::{ALPHA_GRID, CELLS_TOTAL, CELLS_X, CELLS_Y, SCALE, VEL_MAX};
use crate::fixed::{div_trunc, lemma_div_trunc_bound, lemma_lerp_bounds, lemma_lerp_strictly_between, lerp, lerp_spec, Vec2i};
use crate::particle::Particle;
use crate::random::random_in_range;

verus! {

/// One grid cell: the committed smoothed flow, this frame's pending velocity
/// sum, and the number of contributors behind that sum.
#[derive(Clone, Copy, Debug, PartialEq, Eq, Structural)]
pub struct FluidCell {
    pub flow_v: Vec2i,
    pub flow_updates: Vec2i,
    pub particle_count: u32,
}

/// The committed flow of one axis: with contributors, the old flow blended
/// toward their truncated average by `ALPHA_GRID`; without, the old flow.
pub open spec fn committed_flow(flow: int, pending: int, count: int) -> int {
    if count > 0 {
        lerp_spec(flow, div_trunc(pending, count), ALPHA_GRID as int)
    } else {
        flow
    }
}

/// A cell after a commit: flow folded, accumulators cleared.
pub open spec fn committed_cell(c: FluidCell) -> FluidCell {
    FluidCell {
        flow_v: Vec2i {
            x: committed_flow(
                c.flow_v.x as int,
                c.flow_updates.x as int,
                c.particle_count as int,
            ) as i64,
            y: committed_flow(
                c.flow_v.y as int,
                c.flow_updates.y as int,
                c.particle_count as int,
            ) as i64,
        },
        flow_updates: Vec2i { x: 0, y: 0 },
        particle_count: 0,
    }
}

/// A cell after one contribution: the velocity added to the pending sum, the
/// contributor count raised by one, the committed flow untouched.
pub open spec fn accumulated_cell(c: FluidCell, v: Vec2i) -> FluidCell {
    FluidCell {
        flow_v: c.flow_v,
        flow_updates: Vec2i {
            x: (c.flow_updates.x + v.x) as i64,
            y: (c.flow_updates.y + v.y) as i64,
        },
        particle_count: (c.particle_count + 1) as u32,
    }
}

impl FluidCell {
    /// Well-formedness: the committed flow is within the speed bound and the
    /// pending sum is bounded by the contributor count times the bound, so a
    /// cell with no contributors has a zero pending sum.
    pub open spec fn wf(self) -> bool {
        &&& -VEL_MAX <= self.flow_v.x <= VEL_MAX
        &&& -VEL_MAX <= self.flow_v.y <= VEL_MAX
        &&& -(self.particle_count * VEL_MAX) <= self.flow_updates.x
            <= self.particle_count * VEL_MAX
        &&& -(self.particle_count * VEL_MAX) <= self.flow_updates.y
            <= self.particle_count * VEL_MAX
    }

    /// Whether the accumulators are clear, as they are between frames.
    pub open spec fn pending_zero(self) -> bool {
        &&& self.flow_updates.x == 0
        &&& self.flow_updates.y == 0
        &&& self.particle_count == 0
    }

    /// Record one particle's contribution to this cell's pending average.
    /// Callable any number of times per frame; each call widens the sample.
    pub fn update_flow(&mut self, particle: &Particle)
        requires
            old(self).wf(),
            particle.wf(),
            old(self).particle_count < u32::MAX,
        ensures
            *final(self) == accumulated_cell(*old(self), particle.velocity),
            final(self).wf(),
    {
        self.flow_updates.x = self.flow_updates.x + particle.velocity.x;
        self.flow_updates.y = self.flow_updates.y + particle.velocity.y;
        self.particle_count = self.particle_count + 1;
    }

    /// Fold this frame's pending average into the committed flow, then clear
    /// the accumulators unconditionally. A cell with no contributors keeps
    /// its flow unchanged.
    pub fn apply_flow_update(&mut self)
        requires
            old(self).wf(),
        ensures
            *final(self) == committed_cell(*old(self)),
            final(self).wf(),
            final(self).pending_zero(),
            old(self).particle_count == 0 ==> final(self).flow_v == old(self).flow_v,
    {
        if self.particle_count > 0 {
            let count = self.particle_count as i64;
            proof {
                lemma_div_trunc_bound(
                    self.flow_updates.x as int,
                    count as int,
                    VEL_MAX as int,
                );
                lemma_div_trunc_bound(
                    self.flow_updates.y as int,
                    count as int,
                    VEL_MAX as int,
                );
            }
            let avg_x = self.flow_updates.x / count;
            let avg_y = self.flow_updates.y / count;
            self.flow_v.x = lerp(self.flow_v.x, avg_x, ALPHA_GRID);
            self.flow_v.y = lerp(self.flow_v.y, avg_y, ALPHA_GRID);
        }
        self.flow_updates.x = 0;
        self.flow_updates.y = 0;
        self.particle_count = 0;
    }
}

/// The cell after a whole sequence of velocity contributions, in order.
pub open spec fn cell_fed(c: FluidCell, vs: Seq<Vec2i>) -> FluidCell
    decreases vs.len(),
{
    if vs.len() == 0 {
        c
    } else {
        accumulated_cell(cell_fed(c, vs.drop_last()), vs.last())
    }
}

/// The mathematical sum of the x components of a velocity sequence.
pub open spec fn sum_x(vs: Seq<Vec2i>) -> int
    decreases vs.len(),
{
    if vs.len() == 0 {
        0
    } else {
        sum_x(vs.drop_last()) + vs.last().x
    }
}

/// The mathematical sum of the y components of a velocity sequence.
pub open spec fn sum_y(vs: Seq<Vec2i>) -> int
    decreases vs.len(),
{
    if vs.len() == 0 {
        0
    } else {
        sum_y(vs.drop_last()) + vs.last().y
    }
}

/// Removing one element takes exactly its components out of the sums.
proof fn lemma_sum_remove(vs: Seq<Vec2i>, i: int)
    requires
        0 <= i < vs.len(),
    ensures
        sum_x(vs.remove(i)) == sum_x(vs) - vs[i].x,
        sum_y(vs.remove(i)) == sum_y(vs) - vs[i].y,
    decreases vs.len(),
{
    if i == vs.len() - 1 {
        assert(vs.remove(i) =~= vs.drop_last());
    } else {
        assert(vs.remove(i).drop_last() =~= vs.drop_last().remove(i));
        assert(vs.remove(i).last() == vs.last());
        lemma_sum_remove(vs.drop_last(), i);
    }
}

/// Order independence of accumulation: two contribution sequences that are
/// permutations of each other — the same multiset of velocities — produce
/// the same pending sums and the same contributor count.
pub proof fn lemma_accumulation_order_independent(vs1: Seq<Vec2i>, vs2: Seq<Vec2i>)
    requires
        vs1.to_multiset() == vs2.to_multiset(),
    ensures
        vs1.len() == vs2.len(),
        sum_x(vs1) == sum_x(vs2),
        sum_y(vs1) == sum_y(vs2),
    decreases vs1.len(),
{
    broadcast use vstd::seq_lib::group_to_multiset_ensures;
    broadcast use vstd::multiset::group_multiset_axioms;

    if vs1.len() == 0 {
        assert(vs2.len() == vs2.to_multiset().len());
        assert(vs2.len() == 0);
    } else {
        let v = vs1.last();
        let prefix = vs1.drop_last();
        assert(vs1 =~= prefix.push(v));
        assert(prefix.push(v).to_multiset() =~= prefix.to_multiset().insert(v));
        assert(vs1.to_multiset().count(v) > 0);
        assert(vs2.contains(v));
        let j = choose|j: int| 0 <= j < vs2.len() && vs2[j] == v;
        let trimmed = vs2.remove(j);
        assert(trimmed.to_multiset() =~= vs2.to_multiset().remove(v));
        assert(prefix.to_multiset() =~= vs1.to_multiset().remove(v));
        lemma_accumulation_order_independent(prefix, trimmed);
        lemma_sum_remove(vs2, j);
    }
}

/// Feeding a cell a sequence of bounded velocities adds their sums to the
/// pending accumulator and their number to the contributor count, and leaves
/// the committed flow untouched.
pub proof fn lemma_cell_fed_pending(c: FluidCell, vs: Seq<Vec2i>)
    requires
        c.wf(),
        forall|i: int|
            0 <= i < vs.len() ==> -VEL_MAX <= (#[trigger] vs[i]).x <= VEL_MAX && -VEL_MAX
                <= vs[i].y <= VEL_MAX,
        c.particle_count + vs.len() <= u32::MAX,
    ensures
        cell_fed(c, vs).flow_v == c.flow_v,
        cell_fed(c, vs).particle_count == c.particle_count + vs.len(),
        cell_fed(c, vs).flow_updates.x == c.flow_updates.x + sum_x(vs),
        cell_fed(c, vs).flow_updates.y == c.flow_updates.y + sum_y(vs),
        cell_fed(c, vs).wf(),
    decreases vs.len(),
{
    if vs.len() > 0 {
        lemma_cell_fed_pending(c, vs.drop_last());
        let prev = cell_fed(c, vs.drop_last());
        assert(-(prev.particle_count * VEL_MAX) - VEL_MAX >= -((prev.particle_count + 1)
            * VEL_MAX) && prev.particle_count * VEL_MAX + VEL_MAX <= (prev.particle_count
            + 1) * VEL_MAX) by (nonlinear_arith);
    }
}

/// Order independence through the commit: feeding a cell the same multiset
/// of velocities in any order yields the same cell, and hence the same
/// committed flow.
pub proof fn lemma_commit_order_independent(c: FluidCell, vs1: Seq<Vec2i>, vs2: Seq<Vec2i>)
    requires
        c.wf(),
        forall|i: int|
            0 <= i < vs1.len() ==> -VEL_MAX <= (#[trigger] vs1[i]).x <= VEL_MAX && -VEL_MAX
                <= vs1[i].y <= VEL_MAX,
        c.particle_count + vs1.len() <= u32::MAX,
        vs1.to_multiset() == vs2.to_multiset(),
    ensures
        cell_fed(c, vs1) == cell_fed(c, vs2),
        committed_cell(cell_fed(c, vs1)) == committed_cell(cell_fed(c, vs2)),
{
    broadcast use vstd::seq_lib::group_to_multiset_ensures;

    lemma_accumulation_order_independent(vs1, vs2);
    assert(forall|i: int|
        0 <= i < vs2.len() ==> -VEL_MAX <= (#[trigger] vs2[i]).x <= VEL_MAX && -VEL_MAX
            <= vs2[i].y <= VEL_MAX) by {
        assert forall|i: int| 0 <= i < vs2.len() implies -VEL_MAX <= (#[trigger] vs2[i]).x
            <= VEL_MAX && -VEL_MAX <= vs2[i].y <= VEL_MAX by {
            assert(vs2.to_multiset().count(vs2[i]) > 0);
            assert(vs1.contains(vs2[i]));
        }
    }
    lemma_cell_fed_pending(c, vs1);
    lemma_cell_fed_pending(c, vs2);
}

/// Smoothing bounds of one commit: the committed flow never overshoots — it
/// lies between the old flow and the pending average on each axis — and when
/// the gap is at least two units it lies strictly between them.
pub proof fn lemma_commit_smoothing_bounds(c: FluidCell)
    requires
        c.wf(),
        c.particle_count > 0,
    ensures
        ({
            let avg_x = div_trunc(c.flow_updates.x as int, c.particle_count as int);
            let avg_y = div_trunc(c.flow_updates.y as int, c.particle_count as int);
            let new_x = committed_cell(c).flow_v.x as int;
            let new_y = committed_cell(c).flow_v.y as int;
            &&& (c.flow_v.x <= avg_x ==> c.flow_v.x <= new_x <= avg_x)
            &&& (avg_x <= c.flow_v.x ==> avg_x <= new_x <= c.flow_v.x)
            &&& (c.flow_v.y <= avg_y ==> c.flow_v.y <= new_y <= avg_y)
            &&& (avg_y <= c.flow_v.y ==> avg_y <= new_y <= c.flow_v.y)
            &&& (c.flow_v.x + 2 <= avg_x ==> c.flow_v.x < new_x < avg_x)
            &&& (avg_x + 2 <= c.flow_v.x ==> avg_x < new_x < c.flow_v.x)
            &&& (c.flow_v.y + 2 <= avg_y ==> c.flow_v.y < new_y < avg_y)
            &&& (avg_y + 2 <= c.flow_v.y ==> avg_y < new_y < c.flow_v.y)
        }),
{
    let avg_x = div_trunc(c.flow_updates.x as int, c.particle_count as int);
    let avg_y = div_trunc(c.flow_updates.y as int, c.particle_count as int);
    lemma_div_trunc_bound(c.flow_updates.x as int, c.particle_count as int, VEL_MAX as int);
    lemma_div_trunc_bound(c.flow_updates.y as int, c.particle_count as int, VEL_MAX as int);
    lemma_lerp_bounds(c.flow_v.x as int, avg_x, ALPHA_GRID as int);
    lemma_lerp_bounds(c.flow_v.y as int, avg_y, ALPHA_GRID as int);
    if c.flow_v.x != avg_x {
        if (if avg_x >= c.flow_v.x {
            avg_x - c.flow_v.x
        } else {
            c.flow_v.x - avg_x
        }) >= 2 {
            assert((if avg_x >= c.flow_v.x {
                avg_x - c.flow_v.x
            } else {
                c.flow_v.x - avg_x
            }) * (SCALE - ALPHA_GRID) >= SCALE);
            lemma_lerp_strictly_between(c.flow_v.x as int, avg_x, ALPHA_GRID as int);
        }
    }
    if c.flow_v.y != avg_y {
        if (if avg_y >= c.flow_v.y {
            avg_y - c.flow_v.y
        } else {
            c.flow_v.y - avg_y
        }) >= 2 {
            assert((if avg_y >= c.flow_v.y {
                avg_y - c.flow_v.y
            } else {
                c.flow_v.y - avg_y
            }) * (SCALE - ALPHA_GRID) >= SCALE);
            lemma_lerp_strictly_between(c.flow_v.y as int, avg_y, ALPHA_GRID as int);
        }
    }
}

/// A fresh grid: one cell per slot, each flow seeded to a small random
/// vector of at most one pixel per tick, every accumulator clear.
pub fn new_cells() -> (c: Cells)
    ensures
        c.wf(),
        c.pending_clear(),
        c.all_cells@.len() == CELLS_TOTAL,
        forall|i: int|
            0 <= i < c.all_cells@.len() ==> -SCALE <= (#[trigger] c.all_cells@[i]).flow_v.x
                <= SCALE && -SCALE <= c.all_cells@[i].flow_v.y <= SCALE,
{
    let len = (CELLS_X * CELLS_Y) as usize;
    let mut ret: Vec<FluidCell> = Vec::with_capacity(len);
    let mut i: usize = 0;
    while i < len
        invariant
            i <= len,
            len == CELLS_TOTAL,
            ret@.len() == i,
            forall|j: int| 0 <= j < i ==> (#[trigger] ret@[j]).wf(),
            forall|j: int| 0 <= j < i ==> (#[trigger] ret@[j]).pending_zero(),
            forall|j: int|
                0 <= j < i ==> -SCALE <= (#[trigger] ret@[j]).flow_v.x <= SCALE && -SCALE
                    <= ret@[j].flow_v.y <= SCALE,
        decreases len - i,
    {
        ret.push(
            FluidCell {
                flow_v: Vec2i {
                    x: random_in_range(-SCALE, SCALE),
                    y: random_in_range(-SCALE, SCALE),
                },
                flow_updates: Vec2i { x: 0, y: 0 },
                particle_count: 0,
            },
        );
        i = i + 1;
    }
    Cells { all_cells: ret }
}

/// The grid of flow cells covering the domain, row by row.
pub struct Cells {
    pub all_cells: Vec<FluidCell>,
}

impl Cells {
    /// Well-formedness: one cell per grid slot, each well-formed.
    pub open spec fn wf(self) -> bool {
        &&& self.all_cells.len() == CELLS_TOTAL
        &&& forall|i: int|
            0 <= i < self.all_cells.len() ==> (#[trigger] self.all_cells[i]).wf()
    }

    /// Whether every cell's accumulators are clear.
    pub open spec fn pending_clear(self) -> bool {
        forall|i: int|
            0 <= i < self.all_cells.len() ==> (#[trigger] self.all_cells[i]).pending_zero()
    }

    /// Read-only access to the committed flow of a cell.
    pub fn sample(&self, cell_index: usize) -> (v: Vec2i)
        requires
            self.wf(),
            cell_index < CELLS_TOTAL,
        ensures
            v == self.all_cells[cell_index as int].flow_v,
    {
        self.all_cells[cell_index].flow_v
    }
}

} // verus!
