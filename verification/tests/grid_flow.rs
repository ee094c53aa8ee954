//! Tests of the flow grid's accumulate/commit cycle and the particle-cell
//! coupling: order independence, empty-commit idempotence, smoothing bounds,
//! cell-index boundaries, and steady-state convergence.

use particle_man::config::{CELLS_TOTAL, HEIGHT, SCALE, WIDTH};
use particle_man::fixed::{Point2, Vec2i};
use particle_man::grid::{new_cells, Cells, FluidCell};
use particle_man::particle::{new_particle_at, Particle};
use particle_man::sim::{
    apply_external_pull, apply_grid_updates, despawn_all, move_particle, spawn,
    update_grid_flow, update_particles_vectors,
};

fn quiet_cell(flow_x: i64, flow_y: i64) -> FluidCell {
    FluidCell {
        flow_v: Vec2i { x: flow_x, y: flow_y },
        flow_updates: Vec2i { x: 0, y: 0 },
        particle_count: 0,
    }
}

fn particle_with_velocity(vx: i64, vy: i64) -> Particle {
    new_particle_at(0, 0, vx, vy)
}

#[test]
fn accumulation_is_order_independent() {
    let velocities: [(i64, i64); 4] = [(100, -50), (-300, 700), (40, 40), (999, -999)];
    let mut forward = quiet_cell(10, -10);
    let mut backward = quiet_cell(10, -10);
    for &(vx, vy) in velocities.iter() {
        forward.update_flow(&particle_with_velocity(vx, vy));
    }
    for &(vx, vy) in velocities.iter().rev() {
        backward.update_flow(&particle_with_velocity(vx, vy));
    }
    assert_eq!(forward.flow_updates, backward.flow_updates);
    assert_eq!(forward.particle_count, backward.particle_count);
    forward.apply_flow_update();
    backward.apply_flow_update();
    assert_eq!(forward.flow_v, backward.flow_v);
}

#[test]
fn commit_with_no_contributors_keeps_flow_and_clears_pending() {
    let mut cell = quiet_cell(123, -7);
    cell.apply_flow_update();
    assert_eq!(cell.flow_v, Vec2i { x: 123, y: -7 });
    assert_eq!(cell.flow_updates, Vec2i { x: 0, y: 0 });
    assert_eq!(cell.particle_count, 0);
}

#[test]
fn commit_resets_pending_after_folding() {
    let mut cell = quiet_cell(0, 0);
    cell.update_flow(&particle_with_velocity(1000, 0));
    assert_eq!(cell.particle_count, 1);
    cell.apply_flow_update();
    assert_eq!(cell.flow_updates, Vec2i { x: 0, y: 0 });
    assert_eq!(cell.particle_count, 0);
}

#[test]
fn commit_stays_between_flow_and_sample() {
    // flow 0, one sample at 1000: the commit lands strictly between.
    let mut cell = quiet_cell(0, 0);
    cell.update_flow(&particle_with_velocity(1000, -1000));
    cell.apply_flow_update();
    assert_eq!(cell.flow_v, Vec2i { x: 100, y: -100 });
    // a gap of 5 still moves, and never overshoots
    let mut small = quiet_cell(0, 0);
    small.update_flow(&particle_with_velocity(5, -5));
    small.apply_flow_update();
    assert_eq!(small.flow_v, Vec2i { x: 1, y: -1 });
}

#[test]
fn commit_averages_the_contributions() {
    // samples 100 and 300 average to 200; flow 0 moves 10% of the way.
    let mut cell = quiet_cell(0, 0);
    cell.update_flow(&particle_with_velocity(100, 0));
    cell.update_flow(&particle_with_velocity(300, 0));
    cell.apply_flow_update();
    assert_eq!(cell.flow_v, Vec2i { x: 20, y: 0 });
}

#[test]
fn cell_index_boundaries() {
    // one unit inside the far corner: the last cell
    let corner = new_particle_at(WIDTH - 1, HEIGHT - 1, 0, 0);
    assert_eq!(corner.get_cell_index(), (CELLS_TOTAL - 1) as usize);
    // the origin: the first cell
    let origin = new_particle_at(0, 0, 0, 0);
    assert_eq!(origin.get_cell_index(), 0);
    // just across the first column boundary (cell width is 32 pixels)
    let first_col = new_particle_at(32 * SCALE - 1, 0, 0, 0);
    assert_eq!(first_col.get_cell_index(), 0);
    let second_col = new_particle_at(32 * SCALE, 0, 0, 0);
    assert_eq!(second_col.get_cell_index(), 1);
    // just across the first row boundary (cell height is 30 pixels)
    let second_row = new_particle_at(0, 30 * SCALE, 0, 0);
    assert_eq!(second_row.get_cell_index(), 20);
}

#[test]
fn every_position_maps_below_the_cell_count() {
    let mut x: i64 = 0;
    while x < WIDTH {
        let p = new_particle_at(x, HEIGHT - 1, 0, 0);
        assert!(p.get_cell_index() < CELLS_TOTAL as usize);
        x += 7 * SCALE + 13;
    }
}

#[test]
fn steady_state_convergence() {
    // Ten particles in the first cell, all moving at one pixel per tick to
    // the right, pull that cell's flow to (1, 0) — first by exactly 10% of
    // the gap, and within a thousandth of a pixel after enough ticks.
    let mut cell = quiet_cell(0, 0);
    let swarm: Vec<Particle> =
        (0..10).map(|_| particle_with_velocity(SCALE, 0)).collect();
    for p in swarm.iter() {
        cell.update_flow(p);
    }
    cell.apply_flow_update();
    assert_eq!(cell.flow_v, Vec2i { x: 100, y: 0 });
    for _ in 0..200 {
        for p in swarm.iter() {
            cell.update_flow(p);
        }
        cell.apply_flow_update();
    }
    assert!((cell.flow_v.x - SCALE).abs() <= 1);
    assert_eq!(cell.flow_v.y, 0);
}

#[test]
fn new_cells_is_seeded_small_and_clear() {
    let cells = new_cells();
    assert_eq!(cells.all_cells.len(), CELLS_TOTAL as usize);
    for c in cells.all_cells.iter() {
        assert!((-SCALE..=SCALE).contains(&c.flow_v.x));
        assert!((-SCALE..=SCALE).contains(&c.flow_v.y));
        assert_eq!(c.flow_updates, Vec2i { x: 0, y: 0 });
        assert_eq!(c.particle_count, 0);
    }
}

#[test]
fn sample_reads_the_committed_flow() {
    let mut cells = new_cells();
    cells.all_cells[5] = quiet_cell(42, -17);
    assert_eq!(cells.sample(5), Vec2i { x: 42, y: -17 });
}

#[test]
fn feed_then_commit_then_relax_pipeline() {
    // One particle in cell 0; the full grid pass leaves every other cell's
    // pending state untouched and blends the particle toward the flow.
    let mut cells = Cells { all_cells: (0..CELLS_TOTAL).map(|_| quiet_cell(0, 0)).collect() };
    let mut particles = vec![new_particle_at(0, 0, 1000, 0)];
    update_grid_flow(&particles, &mut cells);
    assert_eq!(cells.all_cells[0].particle_count, 1);
    assert_eq!(cells.all_cells[0].flow_updates, Vec2i { x: 1000, y: 0 });
    assert_eq!(cells.all_cells[1].particle_count, 0);
    apply_grid_updates(&mut cells);
    assert_eq!(cells.all_cells[0].flow_v, Vec2i { x: 100, y: 0 });
    assert_eq!(cells.all_cells[0].particle_count, 0);
    update_particles_vectors(&mut particles, &cells);
    // velocity 1000 blends toward flow 100 by 0.03: step ceil(900*30/1000) = 27
    assert_eq!(particles[0].velocity, Vec2i { x: 973, y: 0 });
}

#[test]
fn advance_wraps_both_axes() {
    let mut particles = vec![new_particle_at(100_000, 100_000, 1_920_007, -1_080_013)];
    move_particle(&mut particles);
    let p = particles[0];
    assert_eq!(p.position.x, 100_007);
    assert_eq!(p.position.y, 99_987);
    assert!(p.position.x >= 0 && p.position.x < WIDTH);
    assert!(p.position.y >= 0 && p.position.y < HEIGHT);
}

#[test]
fn external_pull_respects_the_radius() {
    let mut particles = vec![
        new_particle_at(10_000, 10_000, 0, 0),
        new_particle_at(200_000, 200_000, 0, 0),
    ];
    let center = Point2 { x: 10_000, y: 10_000 };
    let target = Vec2i { x: 1000, y: 0 };
    apply_external_pull(&mut particles, center, target, 50_000, 100);
    // the near particle blends 10% toward the target
    assert_eq!(particles[0].velocity, Vec2i { x: 100, y: 0 });
    // the far particle is untouched
    assert_eq!(particles[1].velocity, Vec2i { x: 0, y: 0 });
}

#[test]
fn spawn_appends_and_despawn_clears() {
    let mut particles: Vec<Particle> = Vec::new();
    spawn(&mut particles, Point2 { x: 5, y: 6 }, Vec2i { x: 7, y: 8 });
    assert_eq!(particles.len(), 1);
    assert_eq!(particles[0].position, Point2 { x: 5, y: 6 });
    assert_eq!(particles[0].velocity, Vec2i { x: 7, y: 8 });
    assert_eq!(particles[0].size, SCALE);
    despawn_all(&mut particles);
    assert_eq!(particles.len(), 0);
}
