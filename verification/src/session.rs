//! The session: interaction forcing, the world aggregate, and the
//! start/running/over state machine driving the per-frame pipeline.
//!
//! Each frame of a running session applies the pointer and key inputs, then
//! runs the simulation in its fixed order — particles advance, particles
//! feed the grid, the boat advances, the grid commits, particles relax — so
//! that every particle of a frame samples the same committed field.

use vstd::prelude::*;
use crate::boat::{advanced_boat, new_boat, thrusted_boat, Boat};
use crate::config::{
    ALPHA_TRACK, HEIGHT, INITIAL_PARTICLES, PARTICLE_CAP, PULL_RATE, SCALE, SPRAY_RATE,
    TAU_MRAD, TURN_STEP, VEL_MAX, WIDTH,
};
use crate::fixed::{div_trunc, lemma_div_trunc_bound, lerp, lerp_spec, wrap_spec, Point2, Vec2i};
use crate::grid::{new_cells, Cells};
use crate::particle::{in_domain, new_particle, Particle};
use crate::sim::{
    advanced_all, all_wf, apply_grid_updates, frame_cells, frame_particles, move_particle,
    spawn, update_grid_flow, update_particles_vectors,
};

verus! {

/// The display mode the renderer reads; no effect on the simulation.
#[derive(Clone, Copy, Debug, PartialEq, Eq, Structural)]
pub enum GameMode {
    Debug,
    Default,
}

/// The flag carrying the display mode.
#[derive(Clone, Copy, Debug, PartialEq, Eq, Structural)]
pub struct GameModeInfo {
    pub game_mode: GameMode,
}

/// The drag gesture's smoothed tracking point.
#[derive(Clone, Copy, Debug, PartialEq, Eq, Structural)]
pub struct ParticleDragger {
    pub point_x: i64,
    pub point_y: i64,
}

/// The typed outcome that ends a running session: a score.
#[derive(Clone, Copy, Debug, PartialEq, Eq, Structural)]
pub enum GameOver {
    Score(i32),
}

/// The session's phase; `Over` holds the outcome it ended with.
#[derive(Clone, Copy, Debug, PartialEq, Eq, Structural)]
pub enum GamePhase {
    NotStarted,
    Running,
    Over(GameOver),
}

/// What one call of `Session::frame` did.
#[derive(Clone, Copy, Debug, PartialEq, Eq, Structural)]
pub enum FrameResult {
    /// The session is not running; at most a phase transition happened.
    Idle,
    /// One simulation tick ran.
    Stepped,
    /// The quit key is down: the caller should terminate the process.
    QuitRequested,
    /// A terminal condition fired; the session is now over.
    Ended(GameOver),
}

/// One frame's inputs, read by the caller from the platform: pointer
/// position in fixed-point units, button and key states.
#[derive(Clone, Copy, Debug, PartialEq, Eq, Structural)]
pub struct InputState {
    pub pointer_x: i64,
    pub pointer_y: i64,
    pub drag_held: bool,
    pub begin_pressed: bool,
    pub toggle_mode_pressed: bool,
    pub quit_pressed: bool,
    pub turn_left_held: bool,
    pub turn_right_held: bool,
    pub thrust_held: bool,
}

impl InputState {
    /// Well-formedness: the pointer lies in the domain (the caller clamps).
    pub open spec fn wf(self) -> bool {
        in_domain(Point2 { x: self.pointer_x, y: self.pointer_y })
    }
}

/// The display mode flipped.
pub open spec fn toggled(m: GameMode) -> GameMode {
    if m == GameMode::Debug {
        GameMode::Default
    } else {
        GameMode::Debug
    }
}

/// The boat's heading after the turn keys: left takes precedence, each turn
/// is one `TURN_STEP`.
pub open spec fn keyed_facing(b: Boat, input: InputState) -> Boat {
    if input.turn_left_held {
        Boat {
            loc: b.loc,
            vel: b.vel,
            health: b.health,
            facing: wrap_spec(b.facing - TURN_STEP, TAU_MRAD as int) as i64,
        }
    } else if input.turn_right_held {
        Boat {
            loc: b.loc,
            vel: b.vel,
            health: b.health,
            facing: wrap_spec(b.facing + TURN_STEP, TAU_MRAD as int) as i64,
        }
    } else {
        b
    }
}

/// Whether the boat is slow enough for a thrust step's arithmetic; any
/// reachable speed is far below this bound.
pub open spec fn thrust_safe(b: Boat) -> bool {
    &&& -VEL_MAX <= b.vel.x <= VEL_MAX
    &&& -VEL_MAX <= b.vel.y <= VEL_MAX
}

/// The boat after the key inputs: turned, then thrust along the new heading
/// while the thrust key is held and the speed is within the safe bound.
pub open spec fn keyed_boat(b: Boat, input: InputState) -> Boat {
    let b1 = keyed_facing(b, input);
    if input.thrust_held && thrust_safe(b1) {
        thrusted_boat(b1)
    } else {
        b1
    }
}

/// The tracking point after one frame: pulled toward the pointer while the
/// drag button is held, snapped to the pointer otherwise.
pub open spec fn tracked_point_after(d: ParticleDragger, input: InputState) -> ParticleDragger {
    if input.drag_held {
        ParticleDragger {
            point_x: lerp_spec(
                d.point_x as int,
                input.pointer_x as int,
                ALPHA_TRACK as int,
            ) as i64,
            point_y: lerp_spec(
                d.point_y as int,
                input.pointer_y as int,
                ALPHA_TRACK as int,
            ) as i64,
        }
    } else {
        ParticleDragger { point_x: input.pointer_x, point_y: input.pointer_y }
    }
}

/// The steering velocity a drag derives from the offset between the pointer
/// and the tracking point.
pub open spec fn drag_pull_velocity(d: ParticleDragger, input: InputState) -> Vec2i {
    Vec2i {
        x: div_trunc((input.pointer_x - d.point_x) * PULL_RATE, SCALE as int) as i64,
        y: div_trunc((input.pointer_y - d.point_y) * PULL_RATE, SCALE as int) as i64,
    }
}

/// The velocity a particle sprayed during a drag starts with, a smaller
/// multiple of the same offset.
pub open spec fn spray_velocity(d: ParticleDragger, input: InputState) -> Vec2i {
    Vec2i {
        x: div_trunc((input.pointer_x - d.point_x) * SPRAY_RATE, SCALE as int) as i64,
        y: div_trunc((input.pointer_y - d.point_y) * SPRAY_RATE, SCALE as int) as i64,
    }
}

/// The boat after the drag gesture (steering variant): while the drag button
/// is held it sits on the tracking point `d2` and takes the pull velocity.
pub open spec fn dragged_boat(b: Boat, d2: ParticleDragger, input: InputState) -> Boat {
    if input.drag_held {
        Boat {
            loc: Point2 { x: d2.point_x, y: d2.point_y },
            vel: drag_pull_velocity(d2, input),
            health: b.health,
            facing: b.facing,
        }
    } else {
        b
    }
}

/// The particle set after the drag gesture: while the drag button is held
/// and the population is below its cap, one particle is sprayed from the
/// tracking point `d2`.
pub open spec fn dragged_particles(
    ps: Seq<Particle>,
    d2: ParticleDragger,
    input: InputState,
) -> Seq<Particle> {
    if input.drag_held && ps.len() < PARTICLE_CAP {
        ps.push(
            Particle {
                position: Point2 { x: d2.point_x, y: d2.point_y },
                size: SCALE,
                velocity: spray_velocity(d2, input),
            },
        )
    } else {
        ps
    }
}

/// Handle the key inputs: flip the display mode on the toggle key, turn the
/// boat on the turn keys, thrust on the thrust key. The quit key is the
/// session's to read.
pub fn handle_key_presses(
    game_mode: &mut GameModeInfo,
    player: &mut Boat,
    input: &InputState,
)
    requires
        old(player).wf(),
    ensures
        final(game_mode).game_mode == (if input.toggle_mode_pressed {
            toggled(old(game_mode).game_mode)
        } else {
            old(game_mode).game_mode
        }),
        *final(player) == keyed_boat(*old(player), *input),
        final(player).wf(),
{
    if input.toggle_mode_pressed {
        if game_mode.game_mode == GameMode::Debug {
            game_mode.game_mode = GameMode::Default;
        } else {
            game_mode.game_mode = GameMode::Debug;
        }
    }
    if input.turn_left_held {
        player.turn(-TURN_STEP);
    } else if input.turn_right_held {
        player.turn(TURN_STEP);
    }
    if input.thrust_held {
        if -VEL_MAX <= player.vel.x && player.vel.x <= VEL_MAX && -VEL_MAX <= player.vel.y
            && player.vel.y <= VEL_MAX {
            player.thrust();
        }
    }
}

/// Handle the drag gesture (steering variant): track the pointer, steer the
/// boat from the tracking point, and spray one particle per held frame.
pub fn drag_particles(
    dragger: &mut ParticleDragger,
    particles: &mut Vec<Particle>,
    player: &mut Boat,
    input: &InputState,
)
    requires
        in_domain(Point2 { x: old(dragger).point_x, y: old(dragger).point_y }),
        all_wf(old(particles)@),
        old(particles)@.len() <= PARTICLE_CAP,
        old(player).wf(),
        input.wf(),
    ensures
        *final(dragger) == tracked_point_after(*old(dragger), *input),
        in_domain(Point2 { x: final(dragger).point_x, y: final(dragger).point_y }),
        final(particles)@ == dragged_particles(old(particles)@, *final(dragger), *input),
        all_wf(final(particles)@),
        final(particles)@.len() <= PARTICLE_CAP,
        *final(player) == dragged_boat(*old(player), *final(dragger), *input),
        final(player).wf(),
{
    if input.drag_held {
        dragger.point_x = lerp(dragger.point_x, input.pointer_x, ALPHA_TRACK);
        dragger.point_y = lerp(dragger.point_y, input.pointer_y, ALPHA_TRACK);
        let off_x = input.pointer_x - dragger.point_x;
        let off_y = input.pointer_y - dragger.point_y;
        proof {
            assert(-(SCALE * 128_000) <= off_x * PULL_RATE <= SCALE * 128_000 && -(SCALE
                * 128_000) <= off_y * PULL_RATE <= SCALE * 128_000 && -(SCALE * 19_200)
                <= off_x * SPRAY_RATE <= SCALE * 19_200 && -(SCALE * 19_200) <= off_y
                * SPRAY_RATE <= SCALE * 19_200) by (nonlinear_arith)
                requires -640_000 <= off_x <= 640_000 && -640_000 <= off_y <= 640_000;
            lemma_div_trunc_bound(off_x as int * PULL_RATE, SCALE as int, 128_000);
            lemma_div_trunc_bound(off_y as int * PULL_RATE, SCALE as int, 128_000);
            lemma_div_trunc_bound(off_x as int * SPRAY_RATE, SCALE as int, 19_200);
            lemma_div_trunc_bound(off_y as int * SPRAY_RATE, SCALE as int, 19_200);
        }
        player.loc.x = dragger.point_x;
        player.loc.y = dragger.point_y;
        player.vel.x = (off_x * PULL_RATE) / SCALE;
        player.vel.y = (off_y * PULL_RATE) / SCALE;
        if particles.len() < PARTICLE_CAP {
            spawn(
                particles,
                Point2 { x: dragger.point_x, y: dragger.point_y },
                Vec2i { x: (off_x * SPRAY_RATE) / SCALE, y: (off_y * SPRAY_RATE) / SCALE },
            );
        }
    } else {
        dragger.point_x = input.pointer_x;
        dragger.point_y = input.pointer_y;
    }
}

/// The world aggregate: the one shared mutable state the pipeline passes by
/// reference, in place of ambient globals.
pub struct World {
    pub cells: Cells,
    pub particles: Vec<Particle>,
    pub boat: Boat,
    pub dragger: ParticleDragger,
    pub game_mode: GameModeInfo,
}

impl World {
    /// Well-formedness of every component, and the population cap.
    pub open spec fn wf(self) -> bool {
        &&& self.cells.wf()
        &&& all_wf(self.particles@)
        &&& self.particles@.len() <= PARTICLE_CAP
        &&& self.boat.wf()
        &&& in_domain(Point2 { x: self.dragger.point_x, y: self.dragger.point_y })
    }
}

/// The boat every session starts with: center of the domain, at rest, full
/// health, heading zero.
pub open spec fn initial_boat() -> Boat {
    Boat {
        loc: Point2 { x: (WIDTH / 2) as i64, y: (HEIGHT / 2) as i64 },
        vel: Vec2i { x: 0, y: 0 },
        health: SCALE,
        facing: 0,
    }
}

/// A fresh world: the initial particle population at random positions, a
/// freshly seeded grid with clear accumulators, the boat at the center, the
/// tracking point at the origin, the default display mode.
pub fn init_world() -> (w: World)
    ensures
        w.wf(),
        w.cells.pending_clear(),
        w.particles@.len() == INITIAL_PARTICLES,
        w.boat == initial_boat(),
        w.dragger == (ParticleDragger { point_x: 0, point_y: 0 }),
        w.game_mode.game_mode == GameMode::Default,
{
    let mut particles: Vec<Particle> = Vec::new();
    let mut i: usize = 0;
    while i < INITIAL_PARTICLES
        invariant
            i <= INITIAL_PARTICLES,
            particles@.len() == i,
            all_wf(particles@),
        decreases INITIAL_PARTICLES - i,
    {
        particles.push(new_particle());
        i = i + 1;
    }
    World {
        cells: new_cells(),
        particles,
        boat: new_boat(WIDTH / 2, HEIGHT / 2, 0, 0),
        dragger: ParticleDragger { point_x: 0, point_y: 0 },
        game_mode: GameModeInfo { game_mode: GameMode::Default },
    }
}

/// The score a session ends with: the number of frames survived, saturated
/// into the outcome's range.
pub open spec fn score_spec(frames: int) -> int {
    if frames <= i32::MAX {
        frames
    } else {
        i32::MAX as int
    }
}

/// One play-through: the phase machine around the world, and the frame
/// counter the score is taken from.
pub struct Session {
    pub phase: GamePhase,
    pub world: World,
    pub frames: u32,
}

impl Session {
    /// Well-formedness: the world is well-formed and, between frames, every
    /// cell's accumulators are clear.
    pub open spec fn wf(self) -> bool {
        &&& self.world.wf()
        &&& self.world.cells.pending_clear()
    }

    /// A fresh session, not yet started, over a fresh world.
    pub fn new() -> (s: Session)
        ensures
            s.wf(),
            s.phase == GamePhase::NotStarted,
            s.frames == 0,
            s.world.particles@.len() == INITIAL_PARTICLES,
            s.world.boat == initial_boat(),
    {
        Session { phase: GamePhase::NotStarted, world: init_world(), frames: 0 }
    }

    /// Drive one frame of the session.
    ///
    /// Waiting (`NotStarted`) and `Over` frames freeze the simulation; the
    /// begin input starts the session, or — after an outcome — resets the
    /// whole world atomically and returns to the waiting phase. A `Running`
    /// frame first honors the quit key untouched, then ends the session if
    /// the boat's health is spent, and otherwise applies the interaction
    /// inputs and runs one simulation tick in the fixed order.
    pub fn frame(&mut self, input: &InputState) -> (r: FrameResult)
        requires
            old(self).wf(),
            input.wf(),
        ensures
            final(self).wf(),
            old(self).phase == GamePhase::NotStarted ==> {
                &&& *final(self) == (Session {
                    phase: if input.begin_pressed {
                        GamePhase::Running
                    } else {
                        GamePhase::NotStarted
                    },
                    ..*old(self)
                })
                &&& r == FrameResult::Idle
            },
            (old(self).phase matches GamePhase::Over(_)) && input.begin_pressed ==> {
                &&& final(self).phase == GamePhase::NotStarted
                &&& final(self).frames == 0
                &&& final(self).world.particles@.len() == INITIAL_PARTICLES
                &&& final(self).world.cells.pending_clear()
                &&& final(self).world.boat == initial_boat()
                &&& r == FrameResult::Idle
            },
            (old(self).phase matches GamePhase::Over(_)) && !input.begin_pressed ==> {
                &&& *final(self) == *old(self)
                &&& r == FrameResult::Idle
            },
            old(self).phase == GamePhase::Running && input.quit_pressed ==> {
                &&& *final(self) == *old(self)
                &&& r == FrameResult::QuitRequested
            },
            old(self).phase == GamePhase::Running && !input.quit_pressed && old(
                self,
            ).world.boat.health <= 0 ==> {
                &&& final(self).world == old(self).world
                &&& final(self).frames == old(self).frames
                &&& final(self).phase == GamePhase::Over(
                    GameOver::Score(score_spec(old(self).frames as int) as i32),
                )
                &&& r == FrameResult::Ended(
                    GameOver::Score(score_spec(old(self).frames as int) as i32),
                )
            },
            old(self).phase == GamePhase::Running && !input.quit_pressed && old(
                self,
            ).world.boat.health > 0 ==> {
                let d2 = tracked_point_after(old(self).world.dragger, *input);
                let ip = dragged_particles(old(self).world.particles@, d2, *input);
                let ib = keyed_boat(dragged_boat(old(self).world.boat, d2, *input), *input);
                let ic = old(self).world.cells.all_cells@;
                &&& final(self).world.dragger == d2
                &&& final(self).world.game_mode.game_mode == (if input.toggle_mode_pressed {
                    toggled(old(self).world.game_mode.game_mode)
                } else {
                    old(self).world.game_mode.game_mode
                })
                &&& final(self).world.boat == advanced_boat(ib)
                &&& final(self).world.particles@ == frame_particles(ip, ic)
                &&& final(self).world.cells.all_cells@ == frame_cells(ip, ic)
                &&& final(self).frames == (if old(self).frames < u32::MAX {
                    old(self).frames + 1
                } else {
                    old(self).frames as int
                })
                &&& final(self).phase == GamePhase::Running
                &&& r == FrameResult::Stepped
            },
    {
        match self.phase {
            GamePhase::NotStarted => {
                if input.begin_pressed {
                    self.phase = GamePhase::Running;
                }
                FrameResult::Idle
            },
            GamePhase::Over(_) => {
                if input.begin_pressed {
                    self.world = init_world();
                    self.frames = 0;
                    self.phase = GamePhase::NotStarted;
                }
                FrameResult::Idle
            },
            GamePhase::Running => {
                if input.quit_pressed {
                    return FrameResult::QuitRequested;
                }
                if self.world.boat.health <= 0 {
                    let score = if self.frames <= 0x7fff_ffff {
                        self.frames as i32
                    } else {
                        i32::MAX
                    };
                    let outcome = GameOver::Score(score);
                    self.phase = GamePhase::Over(outcome);
                    return FrameResult::Ended(outcome);
                }
                drag_particles(
                    &mut self.world.dragger,
                    &mut self.world.particles,
                    &mut self.world.boat,
                    input,
                );
                handle_key_presses(&mut self.world.game_mode, &mut self.world.boat, input);
                let ghost ip = self.world.particles@;
                let ghost ic = self.world.cells.all_cells@;
                move_particle(&mut self.world.particles);
                proof {
                    assert(self.world.particles@ =~= advanced_all(ip));
                }
                update_grid_flow(&self.world.particles, &mut self.world.cells);
                self.world.boat.advance();
                apply_grid_updates(&mut self.world.cells);
                proof {
                    assert(self.world.cells.all_cells@ =~= frame_cells(ip, ic));
                }
                update_particles_vectors(&mut self.world.particles, &self.world.cells);
                proof {
                    assert(self.world.particles@ =~= frame_particles(ip, ic));
                }
                if self.frames < u32::MAX {
                    self.frames = self.frames + 1;
                }
                FrameResult::Stepped
            },
        }
    }
}

} // verus!
