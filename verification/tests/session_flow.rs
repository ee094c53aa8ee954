//! Tests of the boat, the interaction forcing, and the session state
//! machine: wrap invariant for the agent, drag steering and spraying, the
//! terminal outcome, and the reset scenario.

use particle_man::boat::{new_boat, Boat};
use particle_man::config::{HEIGHT, INITIAL_PARTICLES, SCALE, WIDTH};
use particle_man::fixed::{Point2, Vec2i};
use particle_man::particle::Particle;
use particle_man::session::{
    drag_particles, handle_key_presses, init_world, FrameResult, GameMode, GameModeInfo,
    GameOver, GamePhase, InputState, ParticleDragger, Session,
};

fn idle_input() -> InputState {
    InputState {
        pointer_x: 0,
        pointer_y: 0,
        drag_held: false,
        begin_pressed: false,
        toggle_mode_pressed: false,
        quit_pressed: false,
        turn_left_held: false,
        turn_right_held: false,
        thrust_held: false,
    }
}

#[test]
fn boat_advance_wraps_like_a_particle() {
    let mut b = new_boat(WIDTH - 500, HEIGHT - 500, 1_500, 2_500);
    b.advance();
    assert_eq!(b.loc, Point2 { x: 1_000, y: 2_000 });
    assert!(b.loc.x >= 0 && b.loc.x < WIDTH);
    assert!(b.loc.y >= 0 && b.loc.y < HEIGHT);
}

#[test]
fn boat_turn_wraps_the_heading() {
    let mut b = new_boat(0, 0, 0, 0);
    b.turn(-100);
    assert_eq!(b.facing, 6184);
    b.turn(200);
    assert_eq!(b.facing, 100);
}

#[test]
fn thrust_from_rest_pushes_along_the_heading() {
    // at rest the thrust magnitude is the base 0.1 px; heading 0 points
    // along +x; one blend at 0.1 moves the velocity by a tenth of that.
    let mut b = new_boat(320_000, 180_000, 0, 0);
    b.thrust();
    assert_eq!(b.vel, Vec2i { x: 10, y: 0 });
}

#[test]
fn thrust_couples_to_speed() {
    // at speed 1000 the magnitude is 1100; target (1100, 0); the blend
    // moves x by ceil(100 * 100 / 1000) = 10.
    let mut b = new_boat(320_000, 180_000, 1000, 0);
    b.thrust();
    assert_eq!(b.vel, Vec2i { x: 1010, y: 0 });
}

#[test]
fn keys_toggle_turn_and_thrust() {
    let mut mode = GameModeInfo { game_mode: GameMode::Default };
    let mut player = new_boat(320_000, 180_000, 0, 0);
    let mut input = idle_input();
    input.toggle_mode_pressed = true;
    input.turn_right_held = true;
    handle_key_presses(&mut mode, &mut player, &input);
    assert_eq!(mode.game_mode, GameMode::Debug);
    assert_eq!(player.facing, 100);
    handle_key_presses(&mut mode, &mut player, &input);
    assert_eq!(mode.game_mode, GameMode::Default);
    assert_eq!(player.facing, 200);
    // left takes precedence over right
    let mut both = idle_input();
    both.turn_left_held = true;
    both.turn_right_held = true;
    handle_key_presses(&mut mode, &mut player, &both);
    assert_eq!(player.facing, 100);
}

#[test]
fn drag_tracks_steers_and_sprays() {
    let mut dragger = ParticleDragger { point_x: 0, point_y: 0 };
    let mut particles: Vec<Particle> = Vec::new();
    let mut player = new_boat(320_000, 180_000, 0, 0);
    let mut input = idle_input();
    input.pointer_x = 100_000;
    input.pointer_y = 50_000;
    input.drag_held = true;
    drag_particles(&mut dragger, &mut particles, &mut player, &input);
    // the tracking point moves 3% of the way toward the pointer
    assert_eq!(dragger.point_x, 3_000);
    assert_eq!(dragger.point_y, 1_500);
    // the boat sits on the tracking point with the pull velocity
    assert_eq!(player.loc, Point2 { x: 3_000, y: 1_500 });
    assert_eq!(player.vel, Vec2i { x: 19_400, y: 9_700 });
    // one particle sprayed from the tracking point
    assert_eq!(particles.len(), 1);
    assert_eq!(particles[0].position, Point2 { x: 3_000, y: 1_500 });
    assert_eq!(particles[0].velocity, Vec2i { x: 2_910, y: 1_455 });
}

#[test]
fn drag_released_snaps_the_tracker() {
    let mut dragger = ParticleDragger { point_x: 7, point_y: 8 };
    let mut particles: Vec<Particle> = Vec::new();
    let mut player = new_boat(320_000, 180_000, 0, 0);
    let mut input = idle_input();
    input.pointer_x = 111;
    input.pointer_y = 222;
    drag_particles(&mut dragger, &mut particles, &mut player, &input);
    assert_eq!(dragger.point_x, 111);
    assert_eq!(dragger.point_y, 222);
    assert_eq!(particles.len(), 0);
    assert_eq!(player.loc, Point2 { x: 320_000, y: 180_000 });
}

#[test]
fn init_world_population_and_grid() {
    let w = init_world();
    assert_eq!(w.particles.len(), INITIAL_PARTICLES);
    for p in w.particles.iter() {
        assert!(p.position.x >= 0 && p.position.x < WIDTH);
        assert!(p.position.y >= 0 && p.position.y < HEIGHT);
        assert!((-SCALE..=SCALE).contains(&p.velocity.x));
        assert!((-SCALE..=SCALE).contains(&p.velocity.y));
    }
    assert_eq!(w.boat.loc, Point2 { x: WIDTH / 2, y: HEIGHT / 2 });
    assert_eq!(w.boat.vel, Vec2i { x: 0, y: 0 });
    assert_eq!(w.game_mode.game_mode, GameMode::Default);
}

#[test]
fn session_waits_until_begun() {
    let mut s = Session::new();
    assert_eq!(s.phase, GamePhase::NotStarted);
    let r = s.frame(&idle_input());
    assert_eq!(r, FrameResult::Idle);
    assert_eq!(s.phase, GamePhase::NotStarted);
    let mut begin = idle_input();
    begin.begin_pressed = true;
    let r = s.frame(&begin);
    assert_eq!(r, FrameResult::Idle);
    assert_eq!(s.phase, GamePhase::Running);
}

#[test]
fn session_steps_and_counts_frames() {
    let mut s = Session::new();
    let mut begin = idle_input();
    begin.begin_pressed = true;
    s.frame(&begin);
    for expected in 1..=5u32 {
        let r = s.frame(&idle_input());
        assert_eq!(r, FrameResult::Stepped);
        assert_eq!(s.frames, expected);
    }
    assert_eq!(s.world.particles.len(), INITIAL_PARTICLES);
    for p in s.world.particles.iter() {
        assert!(p.position.x >= 0 && p.position.x < WIDTH);
        assert!(p.position.y >= 0 && p.position.y < HEIGHT);
    }
}

#[test]
fn quit_freezes_the_frame() {
    let mut s = Session::new();
    let mut begin = idle_input();
    begin.begin_pressed = true;
    s.frame(&begin);
    s.frame(&idle_input());
    let frames_before = s.frames;
    let boat_before = s.world.boat;
    let mut quit = idle_input();
    quit.quit_pressed = true;
    let r = s.frame(&quit);
    assert_eq!(r, FrameResult::QuitRequested);
    assert_eq!(s.frames, frames_before);
    assert_eq!(s.world.boat, boat_before);
    assert_eq!(s.phase, GamePhase::Running);
}

#[test]
fn spent_health_ends_the_session_with_the_score() {
    let mut s = Session::new();
    let mut begin = idle_input();
    begin.begin_pressed = true;
    s.frame(&begin);
    s.frame(&idle_input());
    s.frame(&idle_input());
    s.world.boat.health = 0;
    let r = s.frame(&idle_input());
    assert_eq!(r, FrameResult::Ended(GameOver::Score(2)));
    assert_eq!(s.phase, GamePhase::Over(GameOver::Score(2)));
    // further frames stay frozen
    let r = s.frame(&idle_input());
    assert_eq!(r, FrameResult::Idle);
    assert_eq!(s.phase, GamePhase::Over(GameOver::Score(2)));
}

#[test]
fn reset_clears_state() {
    // run a session, spray extra particles by dragging, end it, reset it:
    // the population is the initial one again and every accumulator is clear.
    let mut s = Session::new();
    let mut begin = idle_input();
    begin.begin_pressed = true;
    s.frame(&begin);
    let mut drag = idle_input();
    drag.pointer_x = 200_000;
    drag.pointer_y = 100_000;
    drag.drag_held = true;
    for _ in 0..10 {
        let r = s.frame(&drag);
        assert_eq!(r, FrameResult::Stepped);
    }
    assert_eq!(s.world.particles.len(), INITIAL_PARTICLES + 10);
    s.world.boat.health = 0;
    let r = s.frame(&idle_input());
    assert!(matches!(r, FrameResult::Ended(GameOver::Score(_))));
    let r = s.frame(&begin);
    assert_eq!(r, FrameResult::Idle);
    assert_eq!(s.phase, GamePhase::NotStarted);
    assert_eq!(s.frames, 0);
    assert_eq!(s.world.particles.len(), INITIAL_PARTICLES);
    for c in s.world.cells.all_cells.iter() {
        assert_eq!(c.flow_updates, Vec2i { x: 0, y: 0 });
        assert_eq!(c.particle_count, 0);
    }
}

#[test]
fn render_pose_reads_position_and_heading() {
    let mut b = new_boat(1_000, 2_000, 0, 0);
    b.turn(300);
    let (loc, facing) = b.render_pose();
    assert_eq!(loc, Point2 { x: 1_000, y: 2_000 });
    assert_eq!(facing, 300);
}

#[test]
fn boat_fields_start_full() {
    let b: Boat = new_boat(10, 20, 30, 40);
    assert_eq!(b.health, SCALE);
    assert_eq!(b.facing, 0);
    assert_eq!(b.vel, Vec2i { x: 30, y: 40 });
}
