use crappy_bird::collision::box_intersects_circle;
use crappy_bird::components::{Bird, InfoText, Pipe, PipePassed};
use crappy_bird::gameloop::{Command, FrameInput, Game, KeyEvent, World};
use crappy_bird::kinematics::{decay_speed, move_bird_height, MAX_SPEED, SUBPIXELS_PER_PIXEL};
use crappy_bird::pipes::{
    advance_pipe, advance_pipes, any_pipe_hits_bird, pipe_hits_bird, spawn_pipe_pair, GAP,
};
use crappy_bird::resources::{GameState, SpawnPipeTimer};

const PX: i64 = SUBPIXELS_PER_PIXEL;

fn frame(dt_micros: u32, events: Vec<KeyEvent>) -> FrameInput {
    FrameInput { dt_micros, window_width: 800, window_height: 600, events }
}

fn pipe(x: i64, y: i64, height: i64, passed: bool) -> Pipe {
    Pipe { x, y, height, passed: PipePassed(passed) }
}

fn flying_world() -> World {
    let mut world = World::new();
    assert_eq!(world.update(&frame(0, vec![KeyEvent::Jump]), 0), Command::Continue);
    world
}

#[test]
fn decay_lowers_speed_by_step() {
    assert_eq!(decay_speed(0), -20);
    assert_eq!(decay_speed(MAX_SPEED), 480);
}

#[test]
fn decay_is_floored_at_max_speed() {
    assert_eq!(decay_speed(-490), -MAX_SPEED);
    assert_eq!(decay_speed(-MAX_SPEED), -MAX_SPEED);
    assert_eq!(decay_speed(i64::MIN), -MAX_SPEED);
}

#[test]
fn three_jumps_stay_at_max_speed() {
    let mut state = GameState::new();
    state.jump();
    state.jump();
    state.jump();
    assert_eq!(state.speed_y, MAX_SPEED);
}

#[test]
fn bird_moves_by_speed_times_time() {
    // 500 pixels per second for 16 ms is 8 pixels.
    assert_eq!(move_bird_height(0, 500, 16_000, 600), 8 * PX);
    assert_eq!(move_bird_height(0, -500, 16_000, 600), -8 * PX);
}

#[test]
fn displacement_past_an_edge_is_dropped_whole() {
    // A 60 pixel window leaves the bird's centre 5 pixels of room each way.
    assert_eq!(move_bird_height(0, 500, 16_000, 60), 0);
    assert_eq!(move_bird_height(4 * PX, 100, 20_000, 60), 4 * PX);
    assert_eq!(move_bird_height(4 * PX, 100, 5_000, 60), 4 * PX + PX / 2);
    // Touching the edge exactly is allowed.
    assert_eq!(move_bird_height(0, 500, 10_000, 60), 5 * PX);
}

#[test]
fn pair_without_offset_in_800_by_600_window() {
    let (top, bottom) = spawn_pipe_pair(800, 600, 0);
    assert_eq!(top.y, 200 * PX);
    assert_eq!(bottom.y, -200 * PX);
    assert_eq!(top.x, 425 * PX);
    assert_eq!(bottom.x, 425 * PX);
    assert_eq!((top.y - 150 * PX) - (bottom.y + 150 * PX), GAP);
    assert_eq!(top.height, 200 * PX);
    assert_eq!(bottom.height, 200 * PX);
    assert!(!top.passed.0);
    assert!(bottom.passed.0);
}

#[test]
fn pair_gap_does_not_depend_on_offset() {
    let (top, bottom) = spawn_pipe_pair(800, 600, 50 * PX);
    assert_eq!(top.y, 250 * PX);
    assert_eq!(bottom.y, -150 * PX);
    assert_eq!(top.y - bottom.y, 300 * PX + GAP);
    assert_eq!(top.y * 2 + top.height, 600 * PX);
    assert_eq!(bottom.y * 2 - bottom.height, -600 * PX);
    assert_eq!(top.height, 100 * PX);
    assert_eq!(bottom.height, 300 * PX);
}

#[test]
fn pipe_past_left_edge_is_culled() {
    let p = pipe(-450 * PX, 0, 100 * PX, false);
    assert_eq!(advance_pipe(&p, 0, 800), (None, false));
}

#[test]
fn pipe_moves_left_and_scores_once() {
    let p = pipe(-49 * PX, 0, 100 * PX, false);
    // 10 ms at 200 pixels per second is 2 pixels.
    let (moved, scored) = advance_pipe(&p, 10_000, 800);
    let moved = moved.unwrap();
    assert_eq!(moved.x, -51 * PX);
    assert!(moved.passed.0);
    assert!(scored);
    let (again, scored_again) = advance_pipe(&moved, 10_000, 800);
    assert_eq!(again.unwrap().x, -53 * PX);
    assert!(!scored_again);
}

#[test]
fn passed_pipe_never_scores() {
    let p = pipe(-60 * PX, 0, 100 * PX, true);
    let (_, scored) = advance_pipe(&p, 1_000, 800);
    assert!(!scored);
}

#[test]
fn advance_pipes_keeps_order_and_counts() {
    let pipes = vec![
        pipe(-430 * PX, 0, PX, false),
        pipe(-49 * PX, 10 * PX, PX, false),
        pipe(-49 * PX, -10 * PX, PX, true),
        pipe(300 * PX, 0, PX, false),
    ];
    let (kept, gained) = advance_pipes(&pipes, 10_000, 800);
    assert_eq!(gained, 1);
    assert_eq!(kept.len(), 3);
    assert_eq!(kept[0], pipe(-51 * PX, 10 * PX, PX, true));
    assert_eq!(kept[1], pipe(-51 * PX, -10 * PX, PX, true));
    assert_eq!(kept[2], pipe(298 * PX, 0, PX, false));
}

#[test]
fn bird_overlapping_pipe_box_collides() {
    assert!(box_intersects_circle(10 * PX, 0, 25 * PX, 150 * PX, 0, 0, 25 * PX));
    let p = pipe(10 * PX, 0, 300 * PX, false);
    assert!(pipe_hits_bird(&p, &Bird { x: 0, y: 0 }));
}

#[test]
fn circle_inside_box_collides() {
    assert!(box_intersects_circle(0, 0, 100, 100, 5, -5, 1));
}

#[test]
fn circle_farther_than_radius_misses() {
    // Closest point (25, 0); centre at distance 30.
    assert!(!box_intersects_circle(0, 0, 25, 150, 55, 0, 25));
    // At exactly the radius the circle touches.
    assert!(box_intersects_circle(0, 0, 25, 150, 50, 0, 25));
    // Diagonal: distance sqrt(3^2 + 4^2) = 5.
    assert!(box_intersects_circle(0, 0, 10, 10, 13, 14, 5));
    assert!(!box_intersects_circle(0, 0, 10, 10, 13, 14, 4));
}

#[test]
fn any_pipe_test_covers_every_pipe() {
    let pipes = vec![pipe(300 * PX, 0, PX, false), pipe(20 * PX, 0, 10 * PX, false)];
    assert!(any_pipe_hits_bird(&pipes, &Bird { x: 0, y: 0 }));
    assert!(!any_pipe_hits_bird(&pipes[..1].to_vec(), &Bird { x: 0, y: 0 }));
}

#[test]
fn timer_fires_each_interval_and_keeps_remainder() {
    let mut t = SpawnPipeTimer::new();
    assert!(!t.tick(1_999_999));
    assert!(t.tick(1));
    assert_eq!(t.elapsed, 0);
    assert!(t.tick(4_500_000));
    assert_eq!(t.elapsed, 500_000);
}

#[test]
fn jump_starts_a_flight_from_waiting() {
    let mut world = World::new();
    assert_eq!(world.info_text(), InfoText::StartPrompt);
    assert_eq!(world.update(&frame(16_000, vec![]), 0), Command::Continue);
    assert!(!world.state.alive);
    let world = flying_world();
    assert!(world.state.alive);
    assert!(!world.state.game_over);
    assert_eq!(world.state.score, 0);
    assert_eq!(world.bird, Some(Bird { x: 0, y: 0 }));
    assert_eq!(world.info_text(), InfoText::Hidden);
}

#[test]
fn frame_in_flight_moves_then_decays() {
    let mut world = flying_world();
    world.update(&frame(10_000, vec![KeyEvent::Jump]), 0);
    // Speed 0 moves nothing; the jump sets 500, decay leaves 480.
    assert_eq!(world.bird.unwrap().y, 0);
    assert_eq!(world.state.speed_y, 480);
    world.update(&frame(10_000, vec![]), 0);
    assert_eq!(world.bird.unwrap().y, 48 * PX / 10);
    assert_eq!(world.state.speed_y, 460);
}

#[test]
fn timer_spawns_a_pair_in_flight() {
    let mut world = flying_world();
    world.update(&frame(2_000_000, vec![]), 0);
    assert_eq!(world.pipes.len(), 2);
    let (top, bottom) = spawn_pipe_pair(800, 600, 0);
    assert_eq!(world.pipes[0], top);
    assert_eq!(world.pipes[1], bottom);
}

#[test]
fn collision_ends_flight_until_restart() {
    let mut world = flying_world();
    world.pipes.push(pipe(10 * PX, 0, 300 * PX, false));
    world.update(&frame(0, vec![KeyEvent::Restart]), 0);
    assert!(!world.state.alive);
    assert!(world.state.game_over);
    assert_eq!(world.info_text(), InfoText::DeathNotice);
    let pipes = world.pipes.clone();
    let bird = world.bird;
    for _ in 0..5 {
        world.update(&frame(16_000, vec![]), 0);
        world.update(&frame(16_000, vec![KeyEvent::Jump]), 0);
        assert!(!world.state.alive);
        assert!(world.state.game_over);
        assert_eq!(world.pipes, pipes);
        assert_eq!(world.bird, bird);
    }
    world.update(&frame(16_000, vec![KeyEvent::Restart]), 0);
    assert!(world.state.alive);
    assert!(!world.state.game_over);
    assert_eq!(world.state.score, 0);
    assert!(world.pipes.is_empty());
    assert_eq!(world.bird, Some(Bird { x: 0, y: 0 }));
}

#[test]
fn passing_a_pair_scores_one_point() {
    let mut world = flying_world();
    world.pipes.push(pipe(-49 * PX, 300 * PX, 10 * PX, false));
    world.pipes.push(pipe(-49 * PX, -300 * PX, 10 * PX, true));
    world.update(&frame(10_000, vec![]), 0);
    assert_eq!(world.state.score, 1);
    world.update(&frame(10_000, vec![]), 0);
    assert_eq!(world.state.score, 1);
    assert!(world.state.alive);
}

#[test]
fn quit_is_returned_in_every_phase() {
    let mut world = World::new();
    assert_eq!(world.update(&frame(0, vec![KeyEvent::Quit]), 0), Command::Quit);
    let mut world = flying_world();
    assert_eq!(world.update(&frame(0, vec![KeyEvent::Jump, KeyEvent::Quit]), 0), Command::Quit);
}

#[test]
fn seeded_games_place_pipes_alike_and_in_range() {
    let mut a = Game::new(7);
    let mut b = Game::new(7);
    let start = frame(0, vec![KeyEvent::Jump]);
    a.step(&start);
    b.step(&start);
    for _ in 0..6 {
        let f = frame(2_000_000, vec![KeyEvent::Jump]);
        a.step(&f);
        b.step(&f);
    }
    assert_eq!(a.world.pipes, b.world.pipes);
    assert!(!a.world.pipes.is_empty());
    // Offsets lie within a quarter of 600 pixels less the gap: 50 pixels.
    for p in &a.world.pipes {
        if !p.passed.0 {
            assert!(p.y >= 150 * PX && p.y <= 250 * PX);
        }
    }
    let offsets: Vec<i64> = a.world.pipes.iter().filter(|p| !p.passed.0).map(|p| p.y).collect();
    assert!(offsets.iter().any(|&y| y != 200 * PX));
}

#[test]
fn largest_window_and_time_step_stay_in_bounds() {
    let mut game = Game::new(1);
    let big = |events: Vec<KeyEvent>| FrameInput {
        dt_micros: u32::MAX,
        window_width: u32::MAX,
        window_height: u32::MAX,
        events,
    };
    game.step(&big(vec![KeyEvent::Jump]));
    for _ in 0..4 {
        assert_eq!(game.step(&big(vec![KeyEvent::Jump])), Command::Continue);
    }
    assert!(game.world.state.alive);
    assert!(!game.world.pipes.is_empty());
    let half_height = u32::MAX as i64 * PX / 2;
    let y = game.world.bird.unwrap().y;
    assert!(y >= -half_height && y <= half_height);
}
