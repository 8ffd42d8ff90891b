use pong_core::ball::{Ball, COORD_LIMIT};
use pong_core::geometry::Vec2;
use pong_core::input::{PaddleInput, Stick, TickInput};
use pong_core::paddle::PaddleController;
use pong_core::serve::ServeLockout;
use pong_core::units::TICK_NANOS;
use pong_core::world::{setup, World};

fn idle() -> PaddleInput {
    PaddleInput { up: false, down: false, stick: Stick::Disconnected }
}

fn quiet() -> TickInput {
    TickInput { p1: idle(), p2: idle() }
}

fn next(seed: &mut u64) -> u64 {
    *seed = seed.wrapping_mul(6_364_136_223_846_793_005).wrapping_add(1_442_695_040_888_963_407);
    *seed >> 33
}

fn any_input(seed: &mut u64) -> PaddleInput {
    let stick = match next(seed) % 4 {
        0 => Stick::Disconnected,
        1 => Stick::Silent,
        2 => Stick::Axis(next(seed) as i64 % 2_001 - 1_000),
        _ => Stick::Axis(next(seed) as i64 - (1 << 30)),
    };
    PaddleInput { up: next(seed) % 2 == 0, down: next(seed) % 3 == 0, stick }
}

#[test]
fn run_makes_one_tick_for_each_input() {
    let inputs = vec![quiet(); 100];
    let mut run = setup();
    let done = run.run(&inputs, TICK_NANOS);
    assert_eq!(done, 100);
    let mut stepped = setup();
    for input in inputs.iter() {
        stepped.tick(input, TICK_NANOS);
    }
    assert_eq!(run, stepped);
}

#[test]
fn run_of_no_inputs_changes_nothing() {
    let mut world = setup();
    assert_eq!(world.run(&vec![], TICK_NANOS), 0);
    assert_eq!(world, setup());
}

#[test]
fn run_stops_before_a_tick_that_cannot_be_represented() {
    let mut world = World::new(PaddleController::Idle, PaddleController::Idle);
    world.lockout = ServeLockout { elapsed: 1, duration: 1 };
    world.ball = Ball {
        position: Vec2 { x: COORD_LIMIT - 150_000, y: 0 },
        velocity: Vec2 { x: 100_000, y: 0 },
    };
    let done = world.run(&vec![quiet(); 10], TICK_NANOS);
    assert_eq!(done, 2);
    assert_eq!(world.ball.position.x, COORD_LIMIT + 50_000);
    assert!(!world.can_tick());
    assert!(world.is_valid());
}

#[test]
fn paddles_stay_within_their_travel_whatever_the_input() {
    let controllers = [
        PaddleController::Keyboard,
        PaddleController::Analog,
        PaddleController::Ai,
        PaddleController::Idle,
    ];
    let mut seed: u64 = 0x9E37_79B9_7F4A_7C15;
    for &p1 in controllers.iter() {
        for &p2 in controllers.iter() {
            let mut world = World::new(p1, p2);
            for _ in 0..3_000 {
                let input = TickInput { p1: any_input(&mut seed), p2: any_input(&mut seed) };
                assert!(world.can_tick());
                world.tick(&input, TICK_NANOS);
                assert!(world.is_valid());
                assert!(-1_440_000 <= world.p1.y && world.p1.y <= 1_440_000);
                assert!(-1_440_000 <= world.p2.y && world.p2.y <= 1_440_000);
                assert!(world.ball.velocity.x.abs() <= 100_000);
                assert!(world.ball.velocity.y.abs() <= 100_000);
            }
        }
    }
}

#[test]
fn keyboard_paddle_held_up_stops_at_the_top() {
    let mut world = World::new(PaddleController::Keyboard, PaddleController::Idle);
    let up = TickInput {
        p1: PaddleInput { up: true, down: false, stick: Stick::Disconnected },
        p2: idle(),
    };
    for tick in 1..=40 {
        world.tick(&up, TICK_NANOS);
        assert_eq!(world.p1.y, (50_000 * tick).min(1_440_000));
    }
    assert_eq!(world.p1.y, 1_440_000);
}

#[test]
fn scores_never_fall_and_the_match_is_repeatable() {
    let mut seed: u64 = 7;
    let mut inputs = Vec::new();
    for _ in 0..20_000 {
        inputs.push(TickInput { p1: any_input(&mut seed), p2: any_input(&mut seed) });
    }
    let mut world = World::new(PaddleController::Keyboard, PaddleController::Ai);
    let mut p1_score = 0;
    let mut p2_score = 0;
    for input in inputs.iter() {
        world.tick(input, TICK_NANOS);
        assert!(world.scoreboard.p1_score >= p1_score);
        assert!(world.scoreboard.p2_score >= p2_score);
        assert!(world.scoreboard.p1_score + world.scoreboard.p2_score <= p1_score + p2_score + 1);
        p1_score = world.scoreboard.p1_score;
        p2_score = world.scoreboard.p2_score;
    }
    assert!(p1_score + p2_score > 0);
    let mut again = World::new(PaddleController::Keyboard, PaddleController::Ai);
    assert_eq!(again.run(&inputs, TICK_NANOS), inputs.len());
    assert_eq!(again, world);
}

#[test]
fn ai_paddle_meets_a_level_ball() {
    let mut world = World::new(PaddleController::Idle, PaddleController::Ai);
    world.lockout = ServeLockout { elapsed: 1, duration: 1 };
    world.ball = Ball { position: Vec2 { x: 0, y: 600_000 }, velocity: Vec2 { x: 40_000, y: 0 } };
    let mut ticks = 0;
    while world.scoreboard.rally_intensity == 0 {
        world.tick(&quiet(), TICK_NANOS);
        ticks += 1;
        assert!(ticks <= 60);
        assert_eq!(world.scoreboard.p1_score, 0);
    }
    // The ball's leading edge reaches the paddle's face after 55 ticks.
    assert_eq!(ticks, 55);
    assert_eq!(world.ball.position, Vec2 { x: 2_200_000, y: 600_000 });
    let miss = (world.p2.y - world.ball.position.y).abs();
    assert!(miss <= world.p2.velocity_y.abs() + ticks, "miss {}", miss);
    assert!(world.ball.velocity.x < 0);
}

#[test]
fn ai_paddle_closes_the_gap_as_the_ball_closes_in() {
    let mut world = World::new(PaddleController::Keyboard, PaddleController::Ai);
    world.lockout = ServeLockout { elapsed: 1, duration: 1 };
    world.ball = Ball { position: Vec2 { x: -60_000, y: -900_000 }, velocity: Vec2 { x: 31_000, y: 0 } };
    world.p2.y = 1_200_000;
    let run_at_start: i128 = 2_220_000 + 60_000;
    let gap_at_start: i128 = 2_100_000;
    let mut seed: u64 = 99;
    let mut ticks: i128 = 0;
    // The ball stays in the open field while its centre is at most 2 190 000.
    while world.ball.position.x + 31_000 <= 2_190_000 {
        let input = TickInput { p1: any_input(&mut seed), p2: any_input(&mut seed) };
        world.tick(&input, TICK_NANOS);
        ticks += 1;
        let run = (2_220_000 - world.ball.position.x) as i128;
        let gap = (world.p2.y - world.ball.position.y).abs() as i128;
        assert!(gap * run_at_start <= gap_at_start * run + ticks * run_at_start);
        assert_eq!(world.ball.position.y, -900_000);
        assert_eq!(world.ball.velocity, Vec2 { x: 31_000, y: 0 });
        assert_eq!(world.scoreboard.rally_intensity, 0);
    }
    assert_eq!(ticks, 72);
    let gap = (world.p2.y - world.ball.position.y).abs();
    assert!(gap <= 2 * world.p2.velocity_y.abs() + 72, "gap {}", gap);
}

#[test]
fn ai_paddle_of_player_one_closes_the_gap_as_well() {
    let mut world = World::new(PaddleController::Ai, PaddleController::Keyboard);
    world.lockout = ServeLockout { elapsed: 1, duration: 1 };
    world.ball = Ball { position: Vec2 { x: 60_000, y: 900_000 }, velocity: Vec2 { x: -31_000, y: 0 } };
    world.p1.y = -1_200_000;
    let run_at_start: i128 = 2_220_000 + 60_000;
    let gap_at_start: i128 = 2_100_000;
    let mut seed: u64 = 5;
    let mut ticks: i128 = 0;
    while world.ball.position.x - 31_000 >= -2_190_000 {
        let input = TickInput { p1: any_input(&mut seed), p2: any_input(&mut seed) };
        world.tick(&input, TICK_NANOS);
        ticks += 1;
        let run = (world.ball.position.x + 2_220_000) as i128;
        let gap = (world.p1.y - world.ball.position.y).abs() as i128;
        assert!(gap * run_at_start <= gap_at_start * run + ticks * run_at_start);
        assert_eq!(world.ball.position.y, 900_000);
        assert_eq!(world.scoreboard.rally_intensity, 0);
    }
    assert_eq!(ticks, 72);
}

#[test]
fn ai_paddle_returns_the_opening_serve_of_a_match() {
    let mut world = World::new(PaddleController::Ai, PaddleController::Ai);
    let mut ticks = 0;
    while world.scoreboard.rally_intensity == 0 {
        world.tick(&quiet(), TICK_NANOS);
        ticks += 1;
        assert!(ticks <= 200);
    }
    assert_eq!(world.scoreboard.p1_score, 0);
    assert_eq!(world.scoreboard.p2_score, 0);
    assert!(world.ball.velocity.x > 0);
    assert!(world.ball.position.x < -2_100_000);
}
