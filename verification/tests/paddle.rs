use pong_core::arena::{PADDLE_MAX_Y, PADDLE_MIN_Y};
use pong_core::paddle::{Paddle, PaddleCommand, PaddleController};

fn paddle_at(y: i64, velocity_y: i64) -> Paddle {
    Paddle { y, velocity_y, controller: PaddleController::Keyboard }
}

#[test]
fn travel_of_a_paddle() {
    assert_eq!(PADDLE_MIN_Y, -1_440_000);
    assert_eq!(PADDLE_MAX_Y, 1_440_000);
}

#[test]
fn new_paddle_rests_at_mid_height() {
    let paddle = Paddle::new(PaddleController::Ai);
    assert_eq!(paddle, Paddle { y: 0, velocity_y: 0, controller: PaddleController::Ai });
    assert!(paddle.is_valid());
}

#[test]
fn delta_moves_the_paddle() {
    let mut paddle = paddle_at(100_000, 0);
    paddle.apply(PaddleCommand::Delta(50_000));
    assert_eq!(paddle, paddle_at(150_000, 0));
    paddle.apply(PaddleCommand::Delta(-200_000));
    assert_eq!(paddle, paddle_at(-50_000, 0));
}

#[test]
fn delta_stops_at_the_ends_of_the_travel() {
    let mut paddle = paddle_at(1_430_000, 0);
    paddle.apply(PaddleCommand::Delta(50_000));
    assert_eq!(paddle.y, 1_440_000);
    paddle.apply(PaddleCommand::Delta(50_000));
    assert_eq!(paddle.y, 1_440_000);
    let mut paddle = paddle_at(-1_430_000, 0);
    paddle.apply(PaddleCommand::Delta(-50_000));
    assert_eq!(paddle.y, -1_440_000);
    paddle.apply(PaddleCommand::Delta(i64::MIN));
    assert_eq!(paddle.y, -1_440_000);
    paddle.apply(PaddleCommand::Delta(i64::MAX));
    assert_eq!(paddle.y, 1_440_000);
}

#[test]
fn absolute_places_the_paddle() {
    let mut paddle = paddle_at(100_000, 0);
    paddle.apply(PaddleCommand::Absolute(-750_000));
    assert_eq!(paddle, paddle_at(-750_000, 0));
    paddle.apply(PaddleCommand::Absolute(1_500_000));
    assert_eq!(paddle.y, 1_440_000);
    paddle.apply(PaddleCommand::Absolute(-1_500_000));
    assert_eq!(paddle.y, -1_440_000);
    paddle.apply(PaddleCommand::Absolute(i64::MAX));
    assert_eq!(paddle.y, 1_440_000);
}

#[test]
fn position_commands_leave_the_paddle_at_rest() {
    let mut paddle = paddle_at(100_000, 30_000);
    paddle.apply(PaddleCommand::Delta(0));
    assert_eq!(paddle, paddle_at(100_000, 0));
    let mut paddle = paddle_at(100_000, -30_000);
    paddle.apply(PaddleCommand::Absolute(5));
    assert_eq!(paddle, paddle_at(5, 0));
}

#[test]
fn velocity_command_leaves_the_paddle_in_place() {
    let mut paddle = paddle_at(100_000, 0);
    paddle.apply(PaddleCommand::Velocity(-7_407));
    assert_eq!(paddle, paddle_at(100_000, -7_407));
}

#[test]
fn velocity_command_is_limited_to_the_speed_of_a_paddle() {
    let mut paddle = paddle_at(0, 0);
    paddle.apply(PaddleCommand::Velocity(80_001));
    assert_eq!(paddle.velocity_y, 80_000);
    paddle.apply(PaddleCommand::Velocity(i64::MIN));
    assert_eq!(paddle.velocity_y, -80_000);
}

#[test]
fn integrate_moves_by_the_velocity_and_stops_at_the_ends() {
    let mut paddle = paddle_at(1_300_000, 80_000);
    paddle.integrate();
    assert_eq!(paddle, paddle_at(1_380_000, 80_000));
    paddle.integrate();
    assert_eq!(paddle, paddle_at(1_440_000, 80_000));
    paddle.integrate();
    assert_eq!(paddle, paddle_at(1_440_000, 80_000));
    let mut paddle = paddle_at(-1_400_000, -80_000);
    paddle.integrate();
    assert_eq!(paddle.y, -1_440_000);
}

#[test]
fn validity_of_a_paddle() {
    assert!(paddle_at(1_440_000, 80_000).is_valid());
    assert!(paddle_at(-1_440_000, -80_000).is_valid());
    assert!(!paddle_at(1_440_001, 0).is_valid());
    assert!(!paddle_at(-1_440_001, 0).is_valid());
    assert!(!paddle_at(0, 80_001).is_valid());
    assert!(!paddle_at(0, -80_001).is_valid());
}
