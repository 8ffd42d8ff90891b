use pong_core::arena::Player;
use pong_core::bounce::{
    bounce, BALL_SPEED, DIAGONAL_SPEED, HALF_PADDLE, MAX_BALL_SPEED, RALLY_BONUS,
};
use pong_core::geometry::Vec2;

#[test]
fn bounce_constants() {
    assert_eq!(BALL_SPEED, 40_000);
    assert_eq!(RALLY_BONUS, 400);
    assert_eq!(MAX_BALL_SPEED, 100_000);
    assert_eq!(HALF_PADDLE, 360_000);
    assert_eq!(DIAGONAL_SPEED, 28_284);
}

#[test]
fn center_hit_is_returned_level() {
    assert_eq!(bounce(Player::One, 0, 0, 0), Vec2 { x: 40_000, y: 0 });
    assert_eq!(bounce(Player::Two, 0, 0, 0), Vec2 { x: -40_000, y: 0 });
    assert_eq!(bounce(Player::One, 123_456, 123_456, 1), Vec2 { x: 40_400, y: 400 });
    assert_eq!(bounce(Player::Two, -7, -7, 1), Vec2 { x: -40_400, y: -400 });
}

#[test]
fn hit_on_the_upper_end_leaves_at_full_deflection_upward() {
    // Ball above the paddle's centre by half the paddle's height.
    assert_eq!(bounce(Player::One, 0, 360_000, 0), Vec2 { x: 28_284, y: 28_284 });
    assert_eq!(bounce(Player::Two, 0, 360_000, 0), Vec2 { x: -28_284, y: 28_284 });
}

#[test]
fn hit_on_the_lower_end_leaves_at_full_deflection_downward() {
    assert_eq!(bounce(Player::One, 0, -360_000, 0), Vec2 { x: 28_284, y: -28_284 });
    assert_eq!(bounce(Player::Two, 0, -360_000, 0), Vec2 { x: -28_284, y: -28_284 });
}

#[test]
fn hit_beyond_the_end_is_no_steeper_than_the_end() {
    assert_eq!(bounce(Player::One, 0, 450_000, 0), bounce(Player::One, 0, 360_000, 0));
    assert_eq!(bounce(Player::Two, 0, -449_999, 3), bounce(Player::Two, 0, -360_000, 3));
    assert_eq!(bounce(Player::One, i64::MIN, i64::MAX, 0), Vec2 { x: 28_284, y: 28_284 });
    assert_eq!(bounce(Player::One, i64::MAX, i64::MIN, 0), Vec2 { x: 28_284, y: -28_284 });
}

#[test]
fn hit_halfway_up_the_paddle() {
    // An eighth of pi: cosine 0.92388, sine 0.38268.
    assert_eq!(bounce(Player::One, 0, 180_000, 0), Vec2 { x: 36_955, y: 15_307 });
    assert_eq!(bounce(Player::One, 0, -180_000, 0), Vec2 { x: 36_955, y: -15_307 });
    assert_eq!(bounce(Player::Two, 0, 180_000, 0), Vec2 { x: -36_955, y: 15_307 });
    assert_eq!(bounce(Player::One, 0, -90_000, 0), Vec2 { x: 39_231, y: -7_803 });
}

#[test]
fn rally_bonus_is_added_for_player_one_and_taken_for_player_two() {
    assert_eq!(bounce(Player::One, 0, 180_000, 5), Vec2 { x: 38_955, y: 17_307 });
    assert_eq!(bounce(Player::One, 0, -180_000, 5), Vec2 { x: 38_955, y: -13_307 });
    assert_eq!(bounce(Player::Two, 0, 180_000, 5), Vec2 { x: -38_955, y: 13_307 });
    assert_eq!(bounce(Player::Two, 0, -180_000, 5), Vec2 { x: -38_955, y: -17_307 });
}

#[test]
fn speed_is_limited_on_both_axes() {
    assert_eq!(bounce(Player::One, 0, 0, 150), Vec2 { x: 100_000, y: 60_000 });
    assert_eq!(bounce(Player::One, 0, 0, 149), Vec2 { x: 99_600, y: 59_600 });
    assert_eq!(bounce(Player::One, 0, 0, 250), Vec2 { x: 100_000, y: 100_000 });
    assert_eq!(bounce(Player::Two, 0, 0, 251), Vec2 { x: -100_000, y: -100_000 });
    assert_eq!(bounce(Player::One, 0, -360_000, u64::MAX), Vec2 { x: 100_000, y: 100_000 });
    assert_eq!(bounce(Player::Two, 0, 360_000, u64::MAX), Vec2 { x: -100_000, y: -100_000 });
}

#[test]
fn mirrored_hits_are_returned_at_mirrored_angles() {
    let mut offset = 0i64;
    while offset <= 400_000 {
        let up = bounce(Player::One, 1_000, 1_000 + offset, 0);
        let down = bounce(Player::One, 1_000, 1_000 - offset, 0);
        assert_eq!(up.x, down.x);
        assert_eq!(up.y, -down.y);
        offset += 1_237;
    }
}

#[test]
fn bounce_follows_cosine_and_sine_within_two_steps() {
    let mut offset = -360_000i64;
    while offset <= 360_000 {
        let angle = offset as f64 / 360_000.0 * std::f64::consts::FRAC_PI_4;
        let velocity = bounce(Player::One, offset, 0, 0);
        // The offset is the paddle's height minus the ball's.
        let forward = 40_000.0 * angle.cos();
        let upward = -40_000.0 * angle.sin();
        assert!((velocity.x as f64 - forward).abs() < 2.0, "offset {}", offset);
        assert!((velocity.y as f64 - upward).abs() < 2.0, "offset {}", offset);
        offset += 997;
    }
}

#[test]
fn deflection_grows_with_the_offset() {
    let mut last = bounce(Player::One, 0, 0, 0);
    let mut offset = 3_600i64;
    while offset <= 360_000 {
        let next = bounce(Player::One, 0, offset, 0);
        assert!(next.y >= last.y);
        assert!(next.x <= last.x);
        assert!(next.y <= next.x);
        last = next;
        offset += 3_600;
    }
}
