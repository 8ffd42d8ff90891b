//! The predictive controller: it drives a paddle at the constant velocity
//! that would bring it level with the ball when the ball reaches the
//! paddle's side.

use crate::arena::{Player, BALL_SIZE, MIDLINE};
use crate::ball::{Ball, BallModel};
use crate::paddle::MAX_PADDLE_SPEED;
use crate::units::{
    clamp, clamp_wide, divide_toward_zero, lemma_quotient_toward_zero_error, magnitude,
    quotient_toward_zero, UNIT,
};
use vstd::prelude::*;

verus! {

/// Distance from the midline to the plane at which the controller expects
/// the ball to meet its paddle.
pub const CONTACT_DISTANCE: i64 = 370 * UNIT;

/// Horizontal position of the plane at which the ball is expected to meet
/// the paddle of `player`.
pub open spec fn contact_x(player: Player) -> int {
    match player {
        Player::One => -CONTACT_DISTANCE as int,
        Player::Two => CONTACT_DISTANCE as int,
    }
}

/// The controller of `player` engages: the ball flies toward that player's
/// side and its leading edge has crossed the midline.
pub open spec fn ai_engaged(player: Player, ball: BallModel) -> bool {
    match player {
        Player::One => ball.velocity.x < 0 && ball.position.x - BALL_SIZE / 2 < MIDLINE,
        Player::Two => ball.velocity.x > 0 && ball.position.x + BALL_SIZE / 2 > MIDLINE,
    }
}

/// The velocity that the controller would like before it is limited to the
/// speed of a paddle.
///
/// The time to contact is the horizontal distance from the ball to the
/// contact plane over the ball's horizontal velocity, and the velocity
/// wanted is the vertical distance from the paddle to the ball over that
/// time, rounded toward zero. With no distance left to the plane the paddle
/// is sent toward the ball at full speed.
pub open spec fn ai_wanted(player: Player, ball: BallModel, paddle_y: int) -> int {
    let run = contact_x(player) - ball.position.x;
    let distance = paddle_y - ball.position.y;
    if run == 0 {
        if distance < 0 {
            MAX_PADDLE_SPEED as int
        } else if distance > 0 {
            -MAX_PADDLE_SPEED as int
        } else {
            0
        }
    } else {
        quotient_toward_zero(-distance * ball.velocity.x, run)
    }
}

/// The velocity that the controller commands: the velocity wanted, limited
/// to the speed of a paddle, while it is engaged, and zero while it is not.
pub open spec fn ai_velocity(player: Player, ball: BallModel, paddle_y: int) -> int {
    if ai_engaged(player, ball) {
        clamp(ai_wanted(player, ball, paddle_y), -MAX_PADDLE_SPEED, MAX_PADDLE_SPEED as int)
    } else {
        0
    }
}

/// A product of a number below 2^64 in magnitude and one of at most 2^63
/// stays below 2^127.
proof fn lemma_wide_product(a: int, b: int)
    by (nonlinear_arith)
    requires
        -0x1_0000_0000_0000_0000 < a < 0x1_0000_0000_0000_0000,
        -0x8000_0000_0000_0000 <= b <= 0x8000_0000_0000_0000,
    ensures
        -0x8000_0000_0000_0000_0000_0000_0000_0000 < a * b
            < 0x8000_0000_0000_0000_0000_0000_0000_0000,
{
}

/// Computes the velocity that the predictive controller commands for the
/// paddle of `player`.
pub fn ai(player: Player, ball: &Ball, paddle_y: i64) -> (velocity: i64)
    ensures
        velocity == ai_velocity(player, ball@, paddle_y as int),
        -MAX_PADDLE_SPEED <= velocity <= MAX_PADDLE_SPEED,
{
    let half: i128 = (BALL_SIZE / 2) as i128;
    let engaged = match player {
        Player::One => ball.velocity.x < 0 && (ball.position.x as i128) - half < MIDLINE as i128,
        Player::Two => ball.velocity.x > 0 && (ball.position.x as i128) + half > MIDLINE as i128,
    };
    if !engaged {
        return 0;
    }
    let plane: i128 = match player {
        Player::One => -(CONTACT_DISTANCE as i128),
        Player::Two => CONTACT_DISTANCE as i128,
    };
    let run: i128 = plane - ball.position.x as i128;
    let distance: i128 = paddle_y as i128 - ball.position.y as i128;
    if run == 0 {
        if distance < 0 {
            MAX_PADDLE_SPEED
        } else if distance > 0 {
            -MAX_PADDLE_SPEED
        } else {
            0
        }
    } else {
        proof {
            lemma_wide_product(-distance as int, ball.velocity.x as int);
        }
        let wanted = divide_toward_zero(-distance * (ball.velocity.x as i128), run);
        clamp_wide(wanted, -MAX_PADDLE_SPEED, MAX_PADDLE_SPEED)
    }
}

/// The controller aims true. Take a ball that flies level toward the side of
/// an engaged controller and has not reached the contact plane, and a
/// paddle that needs no more than its full speed. Held for the time that
/// the ball needs to reach the plane, the commanded velocity brings the
/// paddle to the height of the ball but for the rounding of the velocity:
/// the miss, multiplied by the ball's horizontal velocity, is smaller than
/// the distance to the plane, which is to say that the miss is less than
/// one sub-unit for each tick of the flight.
pub proof fn lemma_ai_meets_ball(player: Player, ball: BallModel, paddle_y: int)
    requires
        ai_engaged(player, ball),
        ball.velocity.y == 0,
        (contact_x(player) - ball.position.x) * ball.velocity.x > 0,
        -MAX_PADDLE_SPEED <= ai_wanted(player, ball, paddle_y) <= MAX_PADDLE_SPEED,
    ensures
        magnitude(
            (paddle_y - ball.position.y) * ball.velocity.x + ai_velocity(player, ball, paddle_y)
                * (contact_x(player) - ball.position.x),
        ) < magnitude(contact_x(player) - ball.position.x),
        paddle_y == ball.position.y ==> ai_velocity(player, ball, paddle_y) == 0,
{
    let run = contact_x(player) - ball.position.x;
    let distance = paddle_y - ball.position.y;
    assert(run != 0) by (nonlinear_arith)
        requires
            run * ball.velocity.x > 0,
    ;
    lemma_quotient_toward_zero_error(-distance * ball.velocity.x, run);
    assert(-distance * ball.velocity.x == -(distance * ball.velocity.x)) by (nonlinear_arith);
    if distance == 0 {
        assert(-distance * ball.velocity.x == 0) by (nonlinear_arith)
            requires
                distance == 0,
        ;
    }
}

/// In whole ticks the paddle arrives within a tick of its own travel. Let
/// `ticks` be the number of ticks after which the ball has reached the
/// contact plane. A paddle that holds the commanded velocity for that many
/// ticks ends nearer to the height of the ball than the distance it covers
/// in one tick, plus one sub-unit for each tick to allow for the rounding
/// of the velocity.
pub proof fn lemma_ai_arrives_within_a_tick(
    player: Player,
    ball: BallModel,
    paddle_y: int,
    ticks: nat,
)
    requires
        ai_engaged(player, ball),
        ball.velocity.y == 0,
        (contact_x(player) - ball.position.x) * ball.velocity.x > 0,
        -MAX_PADDLE_SPEED <= ai_wanted(player, ball, paddle_y) <= MAX_PADDLE_SPEED,
        (ticks - 1) * magnitude(ball.velocity.x) < magnitude(contact_x(player) - ball.position.x)
            <= ticks * magnitude(ball.velocity.x),
    ensures
        magnitude(paddle_y + ticks * ai_velocity(player, ball, paddle_y) - ball.position.y)
            < magnitude(ai_velocity(player, ball, paddle_y)) + ticks,
{
    lemma_ai_meets_ball(player, ball, paddle_y);
    let run = contact_x(player) - ball.position.x;
    let distance = paddle_y - ball.position.y;
    let speed = ball.velocity.x;
    let v = ai_velocity(player, ball, paddle_y);
    lemma_arrival(distance, speed, run, v, ticks as int);
}

/// The arithmetic of the arrival: a velocity that misses by less than
/// `run` when measured against `speed` misses by less than its own size
/// plus the number of ticks when held for whole ticks.
proof fn lemma_arrival(distance: int, speed: int, run: int, v: int, ticks: int)
    by (nonlinear_arith)
    requires
        run * speed > 0,
        ticks >= 0,
        magnitude(distance * speed + v * run) < magnitude(run),
        (ticks - 1) * magnitude(speed) < magnitude(run) <= ticks * magnitude(speed),
    ensures
        magnitude(distance + ticks * v) < magnitude(v) + ticks,
{
}

/// A ball with no horizontal velocity engages no controller: the paddle is
/// told to stand still.
pub proof fn lemma_ai_parks_without_closing_speed(player: Player, ball: BallModel, paddle_y: int)
    requires
        ball.velocity.x == 0,
    ensures
        ai_velocity(player, ball, paddle_y) == 0,
{
}

} // verus!
