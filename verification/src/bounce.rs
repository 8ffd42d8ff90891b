//! The return off a paddle: where on the paddle the ball struck decides the
//! angle at which it leaves, and the length of the rally adds speed.
//!
//! The offset of the strike from the paddle's centre, as a fraction of half
//! the paddle's height, is limited to the range from -1 to 1 and scaled to an
//! angle of at most a quarter of pi to either side. Cosine and sine of that
//! angle are taken from the first four terms of their power series, written
//! in the square of the fraction and evaluated in fixed point, every product
//! rounded down. What is stated and proved here is stated of those series.

use crate::arena::Player;
use crate::geometry::{Vec2, Vec2Model};
use crate::units::{clamp, clamp_wide, magnitude, SPEED_UNIT, UNIT};
use vstd::prelude::*;

verus! {

/// Speed of the ball as it leaves a paddle, before the rally bonus.
pub const BALL_SPEED: i64 = 400 * SPEED_UNIT;

/// Speed added to both components for each contact of the running rally.
pub const RALLY_BONUS: i64 = 4 * SPEED_UNIT;

/// Largest magnitude that a component of the ball's velocity may take.
pub const MAX_BALL_SPEED: i64 = 1000 * SPEED_UNIT;

/// The number one in the fixed-point scale of the series.
pub const ONE: i64 = 1_000_000_000;

/// Half the height of a paddle: the offset at which the deflection is full.
pub const HALF_PADDLE: i64 = 60 * UNIT;

/// Second coefficient of the cosine series, scaled by `ONE`: the square of
/// a quarter of pi over 2. The first coefficient is `ONE` itself.
pub const COS_1: i64 = 308_425_138;

/// Third coefficient of the cosine series: the fourth power over 24.
pub const COS_2: i64 = 15_854_344;

/// Fourth coefficient of the cosine series: the sixth power over 720.
pub const COS_3: i64 = 325_992;

/// First coefficient of the sine series, scaled by `ONE`: a quarter of pi.
pub const SIN_0: i64 = 785_398_163;

/// Second coefficient of the sine series: the third power over 6.
pub const SIN_1: i64 = 80_745_512;

/// Third coefficient of the sine series: the fifth power over 120.
pub const SIN_2: i64 = 2_490_395;

/// Fourth coefficient of the sine series: the seventh power over 5040.
pub const SIN_3: i64 = 36_576;

/// Speed along each axis when the deflection is full: `BALL_SPEED` times the
/// cosine, or sine, of a quarter of pi.
pub const DIAGONAL_SPEED: i64 = 28_284;

/// The magnitude of the offset as a fraction of half the paddle's height,
/// limited to one and scaled by `ONE`.
pub open spec fn deflection(offset: int) -> int {
    clamp(magnitude(offset), 0, HALF_PADDLE as int) * ONE / (HALF_PADDLE as int)
}

/// The cosine series at the angle that belongs to a deflection, scaled by
/// `ONE`.
pub open spec fn cosine(deflection: int) -> int {
    let square = deflection * deflection / (ONE as int);
    let third = COS_2 - square * COS_3 / (ONE as int);
    let second = COS_1 - square * third / (ONE as int);
    ONE - square * second / (ONE as int)
}

/// The sine series at the angle that belongs to a deflection, scaled by
/// `ONE`.
pub open spec fn sine(deflection: int) -> int {
    let square = deflection * deflection / (ONE as int);
    let third = SIN_2 - square * SIN_3 / (ONE as int);
    let second = SIN_1 - square * third / (ONE as int);
    let first = SIN_0 - square * second / (ONE as int);
    deflection * first / (ONE as int)
}

/// Speed of the return along the horizontal axis, away from the paddle:
/// `BALL_SPEED` times the cosine of the angle.
pub open spec fn forward_speed(offset: int) -> int {
    BALL_SPEED * cosine(deflection(offset)) / (ONE as int)
}

/// `BALL_SPEED` times the sine of the angle, with the sign of the offset.
pub open spec fn lateral_speed(offset: int) -> int {
    let speed = BALL_SPEED * sine(deflection(offset)) / (ONE as int);
    if offset < 0 {
        -speed
    } else {
        speed
    }
}

/// Velocity of the ball after it has met the paddle of `player`.
///
/// `offset` is the paddle's height minus the ball's, and `rally` the rally
/// intensity with this contact counted. The ball leaves toward the other
/// half. The bonus is added to both components for player one and taken from
/// both for player two, and each component is limited to `MAX_BALL_SPEED`.
pub open spec fn bounce_velocity(player: Player, offset: int, rally: nat) -> Vec2Model {
    let bonus = RALLY_BONUS * rally;
    let limit = MAX_BALL_SPEED as int;
    match player {
        Player::One => Vec2Model {
            x: clamp(forward_speed(offset) + bonus, -limit, limit),
            y: clamp(-lateral_speed(offset) + bonus, -limit, limit),
        },
        Player::Two => Vec2Model {
            x: clamp(-(forward_speed(offset) + bonus), -limit, limit),
            y: clamp(-(lateral_speed(offset) + bonus), -limit, limit),
        },
    }
}

/// A product of two bounded non-negative numbers is bounded by the product
/// of the bounds.
proof fn lemma_product_bounded(x: int, y: int, x_max: int, y_max: int)
    by (nonlinear_arith)
    requires
        0 <= x <= x_max,
        0 <= y <= y_max,
    ensures
        0 <= x * y <= x_max * y_max,
{
}

/// Cosine and sine stay within the range that the series gives them on the
/// deflections from zero to one.
pub proof fn lemma_series_bounds(deflection: int)
    requires
        0 <= deflection <= ONE,
    ensures
        ONE - COS_1 <= cosine(deflection) <= ONE,
        0 <= sine(deflection) <= SIN_0,
{
    let one = ONE as int;
    lemma_product_bounded(deflection, deflection, one, one);
    let square = deflection * deflection / one;
    assert(0 <= square <= one);
    let cos_third = COS_2 - square * COS_3 / one;
    assert(0 <= cos_third <= COS_2);
    lemma_product_bounded(square, cos_third, one, COS_2 as int);
    let cos_second = COS_1 - square * cos_third / one;
    assert(0 <= cos_second <= COS_1);
    lemma_product_bounded(square, cos_second, one, COS_1 as int);
    let sin_third = SIN_2 - square * SIN_3 / one;
    assert(0 <= sin_third <= SIN_2);
    lemma_product_bounded(square, sin_third, one, SIN_2 as int);
    let sin_second = SIN_1 - square * sin_third / one;
    assert(0 <= sin_second <= SIN_1);
    lemma_product_bounded(square, sin_second, one, SIN_1 as int);
    let sin_first = SIN_0 - square * sin_second / one;
    assert(0 <= sin_first <= SIN_0);
    lemma_product_bounded(deflection, sin_first, one, SIN_0 as int);
}

/// At no deflection the cosine is one and the sine zero.
proof fn lemma_series_at_zero()
    ensures
        deflection(0) == 0,
        cosine(0) == ONE,
        sine(0) == 0,
{
    let one = ONE as int;
    let square = 0int * 0int / one;
    assert(square == 0);
    assert(square * COS_3 / one == 0);
    let cos_third = COS_2 - square * COS_3 / one;
    assert(square * cos_third == 0) by (nonlinear_arith)
        requires
            square == 0,
    ;
    let cos_second = COS_1 - square * cos_third / one;
    assert(square * cos_second == 0) by (nonlinear_arith)
        requires
            square == 0,
    ;
    let sin_third = SIN_2 - square * SIN_3 / one;
    assert(square * sin_third == 0) by (nonlinear_arith)
        requires
            square == 0,
    ;
    let sin_second = SIN_1 - square * sin_third / one;
    assert(square * sin_second == 0) by (nonlinear_arith)
        requires
            square == 0,
    ;
    let sin_first = SIN_0 - square * sin_second / one;
    assert(0 * sin_first == 0) by (nonlinear_arith);
}

/// At full deflection cosine and sine take the values that the series
/// gives for a quarter of pi.
proof fn lemma_series_at_one()
    ensures
        cosine(ONE as int) == 707_103_214,
        sine(ONE as int) == 707_106_470,
{
    let one = ONE as int;
    assert(one * one == 1_000_000_000_000_000_000) by (nonlinear_arith)
        requires
            one == 1_000_000_000,
    ;
    let square = one * one / one;
    assert(square == one);
    let cos_third = COS_2 - square * COS_3 / one;
    assert(cos_third == 15_528_352);
    assert(square * cos_third == 15_528_352_000_000_000) by (nonlinear_arith)
        requires
            square == 1_000_000_000,
            cos_third == 15_528_352,
    ;
    let cos_second = COS_1 - square * cos_third / one;
    assert(cos_second == 292_896_786);
    assert(square * cos_second == 292_896_786_000_000_000) by (nonlinear_arith)
        requires
            square == 1_000_000_000,
            cos_second == 292_896_786,
    ;
    let sin_third = SIN_2 - square * SIN_3 / one;
    assert(sin_third == 2_453_819);
    assert(square * sin_third == 2_453_819_000_000_000) by (nonlinear_arith)
        requires
            square == 1_000_000_000,
            sin_third == 2_453_819,
    ;
    let sin_second = SIN_1 - square * sin_third / one;
    assert(sin_second == 78_291_693);
    assert(square * sin_second == 78_291_693_000_000_000) by (nonlinear_arith)
        requires
            square == 1_000_000_000,
            sin_second == 78_291_693,
    ;
    let sin_first = SIN_0 - square * sin_second / one;
    assert(sin_first == 707_106_470);
    assert(one * sin_first == 707_106_470_000_000_000) by (nonlinear_arith)
        requires
            one == 1_000_000_000,
            sin_first == 707_106_470,
    ;
}

/// Evaluates the deflection that belongs to an offset.
fn deflection_of(offset: i128) -> (d: i64)
    ensures
        d == deflection(offset as int),
        0 <= d <= ONE,
{
    let reach: i64 = if offset >= HALF_PADDLE as i128 || offset <= -(HALF_PADDLE as i128) {
        HALF_PADDLE
    } else if offset < 0 {
        (-offset) as i64
    } else {
        offset as i64
    };
    reach * ONE / HALF_PADDLE
}

/// Evaluates the cosine series.
fn cosine_of(deflection: i64) -> (c: i64)
    requires
        0 <= deflection <= ONE,
    ensures
        c == cosine(deflection as int),
        ONE - COS_1 <= c <= ONE,
{
    proof {
        lemma_series_bounds(deflection as int);
        lemma_product_bounded(deflection as int, deflection as int, ONE as int, ONE as int);
    }
    let square: i64 = deflection * deflection / ONE;
    let third: i64 = COS_2 - square * COS_3 / ONE;
    proof {
        lemma_product_bounded(square as int, third as int, ONE as int, COS_2 as int);
    }
    let second: i64 = COS_1 - square * third / ONE;
    proof {
        lemma_product_bounded(square as int, second as int, ONE as int, COS_1 as int);
    }
    ONE - square * second / ONE
}

/// Evaluates the sine series.
fn sine_of(deflection: i64) -> (s: i64)
    requires
        0 <= deflection <= ONE,
    ensures
        s == sine(deflection as int),
        0 <= s <= SIN_0,
{
    proof {
        lemma_series_bounds(deflection as int);
        lemma_product_bounded(deflection as int, deflection as int, ONE as int, ONE as int);
    }
    let square: i64 = deflection * deflection / ONE;
    let third: i64 = SIN_2 - square * SIN_3 / ONE;
    proof {
        lemma_product_bounded(square as int, third as int, ONE as int, SIN_2 as int);
    }
    let second: i64 = SIN_1 - square * third / ONE;
    proof {
        lemma_product_bounded(square as int, second as int, ONE as int, SIN_1 as int);
    }
    let first: i64 = SIN_0 - square * second / ONE;
    proof {
        lemma_product_bounded(deflection as int, first as int, ONE as int, SIN_0 as int);
    }
    deflection * first / ONE
}

/// A strike on the exact centre of the paddle is returned level: the whole
/// of `BALL_SPEED` lies along the horizontal axis, and only the rally bonus
/// is left on the vertical one.
pub proof fn lemma_center_hit_is_level(player: Player, rally: nat)
    ensures
        forward_speed(0) == BALL_SPEED,
        lateral_speed(0) == 0,
        bounce_velocity(player, 0, rally) == match player {
            Player::One => Vec2Model {
                x: clamp(BALL_SPEED + RALLY_BONUS * rally, -MAX_BALL_SPEED, MAX_BALL_SPEED as int),
                y: clamp(RALLY_BONUS * rally, -MAX_BALL_SPEED, MAX_BALL_SPEED as int),
            },
            Player::Two => Vec2Model {
                x: clamp(-(BALL_SPEED + RALLY_BONUS * rally), -MAX_BALL_SPEED, MAX_BALL_SPEED as int),
                y: clamp(-(RALLY_BONUS * rally), -MAX_BALL_SPEED, MAX_BALL_SPEED as int),
            },
        },
{
    lemma_series_at_zero();
}

/// A strike at the end of the paddle, or beyond it, is returned at the full
/// deflection of a quarter of pi: both axes carry the same speed,
/// `DIAGONAL_SPEED`, and the vertical one points away from the paddle's
/// centre.
pub proof fn lemma_edge_hit_is_steepest(offset: int)
    requires
        magnitude(offset) >= HALF_PADDLE,
    ensures
        forward_speed(offset) == DIAGONAL_SPEED,
        offset > 0 ==> lateral_speed(offset) == DIAGONAL_SPEED,
        offset < 0 ==> lateral_speed(offset) == -DIAGONAL_SPEED,
{
    assert(deflection(offset) == ONE);
    lemma_series_at_one();
}

/// Strikes at mirrored offsets are returned at mirrored angles: the same
/// speed along the horizontal axis, the opposite one along the vertical.
pub proof fn lemma_bounce_is_symmetric(offset: int)
    ensures
        forward_speed(-offset) == forward_speed(offset),
        lateral_speed(-offset) == -lateral_speed(offset),
{
    assert(deflection(-offset) == deflection(offset));
    lemma_speed_bounds(offset);
    if offset == 0 {
        lemma_center_hit_is_level(Player::One, 0);
    }
}

/// Whatever the offset, the return keeps most of its speed on the
/// horizontal axis, and neither axis exceeds `BALL_SPEED`.
pub proof fn lemma_speed_bounds(offset: int)
    ensures
        27_662 <= forward_speed(offset) <= BALL_SPEED,
        -31_416 < lateral_speed(offset) < 31_416,
        offset >= 0 ==> lateral_speed(offset) >= 0,
        offset <= 0 ==> lateral_speed(offset) <= 0,
{
    lemma_series_bounds(deflection(offset));
    if offset == 0 {
        lemma_series_at_zero();
    }
}

/// The ball always leaves a paddle toward the other half, at no less than
/// two thirds of `BALL_SPEED` along the horizontal axis, and never faster on
/// either axis than `MAX_BALL_SPEED`.
pub proof fn lemma_bounce_leaves_paddle(player: Player, offset: int, rally: nat)
    ensures
        player == Player::One ==> bounce_velocity(player, offset, rally).x >= 27_662,
        player == Player::Two ==> bounce_velocity(player, offset, rally).x <= -27_662,
        -MAX_BALL_SPEED <= bounce_velocity(player, offset, rally).x <= MAX_BALL_SPEED,
        -MAX_BALL_SPEED <= bounce_velocity(player, offset, rally).y <= MAX_BALL_SPEED,
{
    lemma_speed_bounds(offset);
    assert(RALLY_BONUS * rally >= 0) by (nonlinear_arith)
        requires
            RALLY_BONUS == 400,
            rally >= 0,
    ;
}

/// Computes the velocity of the ball after it has met the paddle of
/// `player`, from the heights of paddle and ball and the rally intensity
/// with this contact counted.
pub fn bounce(player: Player, paddle_y: i64, ball_y: i64, rally: u64) -> (velocity: Vec2)
    ensures
        velocity@ == bounce_velocity(player, paddle_y - ball_y, rally as nat),
{
    let offset: i128 = paddle_y as i128 - ball_y as i128;
    let deflection = deflection_of(offset);
    let forward: i128 = (BALL_SPEED * cosine_of(deflection) / ONE) as i128;
    let sideways: i128 = (BALL_SPEED * sine_of(deflection) / ONE) as i128;
    let lateral: i128 = if offset < 0 { -sideways } else { sideways };
    assert(0 <= RALLY_BONUS * rally <= 400 * u64::MAX) by (nonlinear_arith)
        requires
            RALLY_BONUS == 400,
            0 <= rally <= u64::MAX,
    ;
    let bonus: i128 = RALLY_BONUS as i128 * rally as i128;
    let limit = MAX_BALL_SPEED;
    match player {
        Player::One => Vec2 {
            x: clamp_wide(forward + bonus, -limit, limit),
            y: clamp_wide(-lateral + bonus, -limit, limit),
        },
        Player::Two => Vec2 {
            x: clamp_wide(-(forward + bonus), -limit, limit),
            y: clamp_wide(-(lateral + bonus), -limit, limit),
        },
    }
}

} // verus!
