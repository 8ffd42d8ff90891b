//! What the predictive controller achieves over a run of ticks: it closes
//! on a ball that flies level toward its side in step with the ball's
//! approach.

use crate::ai::{ai_engaged, ai_velocity, ai_wanted, contact_x};
use crate::arena::{Player, PADDLE_MAX_Y, PADDLE_MIN_Y};
use crate::collision::{in_open_field, lemma_clear_ball_is_left_alone, lemma_open_field_is_clear};
use crate::geometry::Vec2Model;
use crate::input::TickInput;
use crate::paddle::{PaddleController, MAX_PADDLE_SPEED};
use crate::units::{magnitude, quotient_toward_zero};
use crate::world::WorldModel;
use vstd::prelude::*;

verus! {

/// The state in which the controller of `player` pursues a level ball: play
/// is live, the ball flies level toward that player's side at a height that
/// the paddle can reach, and the controller is engaged.
pub open spec fn pursuing(world: WorldModel, player: Player) -> bool {
    &&& world.wf()
    &&& world.lockout.finished()
    &&& world.paddle(player).controller == PaddleController::Ai
    &&& ai_engaged(player, world.ball)
    &&& world.ball.velocity.y == 0
    &&& PADDLE_MIN_Y <= world.ball.position.y <= PADDLE_MAX_Y
}

/// Speed at which the ball approaches the side of `player`.
pub open spec fn closing_speed(world: WorldModel, player: Player) -> int {
    match player {
        Player::One => -world.ball.velocity.x,
        Player::Two => world.ball.velocity.x,
    }
}

/// Horizontal distance that the ball has left to the contact plane of
/// `player`.
pub open spec fn run_left(world: WorldModel, player: Player) -> int {
    match player {
        Player::One => world.ball.position.x - contact_x(player),
        Player::Two => contact_x(player) - world.ball.position.x,
    }
}

/// Vertical distance from the ball to the paddle of `player`.
pub open spec fn gap(world: WorldModel, player: Player) -> int {
    world.paddle(player).y - world.ball.position.y
}

/// The place of the ball after it has flown on for a number of ticks.
pub open spec fn flown(world: WorldModel, ticks: nat) -> Vec2Model {
    Vec2Model {
        x: world.ball.position.x + ticks * world.ball.velocity.x,
        y: world.ball.position.y + ticks * world.ball.velocity.y,
    }
}

/// One tick of pursuit. While the ball is at least a tick away from the
/// contact plane and the velocity wanted is within the paddle's speed, a
/// tick moves the ball on by its velocity and does nothing else to it, and
/// shrinks the gap in the proportion in which the ball's run has shrunk, but
/// for the rounding of one sub-unit.
pub proof fn lemma_pursuit_tick(world: WorldModel, player: Player, input: TickInput, delta: nat)
    requires
        pursuing(world, player),
        in_open_field(flown(world, 1)),
        run_left(world, player) >= closing_speed(world, player),
        magnitude(gap(world, player)) * closing_speed(world, player) <= MAX_PADDLE_SPEED
            * run_left(world, player),
    ensures
        pursuing(world.tick(input, delta), player),
        world.tick(input, delta).ball.velocity == world.ball.velocity,
        world.tick(input, delta).ball.position == flown(world, 1),
        world.tick(input, delta).scoreboard == world.scoreboard,
        magnitude(gap(world.tick(input, delta), player)) <= magnitude(gap(world, player)),
        magnitude(gap(world.tick(input, delta), player)) * run_left(world, player) <= magnitude(
            gap(world, player),
        ) * (run_left(world, player) - closing_speed(world, player)) + run_left(world, player),
{
    let speed = closing_speed(world, player);
    let run = run_left(world, player);
    let d = gap(world, player);
    let paddle = world.paddle(player);
    let steered = world.move_paddles(input);
    assert(steered.ball == world.ball);
    assert(steered.paddle(player).y == paddle.y);
    let wanted = ai_wanted(player, world.ball, paddle.y);
    assert(wanted == quotient_toward_zero(-d * speed, run)) by {
        match player {
            Player::One => {
                lemma_quotient_of_opposites(-d * world.ball.velocity.x, -run);
                assert(-(-d * world.ball.velocity.x) == -d * speed) by (nonlinear_arith)
                    requires
                        speed == -world.ball.velocity.x,
                ;
            },
            Player::Two => {},
        }
    }
    lemma_pursuit_step(d, speed, run, wanted, MAX_PADDLE_SPEED as int);
    assert(ai_velocity(player, world.ball, paddle.y) == wanted);
    assert(steered.paddle(player).velocity_y == wanted);
    let moved = steered.apply_velocity(delta);
    assert(moved.lockout.finished());
    assert(moved.paddle(player).y == paddle.y + wanted);
    assert(moved.ball.position == flown(world, 1));
    lemma_open_field_is_clear(moved);
    lemma_clear_ball_is_left_alone(moved);
}

/// Rounding toward zero gives the same quotient when dividend and divisor
/// both change sign.
proof fn lemma_quotient_of_opposites(a: int, b: int)
    ensures
        quotient_toward_zero(-a, -b) == quotient_toward_zero(a, b),
{
}

/// The arithmetic of one tick of pursuit: the step toward the ball is no
/// longer than the gap, it is within the limit, and it leaves the gap
/// shrunk in proportion.
proof fn lemma_pursuit_step(d: int, speed: int, run: int, wanted: int, limit: int)
    requires
        0 < speed <= run,
        limit >= 0,
        magnitude(d) * speed <= limit * run,
        wanted == quotient_toward_zero(-d * speed, run),
    ensures
        -limit <= wanted <= limit,
        magnitude(wanted) <= magnitude(d),
        d > 0 ==> wanted <= 0,
        d < 0 ==> wanted >= 0,
        magnitude(d + wanted) <= magnitude(d),
        magnitude(d + wanted) * run <= magnitude(d) * (run - speed) + run,
{
    let m = magnitude(d);
    let q = (m * speed) / run;
    lemma_floor_quotient(m, speed, run, limit);
    assert(magnitude(-d * speed) == m * speed) by (nonlinear_arith)
        requires
            m == magnitude(d),
            speed > 0,
    ;
    assert(d > 0 ==> -d * speed < 0) by (nonlinear_arith)
        requires
            speed > 0,
    ;
    assert(d < 0 ==> -d * speed > 0) by (nonlinear_arith)
        requires
            speed > 0,
    ;
    assert(d == 0 ==> -d * speed == 0) by (nonlinear_arith);
    assert(magnitude(wanted) == q);
    assert(magnitude(d + wanted) == m - q);
    assert((m - q) * run == m * run - q * run) by (nonlinear_arith);
    assert(m * (run - speed) == m * run - m * speed) by (nonlinear_arith);
}

/// The quotient of the gap times the speed by the run, rounded down: it is
/// no larger than the gap or the limit, and falls short of the exact
/// quotient by less than one.
proof fn lemma_floor_quotient(m: int, speed: int, run: int, limit: int)
    by (nonlinear_arith)
    requires
        m >= 0,
        0 < speed <= run,
        m * speed <= limit * run,
    ensures
        0 <= (m * speed) / run <= m,
        (m * speed) / run <= limit,
        m * speed - run < ((m * speed) / run) * run <= m * speed,
{
}

/// The controller closes on a level ball. Take a match in which `player` is
/// steered by the controller, play is live, and the ball flies level toward
/// that player's side through the open field for as many ticks as there are
/// inputs, at a height that the paddle can reach. If the velocity wanted at
/// the start leaves the paddle's speed a margin of one step for each tick,
/// then after the run the ball has simply flown on, nothing has been scored,
/// and the gap between paddle and ball has shrunk in the proportion in
/// which the ball's distance to the contact plane has shrunk, but for one
/// sub-unit of rounding for each tick. When the ball is within one tick of
/// the plane, the paddle is therefore within one tick of its own travel of
/// the ball's height, but for that rounding.
pub proof fn lemma_ai_closes_on_level_ball(
    world: WorldModel,
    player: Player,
    inputs: Seq<TickInput>,
    delta: nat,
)
    requires
        pursuing(world, player),
        in_open_field(world.ball.position),
        in_open_field(flown(world, inputs.len())),
        magnitude(gap(world, player)) * closing_speed(world, player) <= (MAX_PADDLE_SPEED
            - inputs.len()) * run_left(world, player),
    ensures
        pursuing(world.run(inputs, delta), player),
        world.run(inputs, delta).ball.velocity == world.ball.velocity,
        world.run(inputs, delta).ball.position == flown(world, inputs.len()),
        world.run(inputs, delta).scoreboard == world.scoreboard,
        magnitude(gap(world.run(inputs, delta), player)) * run_left(world, player) <= magnitude(
            gap(world, player),
        ) * run_left(world.run(inputs, delta), player) + inputs.len() * run_left(world, player),
    decreases inputs.len(),
{
    let n = inputs.len() as int;
    let speed = closing_speed(world, player);
    let run0 = run_left(world, player);
    let d0 = magnitude(gap(world, player));
    let vx = world.ball.velocity.x;
    assert(n * world.ball.velocity.y == 0) by (nonlinear_arith)
        requires
            world.ball.velocity.y == 0,
    ;
    if n == 0 {
        assert(n * vx == 0) by (nonlinear_arith)
            requires
                n == 0,
        ;
        assert(d0 * run0 <= d0 * run0 + n * run0) by (nonlinear_arith)
            requires
                n == 0,
        ;
    } else {
        let front = inputs.drop_last();
        let k = n - 1;
        assert(k * vx + vx == n * vx) by (nonlinear_arith)
            requires
                k == n - 1,
        ;
        assert(k * speed >= 0 && n * speed == k * speed + speed) by (nonlinear_arith)
            requires
                k == n - 1,
                k >= 0,
                speed > 0,
        ;
        assert(k * vx == match player {
            Player::One => -(k * speed),
            Player::Two => k * speed,
        }) by (nonlinear_arith)
            requires
                speed == match player {
                    Player::One => -vx,
                    Player::Two => vx,
                },
        ;
        assert(k * world.ball.velocity.y == 0) by (nonlinear_arith)
            requires
                world.ball.velocity.y == 0,
        ;
        assert(1 * vx == vx && 1 * world.ball.velocity.y == 0) by (nonlinear_arith)
            requires
                world.ball.velocity.y == 0,
        ;
        assert(run0 > 0);
        assert((MAX_PADDLE_SPEED - n) * run0 <= (MAX_PADDLE_SPEED - k) * run0) by (nonlinear_arith)
            requires
                k == n - 1,
                run0 >= 0,
        ;
        assert(in_open_field(flown(world, k as nat)));
        lemma_ai_closes_on_level_ball(world, player, front, delta);
        let before = world.run(front, delta);
        let run_k = run_left(before, player);
        let d_k = magnitude(gap(before, player));
        assert(run_k == run0 - k * speed);
        assert(run_k >= speed + 1);
        assert(closing_speed(before, player) == speed);
        lemma_pursuit_margin(d0, d_k, speed, run0, run_k, k, n, MAX_PADDLE_SPEED as int);
        assert(flown(before, 1) == flown(world, n as nat));
        lemma_pursuit_tick(before, player, inputs.last(), delta);
        let after = before.tick(inputs.last(), delta);
        let d_n = magnitude(gap(after, player));
        assert(run_left(after, player) == run_k - speed);
        lemma_pursuit_chain(d0, d_k, d_n, speed, run0, run_k, k);
    }
}

/// The margin at the start keeps the velocity wanted within the limit at
/// every later tick of the pursuit.
proof fn lemma_pursuit_margin(
    d0: int,
    d_k: int,
    speed: int,
    run0: int,
    run_k: int,
    k: int,
    n: int,
    limit: int,
)
    by (nonlinear_arith)
    requires
        0 <= k < n,
        0 < speed <= run_k <= run0,
        d0 >= 0,
        d_k >= 0,
        d0 * speed <= (limit - n) * run0,
        d_k * run0 <= d0 * run_k + k * run0,
    ensures
        d_k * speed <= limit * run_k,
{
    assert(d_k * run0 * speed <= (d0 * run_k + k * run0) * speed);
    assert((d0 * run_k + k * run0) * speed == (d0 * speed) * run_k + k * run0 * speed);
    assert((d0 * speed) * run_k <= ((limit - n) * run0) * run_k);
    assert(k * run0 * speed <= n * run0 * run_k);
    assert(d_k * speed * run0 <= (limit * run_k) * run0);
}

/// The bounds of the single ticks add up to the bound of the run.
proof fn lemma_pursuit_chain(
    d0: int,
    d_k: int,
    d_n: int,
    speed: int,
    run0: int,
    run_k: int,
    k: int,
)
    by (nonlinear_arith)
    requires
        0 <= k,
        0 < speed <= run_k <= run0,
        d0 >= 0,
        d_k >= 0,
        d_n >= 0,
        d_k * run0 <= d0 * run_k + k * run0,
        d_n * run_k <= d_k * (run_k - speed) + run_k,
    ensures
        d_n * run0 <= d0 * (run_k - speed) + (k + 1) * run0,
{
    assert(d_n * run_k * run0 <= (d_k * (run_k - speed) + run_k) * run0);
    assert((d_k * (run_k - speed) + run_k) * run0 == (d_k * run0) * (run_k - speed) + run_k * run0);
    assert((d_k * run0) * (run_k - speed) <= (d0 * run_k + k * run0) * (run_k - speed));
    assert((d0 * run_k + k * run0) * (run_k - speed) <= d0 * run_k * (run_k - speed) + k * run0
        * run_k);
    assert(d_n * run0 * run_k <= (d0 * (run_k - speed) + (k + 1) * run0) * run_k);
}

} // verus!
