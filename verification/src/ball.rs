//! The ball: its position and its velocity.

use crate::bounce::MAX_BALL_SPEED;
use crate::geometry::{Vec2, Vec2Model};
use crate::units::SPEED_UNIT;
use vstd::prelude::*;

verus! {

/// Horizontal velocity of the ball when it is served after a goal.
pub const SERVE_SPEED_X: i64 = 400 * SPEED_UNIT;

/// Vertical velocity of the ball when it is served after a goal.
pub const SERVE_SPEED_Y: i64 = 50 * SPEED_UNIT;

/// Horizontal velocity of the ball at the start of a match: `SERVE_SPEED_X`
/// along the horizontal part of the unit vector of direction (-5, 1).
pub const OPENING_SPEED_X: i64 = -39_223;

/// Vertical velocity of the ball at the start of a match: `SERVE_SPEED_Y`
/// along the vertical part of the unit vector of direction (-5, 1).
pub const OPENING_SPEED_Y: i64 = 981;

/// Largest magnitude of a coordinate of the ball from which one more tick
/// of motion can still be represented.
pub const COORD_LIMIT: i64 = 9_000_000_000_000_000_000;

/// The ball.
#[derive(Clone, Copy, Debug, PartialEq, Eq, Structural)]
pub struct Ball {
    pub position: Vec2,
    pub velocity: Vec2,
}

/// The mathematical value of a [`Ball`].
pub struct BallModel {
    pub position: Vec2Model,
    pub velocity: Vec2Model,
}

impl View for Ball {
    type V = BallModel;

    open spec fn view(&self) -> BallModel {
        BallModel { position: self.position@, velocity: self.velocity@ }
    }
}

/// The place from which the ball is served: the centre of the arena.
pub open spec fn ball_start() -> Vec2Model {
    Vec2Model { x: 0, y: 0 }
}

/// The velocity with which the ball is served after a goal.
pub open spec fn serve_velocity() -> Vec2Model {
    Vec2Model { x: SERVE_SPEED_X as int, y: SERVE_SPEED_Y as int }
}

impl BallModel {
    /// Neither component of the velocity exceeds `MAX_BALL_SPEED`.
    pub open spec fn wf(self) -> bool {
        &&& -MAX_BALL_SPEED <= self.velocity.x <= MAX_BALL_SPEED
        &&& -MAX_BALL_SPEED <= self.velocity.y <= MAX_BALL_SPEED
    }

    /// The ball is near enough to the arena for a tick of motion to be
    /// represented.
    pub open spec fn in_range(self) -> bool {
        &&& -COORD_LIMIT <= self.position.x <= COORD_LIMIT
        &&& -COORD_LIMIT <= self.position.y <= COORD_LIMIT
    }

    /// The ball after one tick of motion at its velocity.
    pub open spec fn integrate(self) -> BallModel {
        BallModel {
            position: Vec2Model {
                x: self.position.x + self.velocity.x,
                y: self.position.y + self.velocity.y,
            },
            ..self
        }
    }

    /// The ball placed for a serve.
    pub open spec fn served() -> BallModel {
        BallModel { position: ball_start(), velocity: serve_velocity() }
    }

    /// The ball as a match begins.
    pub open spec fn opening() -> BallModel {
        BallModel {
            position: ball_start(),
            velocity: Vec2Model { x: OPENING_SPEED_X as int, y: OPENING_SPEED_Y as int },
        }
    }
}

impl Ball {
    /// The ball as a match begins.
    pub fn opening() -> (ball: Ball)
        ensures
            ball@ == BallModel::opening(),
            ball@.wf(),
            ball@.in_range(),
    {
        Ball {
            position: Vec2 { x: 0, y: 0 },
            velocity: Vec2 { x: OPENING_SPEED_X, y: OPENING_SPEED_Y },
        }
    }

    /// Whether the velocity is within its limit and the position in range.
    pub fn is_valid(&self) -> (ok: bool)
        ensures
            ok == (self@.wf() && self@.in_range()),
    {
        -MAX_BALL_SPEED <= self.velocity.x && self.velocity.x <= MAX_BALL_SPEED && -MAX_BALL_SPEED
            <= self.velocity.y && self.velocity.y <= MAX_BALL_SPEED && -COORD_LIMIT
            <= self.position.x && self.position.x <= COORD_LIMIT && -COORD_LIMIT <= self.position.y
            && self.position.y <= COORD_LIMIT
    }

    /// Moves the ball by one tick of motion at its velocity.
    pub fn integrate(&mut self)
        requires
            old(self)@.wf(),
            old(self)@.in_range(),
        ensures
            final(self)@ == old(self)@.integrate(),
    {
        self.position.x = self.position.x + self.velocity.x;
        self.position.y = self.position.y + self.velocity.y;
    }

    /// Places the ball for a serve.
    pub fn serve(&mut self)
        ensures
            final(self)@ == BallModel::served(),
    {
        self.position = Vec2 { x: 0, y: 0 };
        self.velocity = Vec2 { x: SERVE_SPEED_X, y: SERVE_SPEED_Y };
    }
}

/// The opening velocity is the serve speed of each axis laid along the unit
/// vector of direction (-5, 1), rounded to the nearest step: the square of a
/// component times 26 brackets the square of the speed times the square of
/// the direction's part.
pub proof fn lemma_opening_velocity_is_normalized()
    by (nonlinear_arith)
    ensures
        26 * ((2 * -OPENING_SPEED_X - 1) * (2 * -OPENING_SPEED_X - 1)) < 4 * 25 * (SERVE_SPEED_X
            * SERVE_SPEED_X),
        4 * 25 * (SERVE_SPEED_X * SERVE_SPEED_X) < 26 * ((2 * -OPENING_SPEED_X + 1) * (2
            * -OPENING_SPEED_X + 1)),
        26 * ((2 * OPENING_SPEED_Y - 1) * (2 * OPENING_SPEED_Y - 1)) < 4 * (SERVE_SPEED_Y
            * SERVE_SPEED_Y),
        4 * (SERVE_SPEED_Y * SERVE_SPEED_Y) < 26 * ((2 * OPENING_SPEED_Y + 1) * (2
            * OPENING_SPEED_Y + 1)),
{
}

} // verus!
