//! The arena: its fixed dimensions, the two players, and the six bodies that
//! the ball can run into.

use crate::geometry::{Vec2, Vec2Model};
use crate::units::{SPEED_UNIT, UNIT};
use vstd::prelude::*;

verus! {

/// Thickness of the walls and of the goals.
pub const WALL_THICKNESS: i64 = 10 * UNIT;

/// Horizontal position of the left goal.
pub const LEFT_WALL: i64 = -450 * UNIT;

/// Horizontal position of the right goal.
pub const RIGHT_WALL: i64 = 450 * UNIT;

/// Vertical position of the bottom wall.
pub const BOTTOM_WALL: i64 = -300 * UNIT;

/// Vertical position of the top wall.
pub const TOP_WALL: i64 = 300 * UNIT;

/// Horizontal position of the line that divides the two halves.
pub const MIDLINE: i64 = 0;

/// Width of a paddle's box.
pub const PADDLE_WIDTH: i64 = 20 * UNIT;

/// Height of a paddle's box.
pub const PADDLE_HEIGHT: i64 = 120 * UNIT;

/// Distance from a goal to the centre of the paddle that defends it.
pub const GAP_BETWEEN_PADDLE_AND_GOAL: i64 = 60 * UNIT;

/// Margin by which the paddle's travel is extended toward the walls.
pub const PADDLE_PADDING: i64 = 60 * UNIT;

/// Lowest position that a paddle's centre may take.
pub const PADDLE_MIN_Y: i64 = BOTTOM_WALL + PADDLE_HEIGHT - PADDLE_PADDING;

/// Highest position that a paddle's centre may take.
pub const PADDLE_MAX_Y: i64 = TOP_WALL - PADDLE_HEIGHT + PADDLE_PADDING;

/// Speed of a paddle under keyboard control.
pub const PADDLE_SPEED: i64 = 500 * SPEED_UNIT;

/// Side length of the ball's square box.
pub const BALL_SIZE: i64 = 30 * UNIT;

/// The two players. Player one defends the left goal, player two the right.
#[derive(Clone, Copy, Debug, PartialEq, Eq, Structural)]
pub enum Player {
    One,
    Two,
}

/// The two walls that bound the arena above and below.
#[derive(Clone, Copy, Debug, PartialEq, Eq, Structural)]
pub enum WallLocation {
    Bottom,
    Top,
}

/// A body that the ball is tested against.
#[derive(Clone, Copy, Debug, PartialEq, Eq, Structural)]
pub enum Collider {
    Paddle(Player),
    Wall(WallLocation),
    Goal(Player),
}

impl Player {
    /// The other player.
    pub open spec fn opponent_spec(self) -> Player {
        match self {
            Player::One => Player::Two,
            Player::Two => Player::One,
        }
    }

    /// The other player.
    #[verifier::when_used_as_spec(opponent_spec)]
    pub fn opponent(self) -> (other: Player)
        ensures
            other == self.opponent_spec(),
    {
        match self {
            Player::One => Player::Two,
            Player::Two => Player::One,
        }
    }

    /// Horizontal position of this player's paddle.
    pub open spec fn paddle_x_spec(self) -> int {
        match self {
            Player::One => LEFT_WALL + GAP_BETWEEN_PADDLE_AND_GOAL,
            Player::Two => RIGHT_WALL - GAP_BETWEEN_PADDLE_AND_GOAL,
        }
    }

    /// Horizontal position of this player's paddle.
    pub fn paddle_x(self) -> (x: i64)
        ensures
            x == self.paddle_x_spec(),
    {
        match self {
            Player::One => LEFT_WALL + GAP_BETWEEN_PADDLE_AND_GOAL,
            Player::Two => RIGHT_WALL - GAP_BETWEEN_PADDLE_AND_GOAL,
        }
    }

    /// Horizontal position of the goal that this player defends.
    pub open spec fn goal_x_spec(self) -> int {
        match self {
            Player::One => LEFT_WALL as int,
            Player::Two => RIGHT_WALL as int,
        }
    }

    /// Horizontal position of the goal that this player defends.
    pub fn goal_x(self) -> (x: i64)
        ensures
            x == self.goal_x_spec(),
    {
        match self {
            Player::One => LEFT_WALL,
            Player::Two => RIGHT_WALL,
        }
    }
}

impl WallLocation {
    /// Centre of the wall.
    pub open spec fn position_spec(self) -> Vec2Model {
        match self {
            WallLocation::Bottom => Vec2Model { x: 0, y: BOTTOM_WALL as int },
            WallLocation::Top => Vec2Model { x: 0, y: TOP_WALL as int },
        }
    }

    /// Width and height of the wall: it spans the arena and both goals.
    pub open spec fn size_spec(self) -> Vec2Model {
        Vec2Model { x: RIGHT_WALL - LEFT_WALL + WALL_THICKNESS, y: WALL_THICKNESS as int }
    }

    /// Centre of the wall.
    pub fn position(&self) -> (center: Vec2)
        ensures
            center@ == self.position_spec(),
    {
        match self {
            WallLocation::Bottom => Vec2 { x: 0, y: BOTTOM_WALL },
            WallLocation::Top => Vec2 { x: 0, y: TOP_WALL },
        }
    }

    /// Width and height of the wall.
    pub fn size(&self) -> (size: Vec2)
        ensures
            size@ == self.size_spec(),
    {
        let arena_width = RIGHT_WALL - LEFT_WALL;
        match self {
            WallLocation::Bottom => Vec2 { x: arena_width + WALL_THICKNESS, y: WALL_THICKNESS },
            WallLocation::Top => Vec2 { x: arena_width + WALL_THICKNESS, y: WALL_THICKNESS },
        }
    }
}

/// Half extents of the ball's box.
pub open spec fn ball_half_spec() -> Vec2Model {
    Vec2Model { x: BALL_SIZE / 2, y: BALL_SIZE / 2 }
}

/// Half extents of the ball's box.
pub fn ball_half() -> (half: Vec2)
    ensures
        half@ == ball_half_spec(),
{
    Vec2 { x: BALL_SIZE / 2, y: BALL_SIZE / 2 }
}

impl Collider {
    /// Centre of the collider's box, given where the two paddles stand.
    pub open spec fn center_spec(self, p1_y: int, p2_y: int) -> Vec2Model {
        match self {
            Collider::Paddle(Player::One) => Vec2Model { x: Player::One.paddle_x_spec(), y: p1_y },
            Collider::Paddle(Player::Two) => Vec2Model { x: Player::Two.paddle_x_spec(), y: p2_y },
            Collider::Wall(location) => location.position_spec(),
            Collider::Goal(owner) => Vec2Model { x: owner.goal_x_spec(), y: 0 },
        }
    }

    /// Half extents of the collider's box.
    pub open spec fn half_spec(self) -> Vec2Model {
        match self {
            Collider::Paddle(_) => Vec2Model { x: PADDLE_WIDTH / 2, y: PADDLE_HEIGHT / 2 },
            Collider::Wall(location) => Vec2Model {
                x: location.size_spec().x / 2,
                y: location.size_spec().y / 2,
            },
            Collider::Goal(_) => Vec2Model {
                x: WALL_THICKNESS / 2,
                y: (TOP_WALL - BOTTOM_WALL + WALL_THICKNESS) / 2,
            },
        }
    }

    /// Centre of the collider's box, given where the two paddles stand.
    pub fn center(&self, p1_y: i64, p2_y: i64) -> (center: Vec2)
        ensures
            center@ == self.center_spec(p1_y as int, p2_y as int),
    {
        match self {
            Collider::Paddle(Player::One) => Vec2 { x: Player::One.paddle_x(), y: p1_y },
            Collider::Paddle(Player::Two) => Vec2 { x: Player::Two.paddle_x(), y: p2_y },
            Collider::Wall(location) => location.position(),
            Collider::Goal(owner) => Vec2 { x: owner.goal_x(), y: 0 },
        }
    }

    /// Half extents of the collider's box.
    pub fn half(&self) -> (half: Vec2)
        ensures
            half@ == self.half_spec(),
    {
        match self {
            Collider::Paddle(_) => Vec2 { x: PADDLE_WIDTH / 2, y: PADDLE_HEIGHT / 2 },
            Collider::Wall(location) => {
                let size = location.size();
                Vec2 { x: size.x / 2, y: size.y / 2 }
            },
            Collider::Goal(_) => Vec2 {
                x: WALL_THICKNESS / 2,
                y: (TOP_WALL - BOTTOM_WALL + WALL_THICKNESS) / 2,
            },
        }
    }
}

/// The colliders in the order in which a tick tests the ball against them.
pub open spec fn collider_order() -> Seq<Collider> {
    seq![
        Collider::Paddle(Player::One),
        Collider::Paddle(Player::Two),
        Collider::Wall(WallLocation::Bottom),
        Collider::Wall(WallLocation::Top),
        Collider::Goal(Player::One),
        Collider::Goal(Player::Two),
    ]
}

/// The colliders in the order in which a tick tests the ball against them.
pub fn colliders() -> (order: [Collider; 6])
    ensures
        order@ == collider_order(),
{
    [
        Collider::Paddle(Player::One),
        Collider::Paddle(Player::Two),
        Collider::Wall(WallLocation::Bottom),
        Collider::Wall(WallLocation::Top),
        Collider::Goal(Player::One),
        Collider::Goal(Player::Two),
    ]
}

} // verus!
