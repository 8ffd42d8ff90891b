//! The last stage of a tick: the ball is tested against every collider in
//! turn, and each contact has its effect there and then. A wall turns the
//! ball back, a goal scores and calls for a serve, a paddle returns the ball
//! at an angle.

use crate::arena::{
    ball_half, ball_half_spec, collider_order, colliders, Collider, Player, WallLocation,
    BALL_SIZE, BOTTOM_WALL, LEFT_WALL, PADDLE_WIDTH, RIGHT_WALL, TOP_WALL, WALL_THICKNESS,
};
use crate::ball::{ball_start, BallModel};
use crate::bounce::{bounce, bounce_velocity, lemma_bounce_leaves_paddle};
use crate::geometry::{overlap, overlap_spec, Side, Vec2, Vec2Model};
use crate::units::magnitude;
use crate::world::{World, WorldModel};
use vstd::prelude::*;

verus! {

/// The velocity after a contact on the given side: the component that
/// carries the ball into the surface changes sign, and nothing changes
/// when the ball is already on its way out or the contact has no side.
pub open spec fn reflect_spec(velocity: Vec2Model, side: Side) -> Vec2Model {
    match side {
        Side::Left => if velocity.x > 0 {
            Vec2Model { x: -velocity.x, ..velocity }
        } else {
            velocity
        },
        Side::Right => if velocity.x < 0 {
            Vec2Model { x: -velocity.x, ..velocity }
        } else {
            velocity
        },
        Side::Top => if velocity.y < 0 {
            Vec2Model { y: -velocity.y, ..velocity }
        } else {
            velocity
        },
        Side::Bottom => if velocity.y > 0 {
            Vec2Model { y: -velocity.y, ..velocity }
        } else {
            velocity
        },
        Side::Inside => velocity,
    }
}

/// Turns a velocity back from the surface that it runs into.
pub fn reflect(velocity: Vec2, side: Side) -> (reflected: Vec2)
    requires
        velocity.x > i64::MIN,
        velocity.y > i64::MIN,
    ensures
        reflected@ == reflect_spec(velocity@, side),
{
    let reflect_x = match side {
        Side::Left => velocity.x > 0,
        Side::Right => velocity.x < 0,
        _ => false,
    };
    let reflect_y = match side {
        Side::Top => velocity.y < 0,
        Side::Bottom => velocity.y > 0,
        _ => false,
    };
    Vec2 {
        x: if reflect_x { -velocity.x } else { velocity.x },
        y: if reflect_y { -velocity.y } else { velocity.y },
    }
}

/// A velocity that has been turned back from a surface is not turned again
/// by the same surface: a ball that still overlaps a wall on the next tick
/// keeps the direction that carries it out.
pub proof fn lemma_reflection_is_idempotent(velocity: Vec2Model, side: Side)
    ensures
        reflect_spec(reflect_spec(velocity, side), side) == reflect_spec(velocity, side),
        magnitude(reflect_spec(velocity, side).x) == magnitude(velocity.x),
        magnitude(reflect_spec(velocity, side).y) == magnitude(velocity.y),
{
}

impl WorldModel {
    /// The side on which the ball's box meets a collider's, if it does.
    pub open spec fn contact(self, collider: Collider) -> Option<Side> {
        overlap_spec(
            self.ball.position,
            ball_half_spec(),
            collider.center_spec(self.p1.y, self.p2.y),
            collider.half_spec(),
        )
    }

    /// The world after a contact of the ball with a collider on a side.
    ///
    /// A wall reflects the ball. A goal gives a point to the opponent of the
    /// player who defends it, cuts a long rally back, places the ball for a
    /// serve and restarts the serve lockout. A paddle counts one more
    /// contact of the rally and sends the ball back at the angle and speed
    /// of the bounce. Goal and paddle set the velocity anew, so that the
    /// side of the contact matters for a wall only.
    pub open spec fn respond(self, collider: Collider, side: Side) -> WorldModel {
        match collider {
            Collider::Wall(_) => WorldModel {
                ball: BallModel { velocity: reflect_spec(self.ball.velocity, side), ..self.ball },
                ..self
            },
            Collider::Goal(owner) => WorldModel {
                ball: BallModel::served(),
                scoreboard: self.scoreboard.goal_against(owner),
                lockout: self.lockout.reset(),
                ..self
            },
            Collider::Paddle(player) => WorldModel {
                ball: BallModel {
                    velocity: bounce_velocity(
                        player,
                        self.paddle(player).y - self.ball.position.y,
                        self.scoreboard.rally_intensity + 1,
                    ),
                    ..self.ball
                },
                scoreboard: self.scoreboard.paddle_contact(),
                ..self
            },
        }
    }

    /// The world after the ball has been tested against one collider.
    pub open spec fn collide_with(self, collider: Collider) -> WorldModel {
        match self.contact(collider) {
            Some(side) => self.respond(collider, side),
            None => self,
        }
    }

    /// The world after the ball has been tested against a row of colliders,
    /// the first of them first.
    pub open spec fn collide_through(self, order: Seq<Collider>) -> WorldModel
        decreases order.len(),
    {
        if order.len() == 0 {
            self
        } else {
            self.collide_through(order.drop_last()).collide_with(order.last())
        }
    }

    /// The world after the collision stage of a tick.
    pub open spec fn check_for_collisions(self) -> WorldModel {
        self.collide_through(collider_order())
    }

    /// The ball's box meets none of the colliders.
    pub open spec fn ball_is_clear(self) -> bool {
        forall|collider: Collider| #[trigger] self.contact(collider) is None
    }
}

impl World {
    /// The side on which the ball's box meets a collider's, if it does.
    pub fn contact(&self, collider: Collider) -> (side: Option<Side>)
        ensures
            side == self@.contact(collider),
    {
        overlap(
            self.ball.position,
            ball_half(),
            collider.center(self.p1.y, self.p2.y),
            collider.half(),
        )
    }

    /// Lets a contact of the ball with a collider on the given side have its
    /// effect.
    pub fn respond(&mut self, collider: Collider, side: Side)
        requires
            old(self)@.wf(),
            collider matches Collider::Goal(owner) ==> old(self)@.scoreboard.score(
                owner.opponent(),
            ) < u64::MAX,
            collider is Paddle ==> old(self)@.scoreboard.rally_intensity < u64::MAX,
        ensures
            final(self)@ == old(self)@.respond(collider, side),
            final(self)@.wf(),
    {
        match collider {
            Collider::Wall(_) => {
                self.ball.velocity = reflect(self.ball.velocity, side);
            },
            Collider::Goal(owner) => {
                self.scoreboard.goal_against(owner);
                self.ball.serve();
                self.lockout.reset();
            },
            Collider::Paddle(player) => {
                self.scoreboard.paddle_contact();
                let paddle_y = match player {
                    Player::One => self.p1.y,
                    Player::Two => self.p2.y,
                };
                proof {
                    lemma_bounce_leaves_paddle(
                        player,
                        paddle_y - self.ball.position.y,
                        self.scoreboard.rally_intensity as nat,
                    );
                }
                self.ball.velocity = bounce(
                    player,
                    paddle_y,
                    self.ball.position.y,
                    self.scoreboard.rally_intensity,
                );
            },
        }
    }

    /// Tests the ball against one collider and lets a contact have its
    /// effect.
    pub fn collide_with(&mut self, collider: Collider)
        requires
            old(self)@.wf(),
            collider matches Collider::Goal(owner) ==> old(self)@.scoreboard.score(
                owner.opponent(),
            ) < u64::MAX,
            collider is Paddle ==> old(self)@.scoreboard.rally_intensity < u64::MAX,
        ensures
            final(self)@ == old(self)@.collide_with(collider),
            final(self)@.wf(),
    {
        match self.contact(collider) {
            Some(side) => {
                self.respond(collider, side);
            },
            None => {},
        }
    }

    /// Runs the collision stage of a tick: the ball is tested against the
    /// two paddles, the two walls and the two goals, in that order, and
    /// every contact has its effect before the next test.
    pub fn check_for_collisions(&mut self)
        requires
            old(self)@.wf(),
            old(self)@.scoreboard.has_room(),
        ensures
            final(self)@ == old(self)@.check_for_collisions(),
            final(self)@.wf(),
    {
        let order = colliders();
        let ghost start = self@;
        let mut i: usize = 0;
        while i < 6
            invariant
                i <= 6,
                order@ == collider_order(),
                start.scoreboard.has_room(),
                self@ == start.collide_through(order@.take(i as int)),
                self@.wf(),
                self@.scoreboard.rally_intensity <= start.scoreboard.rally_intensity + i,
                i <= 2 ==> self@.scoreboard.rally_intensity + 2 <= u64::MAX + i,
                i <= 4 ==> self@.scoreboard.p2_score == start.scoreboard.p2_score,
                i <= 5 ==> self@.scoreboard.p1_score == start.scoreboard.p1_score,
            decreases 6 - i,
        {
            let collider = order[i];
            proof {
                let next = order@.take(i + 1);
                assert(next.drop_last() == order@.take(i as int));
                assert(next.last() == collider);
            }
            self.collide_with(collider);
            i = i + 1;
        }
        proof {
            assert(order@.take(6) == order@);
        }
    }
}

/// A collider that the ball's box does not overlap has no effect: neither
/// the velocity nor anything else changes until the boxes overlap again.
pub proof fn lemma_no_overlap_no_effect(world: WorldModel, collider: Collider)
    requires
        world.contact(collider) is None,
    ensures
        world.collide_with(collider) == world,
{
}

/// The collision stage keeps the invariant of a match.
pub proof fn lemma_collisions_keep_invariant(world: WorldModel)
    requires
        world.wf(),
    ensures
        world.check_for_collisions().wf(),
{
    lemma_collision_stage_unfolds(world);
    let w1 = world.collide_with(Collider::Paddle(Player::One));
    lemma_contact_keeps_invariant(world, Collider::Paddle(Player::One));
    let w2 = w1.collide_with(Collider::Paddle(Player::Two));
    lemma_contact_keeps_invariant(w1, Collider::Paddle(Player::Two));
    let w3 = w2.collide_with(Collider::Wall(WallLocation::Bottom));
    lemma_contact_keeps_invariant(w2, Collider::Wall(WallLocation::Bottom));
    let w4 = w3.collide_with(Collider::Wall(WallLocation::Top));
    lemma_contact_keeps_invariant(w3, Collider::Wall(WallLocation::Top));
    let w5 = w4.collide_with(Collider::Goal(Player::One));
    lemma_contact_keeps_invariant(w4, Collider::Goal(Player::One));
    lemma_contact_keeps_invariant(w5, Collider::Goal(Player::Two));
}

/// The test against one collider keeps the invariant of a match and does
/// not move the paddles.
pub proof fn lemma_contact_keeps_invariant(world: WorldModel, collider: Collider)
    requires
        world.wf(),
    ensures
        world.collide_with(collider).wf(),
        world.collide_with(collider).p1 == world.p1,
        world.collide_with(collider).p2 == world.p2,
{
    if let Collider::Paddle(player) = collider {
        lemma_bounce_leaves_paddle(
            player,
            world.paddle(player).y - world.ball.position.y,
            world.scoreboard.rally_intensity + 1,
        );
    }
}

/// What a contact does to the scoreboard. A wall leaves it alone. A paddle
/// adds one contact to the rally and touches no score. A goal touches the
/// rally only to cut it back, and takes no point from anybody.
pub proof fn lemma_contact_and_scoreboard(world: WorldModel, collider: Collider)
    ensures
        collider is Wall ==> world.collide_with(collider).scoreboard == world.scoreboard,
        collider is Paddle && world.contact(collider) is Some ==> world.collide_with(
            collider,
        ).scoreboard == world.scoreboard.paddle_contact(),
        collider matches Collider::Goal(owner) ==> world.contact(collider) is Some
            ==> world.collide_with(collider).scoreboard == world.scoreboard.goal_against(owner),
        world.collide_with(collider).scoreboard.p1_score >= world.scoreboard.p1_score,
        world.collide_with(collider).scoreboard.p2_score >= world.scoreboard.p2_score,
{
}

/// While the ball's box is clear of every collider, the collision stage
/// leaves the world as it is.
pub proof fn lemma_clear_ball_is_left_alone(world: WorldModel)
    requires
        world.ball_is_clear(),
    ensures
        world.check_for_collisions() == world,
{
    lemma_collide_through_clear(world, collider_order());
}

/// A row of colliders, none of which the ball overlaps, has no effect.
proof fn lemma_collide_through_clear(world: WorldModel, order: Seq<Collider>)
    requires
        forall|i: int| 0 <= i < order.len() ==> world.contact(#[trigger] order[i]) is None,
    ensures
        world.collide_through(order) == world,
    decreases order.len(),
{
    if order.len() > 0 {
        let front = order.drop_last();
        assert forall|i: int| 0 <= i < front.len() implies world.contact(
            #[trigger] front[i],
        ) is None by {
            assert(front[i] == order[i]);
        }
        lemma_collide_through_clear(world, front);
        assert(order.last() == order[order.len() - 1]);
    }
}

/// The collision stage tests the six colliders one after the other.
pub proof fn lemma_collision_stage_unfolds(world: WorldModel)
    ensures
        world.check_for_collisions() == world.collide_with(
            Collider::Paddle(Player::One),
        ).collide_with(Collider::Paddle(Player::Two)).collide_with(
            Collider::Wall(WallLocation::Bottom),
        ).collide_with(Collider::Wall(WallLocation::Top)).collide_with(
            Collider::Goal(Player::One),
        ).collide_with(Collider::Goal(Player::Two)),
{
    let order = collider_order();
    let s5 = order.drop_last();
    let s4 = s5.drop_last();
    let s3 = s4.drop_last();
    let s2 = s3.drop_last();
    let s1 = s2.drop_last();
    let s0 = s1.drop_last();
    assert(s0.len() == 0);
    assert(world.collide_through(s0) == world);
    assert(world.collide_through(s1) == world.collide_through(s0).collide_with(s1.last()));
    assert(world.collide_through(s2) == world.collide_through(s1).collide_with(s2.last()));
    assert(world.collide_through(s3) == world.collide_through(s2).collide_with(s3.last()));
    assert(world.collide_through(s4) == world.collide_through(s3).collide_with(s4.last()));
    assert(world.collide_through(s5) == world.collide_through(s4).collide_with(s5.last()));
    assert(world.collide_through(order) == world.collide_through(s5).collide_with(order.last()));
}

/// The ball's box lies in the open field: between the faces of the two
/// paddles and between the faces of the two walls, touching at most.
pub open spec fn in_open_field(position: Vec2Model) -> bool {
    &&& Player::One.paddle_x_spec() + PADDLE_WIDTH / 2 <= position.x - BALL_SIZE / 2
    &&& position.x + BALL_SIZE / 2 <= Player::Two.paddle_x_spec() - PADDLE_WIDTH / 2
    &&& BOTTOM_WALL + WALL_THICKNESS / 2 <= position.y - BALL_SIZE / 2
    &&& position.y + BALL_SIZE / 2 <= TOP_WALL - WALL_THICKNESS / 2
}

/// A ball in the open field overlaps no collider, wherever the paddles
/// stand.
pub proof fn lemma_open_field_is_clear(world: WorldModel)
    requires
        in_open_field(world.ball.position),
    ensures
        world.ball_is_clear(),
{
    assert forall|collider: Collider| #[trigger] world.contact(collider) is None by {
        match collider {
            Collider::Paddle(Player::One) => {},
            Collider::Paddle(Player::Two) => {},
            Collider::Wall(WallLocation::Bottom) => {},
            Collider::Wall(WallLocation::Top) => {},
            Collider::Goal(Player::One) => {},
            Collider::Goal(Player::Two) => {},
        }
    }
}

/// A ball that stands within the width of a wall and has entered it from
/// the arena by less than the wall is thick meets the wall on its face
/// toward the arena: the top face of the bottom wall, the bottom face of the
/// top wall.
pub proof fn lemma_ball_meets_wall_face(world: WorldModel, wall: WallLocation)
    requires
        LEFT_WALL - WALL_THICKNESS / 2 <= world.ball.position.x - BALL_SIZE / 2,
        world.ball.position.x + BALL_SIZE / 2 <= RIGHT_WALL + WALL_THICKNESS / 2,
        wall == WallLocation::Bottom ==> BOTTOM_WALL - WALL_THICKNESS / 2 < world.ball.position.y
            - BALL_SIZE / 2 < BOTTOM_WALL + WALL_THICKNESS / 2,
        wall == WallLocation::Top ==> TOP_WALL - WALL_THICKNESS / 2 < world.ball.position.y
            + BALL_SIZE / 2 < TOP_WALL + WALL_THICKNESS / 2,
    ensures
        wall == WallLocation::Bottom ==> world.contact(Collider::Wall(wall)) == Some(Side::Top),
        wall == WallLocation::Top ==> world.contact(Collider::Wall(wall)) == Some(Side::Bottom),
{
}

/// A ball that overlaps a wall on the face toward the arena while moving
/// into it, and overlaps nothing else, leaves the collision stage with its
/// vertical velocity reversed. Its horizontal velocity, its position, the
/// scores, the rally and the serve lockout are as they were.
pub proof fn lemma_wall_reflection(world: WorldModel, wall: WallLocation)
    requires
        wall == WallLocation::Bottom ==> world.contact(Collider::Wall(wall)) == Some(Side::Top)
            && world.ball.velocity.y < 0,
        wall == WallLocation::Top ==> world.contact(Collider::Wall(wall)) == Some(Side::Bottom)
            && world.ball.velocity.y > 0,
        forall|other: Collider|
            other != Collider::Wall(wall) ==> #[trigger] world.contact(other) is None,
    ensures
        world.check_for_collisions() == (WorldModel {
            ball: BallModel {
                velocity: Vec2Model { x: world.ball.velocity.x, y: -world.ball.velocity.y },
                ..world.ball
            },
            ..world
        }),
{
    lemma_collision_stage_unfolds(world);
    let turned = WorldModel {
        ball: BallModel {
            velocity: Vec2Model { x: world.ball.velocity.x, y: -world.ball.velocity.y },
            ..world.ball
        },
        ..world
    };
    assert(world.contact(Collider::Paddle(Player::One)) is None);
    assert(world.contact(Collider::Paddle(Player::Two)) is None);
    assert(world.contact(Collider::Goal(Player::One)) is None);
    assert(world.contact(Collider::Goal(Player::Two)) is None);
    assert(forall|c: Collider| turned.contact(c) == world.contact(c));
    match wall {
        WallLocation::Bottom => {
            assert(world.contact(Collider::Wall(WallLocation::Top)) is None);
            assert(world.collide_with(Collider::Wall(WallLocation::Bottom)) == turned);
        },
        WallLocation::Top => {
            assert(world.contact(Collider::Wall(WallLocation::Bottom)) is None);
            assert(world.collide_with(Collider::Wall(WallLocation::Top)) == turned);
        },
    }
}

/// A ball at the place of the serve overlaps no collider, wherever within
/// their travel the paddles stand.
pub proof fn lemma_served_ball_is_clear(world: WorldModel)
    requires
        world.ball.position == ball_start(),
    ensures
        world.ball_is_clear(),
{
    assert forall|collider: Collider| #[trigger] world.contact(collider) is None by {
        match collider {
            Collider::Paddle(Player::One) => {},
            Collider::Paddle(Player::Two) => {},
            Collider::Wall(WallLocation::Bottom) => {},
            Collider::Wall(WallLocation::Top) => {},
            Collider::Goal(Player::One) => {},
            Collider::Goal(Player::Two) => {},
        }
    }
}

/// A ball that overlaps the goal of a player, and nothing else, leaves the
/// collision stage with a point given to that player's opponent and to
/// nobody else, a rally of five or more contacts cut back to two and a
/// shorter one kept, the ball placed at the centre with the serve velocity,
/// and the serve lockout restarted. The paddles are as they were.
pub proof fn lemma_goal_scoring(world: WorldModel, owner: Player)
    requires
        world.contact(Collider::Goal(owner)) is Some,
        forall|other: Collider|
            other != Collider::Goal(owner) ==> #[trigger] world.contact(other) is None,
    ensures
        world.check_for_collisions() == (WorldModel {
            ball: BallModel::served(),
            scoreboard: world.scoreboard.goal_against(owner),
            lockout: world.lockout.reset(),
            ..world
        }),
        world.check_for_collisions().scoreboard.score(owner.opponent()) == world.scoreboard.score(
            owner.opponent(),
        ) + 1,
        world.check_for_collisions().scoreboard.score(owner) == world.scoreboard.score(owner),
        world.check_for_collisions().ball.position == ball_start(),
        world.check_for_collisions().lockout.elapsed == 0,
{
    lemma_collision_stage_unfolds(world);
    let scored = WorldModel {
        ball: BallModel::served(),
        scoreboard: world.scoreboard.goal_against(owner),
        lockout: world.lockout.reset(),
        ..world
    };
    assert(world.contact(Collider::Paddle(Player::One)) is None);
    assert(world.contact(Collider::Paddle(Player::Two)) is None);
    assert(world.contact(Collider::Wall(WallLocation::Bottom)) is None);
    assert(world.contact(Collider::Wall(WallLocation::Top)) is None);
    lemma_served_ball_is_clear(scored);
    match owner {
        Player::One => {
            assert(world.collide_with(Collider::Goal(Player::One)) == scored);
            assert(scored.contact(Collider::Goal(Player::Two)) is None);
        },
        Player::Two => {
            assert(world.contact(Collider::Goal(Player::One)) is None);
            assert(world.collide_with(Collider::Goal(Player::Two)) == scored);
        },
    }
}

} // verus!
