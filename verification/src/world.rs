//! The state of a match and the first two stages of a tick: the controllers
//! move the paddles, then everything that has a velocity travels, unless a
//! serve is being waited for.

use crate::ai::{ai, ai_velocity};
use crate::arena::Player;
use crate::ball::{Ball, BallModel, COORD_LIMIT};
use crate::bounce::MAX_BALL_SPEED;
use crate::input::{
    analog_or_keyboard_command, analog_or_keyboard_command_spec, keyboard_command,
    keyboard_command_spec, PaddleInput, TickInput,
};
use crate::paddle::{Paddle, PaddleCommand, PaddleCommandModel, PaddleController, PaddleModel};
use crate::scoreboard::{Scoreboard, ScoreboardModel};
use crate::serve::{ServeLockout, ServeLockoutModel, SERVE_LOCKOUT_NANOS};
use vstd::prelude::*;

verus! {

/// Everything that changes during a match.
#[derive(Clone, Copy, Debug, PartialEq, Eq, Structural)]
pub struct World {
    pub ball: Ball,
    pub p1: Paddle,
    pub p2: Paddle,
    pub scoreboard: Scoreboard,
    pub lockout: ServeLockout,
}

/// The mathematical value of a [`World`].
pub struct WorldModel {
    pub ball: BallModel,
    pub p1: PaddleModel,
    pub p2: PaddleModel,
    pub scoreboard: ScoreboardModel,
    pub lockout: ServeLockoutModel,
}

impl View for World {
    type V = WorldModel;

    open spec fn view(&self) -> WorldModel {
        WorldModel {
            ball: self.ball@,
            p1: self.p1@,
            p2: self.p2@,
            scoreboard: self.scoreboard@,
            lockout: self.lockout@,
        }
    }
}

/// The command that a controller gives for the paddle of `player`, from
/// the state of that player's devices, the ball, and the paddle's height.
pub open spec fn resolve_spec(
    player: Player,
    controller: PaddleController,
    input: PaddleInput,
    ball: BallModel,
    paddle_y: int,
) -> PaddleCommandModel {
    match controller {
        PaddleController::Keyboard => keyboard_command_spec(input.up, input.down),
        PaddleController::Analog => analog_or_keyboard_command_spec(input),
        PaddleController::Ai => PaddleCommandModel::Velocity(ai_velocity(player, ball, paddle_y)),
        PaddleController::Idle => PaddleCommandModel::Delta(0),
    }
}

/// Asks a controller for its command.
pub fn resolve(
    player: Player,
    controller: PaddleController,
    input: &PaddleInput,
    ball: &Ball,
    paddle_y: i64,
) -> (command: PaddleCommand)
    ensures
        command@ == resolve_spec(player, controller, *input, ball@, paddle_y as int),
{
    match controller {
        PaddleController::Keyboard => keyboard_command(input.up, input.down),
        PaddleController::Analog => analog_or_keyboard_command(input),
        PaddleController::Ai => PaddleCommand::Velocity(ai(player, ball, paddle_y)),
        PaddleController::Idle => PaddleCommand::Delta(0),
    }
}

impl WorldModel {
    /// The invariant of a match: the ball is within its speed, and each
    /// paddle within its travel and its speed.
    pub open spec fn wf(self) -> bool {
        &&& self.ball.wf()
        &&& self.p1.wf()
        &&& self.p2.wf()
    }

    /// One more tick can be represented: the ball is in range and the
    /// scoreboard has room.
    pub open spec fn can_tick(self) -> bool {
        &&& self.ball.in_range()
        &&& self.scoreboard.has_room()
    }

    /// The paddle of a player.
    pub open spec fn paddle(self, player: Player) -> PaddleModel {
        match player {
            Player::One => self.p1,
            Player::Two => self.p2,
        }
    }

    /// The world with the paddle of a player replaced.
    pub open spec fn with_paddle(self, player: Player, paddle: PaddleModel) -> WorldModel {
        match player {
            Player::One => WorldModel { p1: paddle, ..self },
            Player::Two => WorldModel { p2: paddle, ..self },
        }
    }

    /// The world as a match begins: the paddles at rest at mid-height, the
    /// ball at the centre with its opening velocity, no points, and a serve
    /// being waited for.
    pub open spec fn initial(p1: PaddleController, p2: PaddleController) -> WorldModel {
        WorldModel {
            ball: BallModel::opening(),
            p1: PaddleModel { y: 0, velocity_y: 0, controller: p1 },
            p2: PaddleModel { y: 0, velocity_y: 0, controller: p2 },
            scoreboard: ScoreboardModel { p1_score: 0, p2_score: 0, rally_intensity: 0 },
            lockout: ServeLockoutModel { elapsed: 0, duration: SERVE_LOCKOUT_NANOS as nat },
        }
    }

    /// The world after the controller of one paddle has had its way.
    pub open spec fn move_paddle(self, player: Player, input: PaddleInput) -> WorldModel {
        let paddle = self.paddle(player);
        self.with_paddle(
            player,
            paddle.apply(resolve_spec(player, paddle.controller, input, self.ball, paddle.y)),
        )
    }

    /// The world after both controllers have had their way.
    pub open spec fn move_paddles(self, input: TickInput) -> WorldModel {
        self.move_paddle(Player::One, input.p1).move_paddle(Player::Two, input.p2)
    }

    /// The world after the motion of one tick, `delta` nanoseconds after the
    /// tick before. The serve lockout advances first. Once it has run out,
    /// the ball and both paddles travel for one tick at their velocities;
    /// while it runs, nothing moves.
    pub open spec fn apply_velocity(self, delta: nat) -> WorldModel {
        let lockout = self.lockout.tick(delta);
        if lockout.finished() {
            WorldModel {
                ball: self.ball.integrate(),
                p1: self.p1.integrate(),
                p2: self.p2.integrate(),
                lockout,
                ..self
            }
        } else {
            WorldModel { lockout, ..self }
        }
    }
}

/// Sets up a match with the usual controllers: player one on the stick,
/// with the keys to fall back on, and player two steered by the predictive
/// controller.
pub fn setup() -> (world: World)
    ensures
        world@ == WorldModel::initial(PaddleController::Analog, PaddleController::Ai),
        world@.wf(),
        world@.can_tick(),
{
    World::new(PaddleController::Analog, PaddleController::Ai)
}

impl World {
    /// Sets up a match with the given controllers.
    pub fn new(p1: PaddleController, p2: PaddleController) -> (world: World)
        ensures
            world@ == WorldModel::initial(p1, p2),
            world@.wf(),
            world@.can_tick(),
    {
        World {
            ball: Ball::opening(),
            p1: Paddle::new(p1),
            p2: Paddle::new(p2),
            scoreboard: Scoreboard::new(),
            lockout: ServeLockout::new(SERVE_LOCKOUT_NANOS),
        }
    }

    /// Whether the invariant of a match holds.
    pub fn is_valid(&self) -> (ok: bool)
        ensures
            ok == self@.wf(),
    {
        let v = self.ball.velocity;
        let ball_ok = -MAX_BALL_SPEED <= v.x && v.x <= MAX_BALL_SPEED && -MAX_BALL_SPEED <= v.y
            && v.y <= MAX_BALL_SPEED;
        ball_ok && self.p1.is_valid() && self.p2.is_valid()
    }

    /// Whether one more tick can be represented.
    pub fn can_tick(&self) -> (ok: bool)
        ensures
            ok == self@.can_tick(),
    {
        let p = self.ball.position;
        -COORD_LIMIT <= p.x && p.x <= COORD_LIMIT && -COORD_LIMIT <= p.y && p.y <= COORD_LIMIT
            && self.scoreboard.has_room()
    }

    /// Lets the controller of one paddle have its way.
    pub fn move_paddle(&mut self, player: Player, input: &PaddleInput)
        ensures
            final(self)@ == old(self)@.move_paddle(player, *input),
            old(self)@.wf() ==> final(self)@.wf(),
    {
        match player {
            Player::One => {
                let command = resolve(player, self.p1.controller, input, &self.ball, self.p1.y);
                self.p1.apply(command);
            },
            Player::Two => {
                let command = resolve(player, self.p2.controller, input, &self.ball, self.p2.y);
                self.p2.apply(command);
            },
        }
    }

    /// Lets both controllers have their way, player one first.
    pub fn move_paddles(&mut self, input: &TickInput)
        ensures
            final(self)@ == old(self)@.move_paddles(*input),
            old(self)@.wf() ==> final(self)@.wf(),
    {
        self.move_paddle(Player::One, &input.p1);
        self.move_paddle(Player::Two, &input.p2);
    }

    /// Advances the serve lockout by `delta` nanoseconds and, once it has
    /// run out, moves the ball and the paddles by one tick of travel.
    pub fn apply_velocity(&mut self, delta: u64)
        requires
            old(self)@.wf(),
            old(self)@.ball.in_range(),
        ensures
            final(self)@ == old(self)@.apply_velocity(delta as nat),
            final(self)@.wf(),
    {
        self.lockout.tick(delta);
        if self.lockout.finished() {
            self.ball.integrate();
            self.p1.integrate();
            self.p2.integrate();
        }
    }
}

} // verus!
