//! A paddle, the ways of steering it, and the commands that move it.

use crate::arena::{PADDLE_MAX_Y, PADDLE_MIN_Y};
use crate::units::{clamp, clamp_i64, clamp_wide, SPEED_UNIT};
use vstd::prelude::*;

verus! {

/// Largest speed at which a paddle may be driven.
pub const MAX_PADDLE_SPEED: i64 = 800 * SPEED_UNIT;

/// How a paddle is steered.
#[derive(Clone, Copy, Debug, PartialEq, Eq, Structural)]
pub enum PaddleController {
    /// By two keys.
    Keyboard,
    /// By an analog stick whenever a device is connected, and by the two
    /// keys while none is.
    Analog,
    /// By the predictive controller.
    Ai,
    /// Not at all.
    Idle,
}

/// What a controller asks of its paddle in one tick.
#[derive(Clone, Copy, Debug, PartialEq, Eq, Structural)]
pub enum PaddleCommand {
    /// Move by this much.
    Delta(i64),
    /// Move to this height.
    Absolute(i64),
    /// Travel at this velocity.
    Velocity(i64),
}

/// The mathematical value of a [`PaddleCommand`].
pub enum PaddleCommandModel {
    Delta(int),
    Absolute(int),
    Velocity(int),
}

impl View for PaddleCommand {
    type V = PaddleCommandModel;

    open spec fn view(&self) -> PaddleCommandModel {
        match *self {
            PaddleCommand::Delta(d) => PaddleCommandModel::Delta(d as int),
            PaddleCommand::Absolute(y) => PaddleCommandModel::Absolute(y as int),
            PaddleCommand::Velocity(v) => PaddleCommandModel::Velocity(v as int),
        }
    }
}

/// A paddle: the height of its centre, its vertical velocity, and its
/// controller. The horizontal position is fixed by the player.
#[derive(Clone, Copy, Debug, PartialEq, Eq, Structural)]
pub struct Paddle {
    pub y: i64,
    pub velocity_y: i64,
    pub controller: PaddleController,
}

/// The mathematical value of a [`Paddle`].
pub struct PaddleModel {
    pub y: int,
    pub velocity_y: int,
    pub controller: PaddleController,
}

impl View for Paddle {
    type V = PaddleModel;

    open spec fn view(&self) -> PaddleModel {
        PaddleModel {
            y: self.y as int,
            velocity_y: self.velocity_y as int,
            controller: self.controller,
        }
    }
}

/// A height limited to the travel of a paddle.
pub open spec fn clamp_to_travel(y: int) -> int {
    clamp(y, PADDLE_MIN_Y as int, PADDLE_MAX_Y as int)
}

impl PaddleModel {
    /// The paddle stands within its travel and is driven no faster than a
    /// paddle may be.
    pub open spec fn wf(self) -> bool {
        &&& PADDLE_MIN_Y <= self.y <= PADDLE_MAX_Y
        &&& -MAX_PADDLE_SPEED <= self.velocity_y <= MAX_PADDLE_SPEED
    }

    /// The paddle after a command. A command that sets the position leaves
    /// the paddle at rest; one that sets the velocity leaves it in place.
    pub open spec fn apply(self, command: PaddleCommandModel) -> PaddleModel {
        match command {
            PaddleCommandModel::Delta(d) => PaddleModel {
                y: clamp_to_travel(self.y + d),
                velocity_y: 0,
                ..self
            },
            PaddleCommandModel::Absolute(y) => PaddleModel {
                y: clamp_to_travel(y),
                velocity_y: 0,
                ..self
            },
            PaddleCommandModel::Velocity(v) => PaddleModel {
                velocity_y: clamp(v, -MAX_PADDLE_SPEED, MAX_PADDLE_SPEED as int),
                ..self
            },
        }
    }

    /// The paddle after one tick of travel at its velocity.
    pub open spec fn integrate(self) -> PaddleModel {
        PaddleModel { y: clamp_to_travel(self.y + self.velocity_y), ..self }
    }
}

impl Paddle {
    /// A paddle at rest at the centre of its travel.
    pub fn new(controller: PaddleController) -> (paddle: Paddle)
        ensures
            paddle@ == (PaddleModel { y: 0, velocity_y: 0, controller }),
            paddle@.wf(),
    {
        Paddle { y: 0, velocity_y: 0, controller }
    }

    /// Whether the paddle stands within its travel and within its speed.
    pub fn is_valid(&self) -> (ok: bool)
        ensures
            ok == self@.wf(),
    {
        PADDLE_MIN_Y <= self.y && self.y <= PADDLE_MAX_Y && -MAX_PADDLE_SPEED <= self.velocity_y
            && self.velocity_y <= MAX_PADDLE_SPEED
    }

    /// Carries out a command.
    pub fn apply(&mut self, command: PaddleCommand)
        ensures
            final(self)@ == old(self)@.apply(command@),
            old(self)@.wf() ==> final(self)@.wf(),
    {
        match command {
            PaddleCommand::Delta(d) => {
                self.y = clamp_wide(self.y as i128 + d as i128, PADDLE_MIN_Y, PADDLE_MAX_Y);
                self.velocity_y = 0;
            },
            PaddleCommand::Absolute(y) => {
                self.y = clamp_i64(y, PADDLE_MIN_Y, PADDLE_MAX_Y);
                self.velocity_y = 0;
            },
            PaddleCommand::Velocity(v) => {
                self.velocity_y = clamp_i64(v, -MAX_PADDLE_SPEED, MAX_PADDLE_SPEED);
            },
        }
    }

    /// Moves the paddle by one tick of travel at its velocity.
    pub fn integrate(&mut self)
        ensures
            final(self)@ == old(self)@.integrate(),
            old(self)@.wf() ==> final(self)@.wf(),
    {
        self.y = clamp_wide(self.y as i128 + self.velocity_y as i128, PADDLE_MIN_Y, PADDLE_MAX_Y);
    }
}

/// Whatever the command, a paddle ends within its travel when the command
/// sets its position, and stays where it was when the command sets its
/// velocity.
pub proof fn lemma_command_keeps_travel(paddle: PaddleModel, command: PaddleCommandModel)
    requires
        PADDLE_MIN_Y <= paddle.y <= PADDLE_MAX_Y,
    ensures
        PADDLE_MIN_Y <= paddle.apply(command).y <= PADDLE_MAX_Y,
        PADDLE_MIN_Y <= paddle.integrate().y <= PADDLE_MAX_Y,
{
}

} // verus!
