//! What the players' devices report in one tick, and what the keys and the
//! stick ask of a paddle.

use crate::arena::PADDLE_SPEED;
use crate::paddle::{PaddleCommand, PaddleCommandModel};
use crate::units::{clamp, clamp_i64};
use vstd::prelude::*;

verus! {

/// Reading of a stick that is pushed all the way up.
pub const AXIS_ONE: i64 = 1000;

/// Height that one step of the stick's reading stands for: at full
/// deflection the stick asks for a height of 250 arena units.
pub const ANALOG_STEP: i64 = 1500;

/// What an analog device reports for one player.
#[derive(Clone, Copy, Debug, PartialEq, Eq, Structural)]
pub enum Stick {
    /// No device is connected.
    Disconnected,
    /// A device is connected but reports no reading for its axis.
    Silent,
    /// The reading of the vertical axis, from `-AXIS_ONE` to `AXIS_ONE`.
    Axis(i64),
}

/// The state of one player's devices in one tick.
#[derive(Clone, Copy, Debug, PartialEq, Eq, Structural)]
pub struct PaddleInput {
    pub up: bool,
    pub down: bool,
    pub stick: Stick,
}

/// The state of both players' devices in one tick.
#[derive(Clone, Copy, Debug, PartialEq, Eq, Structural)]
pub struct TickInput {
    pub p1: PaddleInput,
    pub p2: PaddleInput,
}

/// The direction that the two keys ask for: up is 1, down is -1, and both
/// keys or neither is 0.
pub open spec fn key_direction(up: bool, down: bool) -> int {
    (if up { 1int } else { 0int }) - (if down { 1int } else { 0int })
}

/// The command of the keys: one tick of travel at `PADDLE_SPEED` in the
/// direction asked for.
pub open spec fn keyboard_command_spec(up: bool, down: bool) -> PaddleCommandModel {
    PaddleCommandModel::Delta(key_direction(up, down) * PADDLE_SPEED)
}

/// The command of the stick: the height that its reading stands for, the
/// reading being limited to the range of the axis.
pub open spec fn analog_command_spec(axis: int) -> PaddleCommandModel {
    PaddleCommandModel::Absolute(clamp(axis, -AXIS_ONE, AXIS_ONE as int) * ANALOG_STEP)
}

/// The command of a player who has a stick: the stick decides while a
/// device is connected, also when it reports nothing, and the keys decide
/// while none is.
pub open spec fn analog_or_keyboard_command_spec(input: PaddleInput) -> PaddleCommandModel {
    match input.stick {
        Stick::Axis(axis) => analog_command_spec(axis as int),
        Stick::Silent => PaddleCommandModel::Delta(0),
        Stick::Disconnected => keyboard_command_spec(input.up, input.down),
    }
}

/// Turns the state of the two keys into a command.
pub fn keyboard_command(up: bool, down: bool) -> (command: PaddleCommand)
    ensures
        command@ == keyboard_command_spec(up, down),
{
    let mut direction: i64 = 0;
    if down {
        direction = direction - 1;
    }
    if up {
        direction = direction + 1;
    }
    PaddleCommand::Delta(direction * PADDLE_SPEED)
}

/// Turns a reading of the stick into a command.
pub fn analog_command(axis: i64) -> (command: PaddleCommand)
    ensures
        command@ == analog_command_spec(axis as int),
{
    PaddleCommand::Absolute(clamp_i64(axis, -AXIS_ONE, AXIS_ONE) * ANALOG_STEP)
}

/// Turns the state of a player's devices into a command, the stick taking
/// precedence over the keys.
pub fn analog_or_keyboard_command(input: &PaddleInput) -> (command: PaddleCommand)
    ensures
        command@ == analog_or_keyboard_command_spec(*input),
{
    match input.stick {
        Stick::Axis(axis) => analog_command(axis),
        Stick::Silent => PaddleCommand::Delta(0),
        Stick::Disconnected => keyboard_command(input.up, input.down),
    }
}

/// What happened to a gamepad.
#[derive(Clone, Copy, Debug, PartialEq, Eq, Structural)]
pub enum GamepadEventKind {
    Connected,
    Disconnected,
    Other,
}

/// An event of the gamepad with the given id.
#[derive(Clone, Copy, Debug, PartialEq, Eq, Structural)]
pub struct GamepadEvent {
    pub gamepad: usize,
    pub kind: GamepadEventKind,
}

/// The effect of one event on the gamepad chosen for the player.
///
/// `known` is the gamepad that was in use when the batch of events began;
/// every event of the batch is judged against it. A connection takes the new
/// gamepad if none was in use, a disconnection of the gamepad in use gives
/// it up, and nothing else changes the choice.
pub open spec fn connection_step(
    known: Option<usize>,
    chosen: Option<usize>,
    event: GamepadEvent,
) -> Option<usize> {
    match event.kind {
        GamepadEventKind::Connected => if known is None {
            Some(event.gamepad)
        } else {
            chosen
        },
        GamepadEventKind::Disconnected => if known == Some(event.gamepad) {
            None
        } else {
            chosen
        },
        GamepadEventKind::Other => chosen,
    }
}

/// The gamepad in use after a batch of events, taken in order.
pub open spec fn gamepad_after(known: Option<usize>, events: Seq<GamepadEvent>) -> Option<usize>
    decreases events.len(),
{
    if events.len() == 0 {
        known
    } else {
        connection_step(known, gamepad_after(known, events.drop_last()), events.last())
    }
}

/// Follows a batch of gamepad events and returns the gamepad that the
/// player uses afterwards.
pub fn gamepad_connections(known: Option<usize>, events: &Vec<GamepadEvent>) -> (chosen: Option<
    usize,
>)
    ensures
        chosen == gamepad_after(known, events@),
{
    let mut chosen = known;
    let mut i: usize = 0;
    while i < events.len()
        invariant
            i <= events.len(),
            chosen == gamepad_after(known, events@.take(i as int)),
        decreases events.len() - i,
    {
        let event = events[i];
        proof {
            let next = events@.take(i + 1);
            assert(next.drop_last() == events@.take(i as int));
            assert(next.last() == event);
        }
        match event.kind {
            GamepadEventKind::Connected => {
                if known.is_none() {
                    chosen = Some(event.gamepad);
                }
            },
            GamepadEventKind::Disconnected => {
                if known == Some(event.gamepad) {
                    chosen = None;
                }
            },
            GamepadEventKind::Other => {},
        }
        i = i + 1;
    }
    proof {
        assert(events@.take(events.len() as int) == events@);
    }
    chosen
}

/// With no gamepad in use, the batch leaves the player with the gamepad of
/// the last connection in it.
pub proof fn lemma_last_connection_wins(events: Seq<GamepadEvent>, last: int)
    requires
        0 <= last < events.len(),
        events[last].kind == GamepadEventKind::Connected,
        forall|j: int|
            last < j < events.len() ==> (#[trigger] events[j]).kind != GamepadEventKind::Connected,
    ensures
        gamepad_after(None, events) == Some(events[last].gamepad),
    decreases events.len(),
{
    if last < events.len() - 1 {
        let front = events.drop_last();
        assert(events.last() == events[events.len() - 1]);
        assert forall|j: int| last < j < front.len() implies (#[trigger] front[j]).kind
            != GamepadEventKind::Connected by {
            assert(front[j] == events[j]);
        }
        lemma_last_connection_wins(front, last);
    }
}

/// With no gamepad in use and no connection in the batch, the player is
/// left without one.
pub proof fn lemma_no_connection_no_gamepad(events: Seq<GamepadEvent>)
    requires
        forall|j: int|
            0 <= j < events.len() ==> (#[trigger] events[j]).kind != GamepadEventKind::Connected,
    ensures
        gamepad_after(None, events) is None,
    decreases events.len(),
{
    if events.len() > 0 {
        let front = events.drop_last();
        assert(events.last() == events[events.len() - 1]);
        assert forall|j: int| 0 <= j < front.len() implies (#[trigger] front[j]).kind
            != GamepadEventKind::Connected by {
            assert(front[j] == events[j]);
        }
        lemma_no_connection_no_gamepad(front);
    }
}

/// With a gamepad in use, the batch takes it from the player exactly when
/// it holds a disconnection of that gamepad; no other gamepad replaces it.
pub proof fn lemma_gamepad_kept_until_disconnected(gamepad: usize, events: Seq<GamepadEvent>)
    ensures
        gamepad_after(Some(gamepad), events) == if exists|i: int|
            0 <= i < events.len() && #[trigger] events[i] == (GamepadEvent {
                gamepad,
                kind: GamepadEventKind::Disconnected,
            }) {
            None
        } else {
            Some(gamepad)
        },
    decreases events.len(),
{
    let gone = GamepadEvent { gamepad, kind: GamepadEventKind::Disconnected };
    if events.len() > 0 {
        let front = events.drop_last();
        lemma_gamepad_kept_until_disconnected(gamepad, front);
        assert(forall|i: int| 0 <= i < front.len() ==> front[i] == events[i]);
        if events.last() == gone {
            assert(events[events.len() - 1] == gone);
        } else if exists|i: int| 0 <= i < front.len() && #[trigger] front[i] == gone {
            let i = choose|i: int| 0 <= i < front.len() && #[trigger] front[i] == gone;
            assert(events[i] == gone);
        } else {
            assert forall|i: int| 0 <= i < events.len() implies #[trigger] events[i] != gone by {
                if i < front.len() {
                    assert(front[i] == events[i]);
                }
            }
        }
    }
}

} // verus!
