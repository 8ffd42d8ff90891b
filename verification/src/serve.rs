//! The serve lockout: a one-shot countdown that freezes motion after a goal.
//!
//! A match is `Serving` while the countdown runs and `Live` once it has
//! run out. Time is counted in nanoseconds.

use bevy::prelude::Timer;
use std::time::Duration;
use vstd::prelude::*;

verus! {

/// Length of the lockout that follows a goal, in nanoseconds.
pub const SERVE_LOCKOUT_NANOS: u64 = 700_000_000;

/// The countdown: time elapsed since it was last restarted, and its length.
#[derive(Clone, Copy, Debug, PartialEq, Eq, Structural)]
pub struct ServeLockout {
    pub elapsed: u64,
    pub duration: u64,
}

/// The mathematical value of a [`ServeLockout`].
pub struct ServeLockoutModel {
    pub elapsed: nat,
    pub duration: nat,
}

/// The two states of play, with the time still to wait while serving.
#[derive(Clone, Copy, Debug, PartialEq, Eq, Structural)]
pub enum ServeState {
    Serving(u64),
    Live,
}

impl View for ServeLockout {
    type V = ServeLockoutModel;

    open spec fn view(&self) -> ServeLockoutModel {
        ServeLockoutModel { elapsed: self.elapsed as nat, duration: self.duration as nat }
    }
}

impl ServeLockoutModel {
    /// The countdown has run out: play is live.
    pub open spec fn finished(self) -> bool {
        self.elapsed >= self.duration
    }

    /// Time still to wait; zero once play is live.
    pub open spec fn remaining(self) -> nat {
        if self.elapsed >= self.duration {
            0
        } else {
            (self.duration - self.elapsed) as nat
        }
    }

    /// The countdown after `delta` more nanoseconds: it stops at its length.
    pub open spec fn tick(self, delta: nat) -> ServeLockoutModel {
        ServeLockoutModel {
            elapsed: if self.elapsed + delta >= self.duration {
                self.duration
            } else {
                self.elapsed + delta
            },
            ..self
        }
    }

    /// The countdown restarted from zero.
    pub open spec fn reset(self) -> ServeLockoutModel {
        ServeLockoutModel { elapsed: 0, ..self }
    }
}

/// Runs `Timer::tick` of bevy on a one-shot timer of length `duration`
/// that has `elapsed` on it, and reads the elapsed time back, all in
/// nanoseconds. A timer that does not repeat adds the delta and stops at its
/// length; that sum, cut off at the length, is what the contract states.
#[verifier::external_body]
fn timer_elapsed_after_tick(elapsed: u64, duration: u64, delta: u64) -> (now: u64)
    ensures
        now == if elapsed + delta >= duration {
            duration as int
        } else {
            elapsed + delta
        },
{
    let mut timer = Timer::new(Duration::from_nanos(duration), false);
    timer.set_elapsed(Duration::from_nanos(elapsed));
    timer.tick(Duration::from_nanos(delta));
    timer.elapsed().as_nanos() as u64
}

impl ServeLockout {
    /// A countdown of the given length that has just been started.
    pub fn new(duration: u64) -> (lockout: ServeLockout)
        ensures
            lockout@ == (ServeLockoutModel { elapsed: 0, duration: duration as nat }),
    {
        ServeLockout { elapsed: 0, duration }
    }

    /// Whether the countdown has run out.
    pub fn finished(&self) -> (done: bool)
        ensures
            done == self@.finished(),
    {
        self.elapsed >= self.duration
    }

    /// The state of play that the countdown stands for.
    pub fn state(&self) -> (state: ServeState)
        ensures
            self@.finished() ==> state == ServeState::Live,
            !self@.finished() ==> state == ServeState::Serving(self@.remaining() as u64),
    {
        if self.elapsed >= self.duration {
            ServeState::Live
        } else {
            ServeState::Serving(self.duration - self.elapsed)
        }
    }

    /// Advances the countdown by `delta` nanoseconds.
    pub fn tick(&mut self, delta: u64)
        ensures
            final(self)@ == old(self)@.tick(delta as nat),
    {
        self.elapsed = timer_elapsed_after_tick(self.elapsed, self.duration, delta);
    }

    /// Restarts the countdown.
    pub fn reset(&mut self)
        ensures
            final(self)@ == old(self)@.reset(),
    {
        self.elapsed = 0;
    }
}

} // verus!
