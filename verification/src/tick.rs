//! The tick: one step of the match in its fixed order. The controllers
//! move the paddles, then the ball and the paddles travel, then the ball's
//! contacts take effect.

use crate::arena::{Collider, Player, WallLocation, PADDLE_MAX_Y, PADDLE_MIN_Y};
use crate::ball::ball_start;
use crate::collision::{
    lemma_clear_ball_is_left_alone, lemma_collision_stage_unfolds, lemma_collisions_keep_invariant,
    lemma_contact_and_scoreboard, lemma_served_ball_is_clear,
};
use crate::input::TickInput;
use crate::world::{World, WorldModel};
use vstd::prelude::*;

verus! {

impl WorldModel {
    /// The world after one tick that comes `delta` nanoseconds after the
    /// tick before.
    pub open spec fn tick(self, input: TickInput, delta: nat) -> WorldModel {
        self.move_paddles(input).apply_velocity(delta).check_for_collisions()
    }

    /// The world after a run of ticks, one for each input, `delta`
    /// nanoseconds apart.
    pub open spec fn run(self, inputs: Seq<TickInput>, delta: nat) -> WorldModel
        decreases inputs.len(),
    {
        if inputs.len() == 0 {
            self
        } else {
            self.run(inputs.drop_last(), delta).tick(inputs.last(), delta)
        }
    }
}

impl World {
    /// Advances the match by one tick that comes `delta` nanoseconds after
    /// the tick before.
    pub fn tick(&mut self, input: &TickInput, delta: u64)
        requires
            old(self)@.wf(),
            old(self)@.can_tick(),
        ensures
            final(self)@ == old(self)@.tick(*input, delta as nat),
            final(self)@.wf(),
    {
        self.move_paddles(input);
        self.apply_velocity(delta);
        self.check_for_collisions();
    }

    /// Advances the match by one tick for each input, `delta` nanoseconds
    /// apart, for as long as a tick can be represented, and returns the
    /// number of ticks made. It stops early only before a tick that cannot
    /// be represented.
    pub fn run(&mut self, inputs: &Vec<TickInput>, delta: u64) -> (done: usize)
        requires
            old(self)@.wf(),
        ensures
            done <= inputs.len(),
            final(self)@ == old(self)@.run(inputs@.take(done as int), delta as nat),
            final(self)@.wf(),
            done < inputs.len() ==> !final(self)@.can_tick(),
    {
        let ghost start = self@;
        let mut done: usize = 0;
        while done < inputs.len() && self.can_tick()
            invariant
                done <= inputs.len(),
                self@ == start.run(inputs@.take(done as int), delta as nat),
                self@.wf(),
            ensures
                done < inputs.len() ==> !self@.can_tick(),
            decreases inputs.len() - done,
        {
            proof {
                let next = inputs@.take(done + 1);
                assert(next.drop_last() == inputs@.take(done as int));
                assert(next.last() == inputs[done as int]);
            }
            self.tick(&inputs[done], delta);
            done = done + 1;
        }
        done
    }
}

/// A tick keeps the invariant of a match: whatever the devices report and
/// whatever the time since the last tick, both paddles end the tick within
/// their travel and the ball within its speed.
pub proof fn lemma_tick_keeps_invariant(world: WorldModel, input: TickInput, delta: nat)
    requires
        world.wf(),
    ensures
        world.tick(input, delta).wf(),
        PADDLE_MIN_Y <= world.tick(input, delta).p1.y <= PADDLE_MAX_Y,
        PADDLE_MIN_Y <= world.tick(input, delta).p2.y <= PADDLE_MAX_Y,
{
    lemma_collisions_keep_invariant(world.move_paddles(input).apply_velocity(delta));
}

/// Over any run of ticks, whatever the devices report, both paddles stand
/// within their travel at the end of every tick.
pub proof fn lemma_paddles_stay_in_travel(world: WorldModel, inputs: Seq<TickInput>, delta: nat)
    requires
        world.wf(),
    ensures
        forall|n: int|
            0 <= n <= inputs.len() ==> {
                let then = #[trigger] world.run(inputs.take(n), delta);
                &&& then.wf()
                &&& PADDLE_MIN_Y <= then.p1.y <= PADDLE_MAX_Y
                &&& PADDLE_MIN_Y <= then.p2.y <= PADDLE_MAX_Y
            },
{
    assert forall|n: int| 0 <= n <= inputs.len() implies {
        let then = #[trigger] world.run(inputs.take(n), delta);
        &&& then.wf()
        &&& PADDLE_MIN_Y <= then.p1.y <= PADDLE_MAX_Y
        &&& PADDLE_MIN_Y <= then.p2.y <= PADDLE_MAX_Y
    } by {
        lemma_run_keeps_invariant(world, inputs.take(n), delta);
    }
}

/// A run of ticks keeps the invariant of a match.
pub proof fn lemma_run_keeps_invariant(world: WorldModel, inputs: Seq<TickInput>, delta: nat)
    requires
        world.wf(),
    ensures
        world.run(inputs, delta).wf(),
    decreases inputs.len(),
{
    if inputs.len() > 0 {
        lemma_run_keeps_invariant(world, inputs.drop_last(), delta);
        lemma_tick_keeps_invariant(world.run(inputs.drop_last(), delta), inputs.last(), delta);
    }
}

/// The length of the serve lockout never changes: whatever happens in a
/// run of ticks, a goal in a match that was set up with a lockout of seven
/// tenths of a second makes the ball wait that long.
pub proof fn lemma_lockout_length_is_kept(world: WorldModel, inputs: Seq<TickInput>, delta: nat)
    ensures
        world.run(inputs, delta).lockout.duration == world.lockout.duration,
    decreases inputs.len(),
{
    if inputs.len() > 0 {
        lemma_lockout_length_is_kept(world, inputs.drop_last(), delta);
        let before = world.run(inputs.drop_last(), delta);
        let moved = before.move_paddles(inputs.last()).apply_velocity(delta);
        assert(moved.lockout.duration == before.lockout.duration);
        lemma_collision_stage_unfolds(moved);
    }
}

/// Points are never taken back: neither score is lower after a tick than it
/// was before.
pub proof fn lemma_scores_never_fall(world: WorldModel, input: TickInput, delta: nat)
    ensures
        world.tick(input, delta).scoreboard.p1_score >= world.scoreboard.p1_score,
        world.tick(input, delta).scoreboard.p2_score >= world.scoreboard.p2_score,
{
    let moved = world.move_paddles(input).apply_velocity(delta);
    assert(moved.scoreboard == world.scoreboard);
    lemma_collision_stage_unfolds(moved);
    let w1 = moved.collide_with(Collider::Paddle(Player::One));
    lemma_contact_and_scoreboard(moved, Collider::Paddle(Player::One));
    let w2 = w1.collide_with(Collider::Paddle(Player::Two));
    lemma_contact_and_scoreboard(w1, Collider::Paddle(Player::Two));
    let w3 = w2.collide_with(Collider::Wall(WallLocation::Bottom));
    lemma_contact_and_scoreboard(w2, Collider::Wall(WallLocation::Bottom));
    let w4 = w3.collide_with(Collider::Wall(WallLocation::Top));
    lemma_contact_and_scoreboard(w3, Collider::Wall(WallLocation::Top));
    let w5 = w4.collide_with(Collider::Goal(Player::One));
    lemma_contact_and_scoreboard(w4, Collider::Goal(Player::One));
    lemma_contact_and_scoreboard(w5, Collider::Goal(Player::Two));
}

/// While a serve is waited for, the ball stays where it was placed and
/// keeps the velocity it was given: a tick that does not complete the
/// lockout changes neither, and only adds its time to the lockout.
pub proof fn lemma_ball_waits_during_lockout(world: WorldModel, input: TickInput, delta: nat)
    requires
        world.ball.position == ball_start(),
        world.lockout.elapsed + delta < world.lockout.duration,
    ensures
        world.tick(input, delta).ball == world.ball,
        world.tick(input, delta).scoreboard == world.scoreboard,
        world.tick(input, delta).lockout.elapsed == world.lockout.elapsed + delta,
        world.tick(input, delta).lockout.duration == world.lockout.duration,
{
    let moved = world.move_paddles(input).apply_velocity(delta);
    assert(moved.ball == world.ball);
    lemma_served_ball_is_clear(moved);
    lemma_clear_ball_is_left_alone(moved);
}

/// From the serve on, and for as long as the ticks add up to less than what
/// is left of the lockout, the ball stays at the place of the serve with
/// its velocity unchanged, whatever the devices report.
pub proof fn lemma_ball_waits_for_serve(world: WorldModel, inputs: Seq<TickInput>, delta: nat)
    requires
        world.ball.position == ball_start(),
        world.lockout.elapsed + inputs.len() * delta < world.lockout.duration,
    ensures
        world.run(inputs, delta).ball == world.ball,
        world.run(inputs, delta).scoreboard == world.scoreboard,
        world.run(inputs, delta).lockout.elapsed == world.lockout.elapsed + inputs.len() * delta,
        world.run(inputs, delta).lockout.duration == world.lockout.duration,
    decreases inputs.len(),
{
    if inputs.len() > 0 {
        let front = inputs.drop_last();
        assert(inputs.len() * delta == front.len() * delta + delta) by (nonlinear_arith)
            requires
                inputs.len() == front.len() + 1,
        ;
        lemma_ball_waits_for_serve(world, front, delta);
        lemma_ball_waits_during_lockout(world.run(front, delta), inputs.last(), delta);
    } else {
        assert(inputs.len() * delta == 0) by (nonlinear_arith)
            requires
                inputs.len() == 0,
        ;
    }
}

/// The tick that completes the lockout sets the ball in motion: after the
/// travel stage the ball has moved by its velocity.
pub proof fn lemma_serve_releases_ball(world: WorldModel, delta: nat)
    requires
        world.lockout.elapsed + delta >= world.lockout.duration,
    ensures
        world.apply_velocity(delta).ball.position.x == world.ball.position.x
            + world.ball.velocity.x,
        world.apply_velocity(delta).ball.position.y == world.ball.position.y
            + world.ball.velocity.y,
{
}

} // verus!
