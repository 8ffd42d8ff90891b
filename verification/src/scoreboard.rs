//! The scoreboard: the two scores and the rally intensity.

use crate::arena::Player;
use vstd::prelude::*;

verus! {

/// Rally intensity from which a goal cuts the rally back.
pub const RALLY_DECAY_THRESHOLD: u64 = 5;

/// Rally intensity that is left after such a cut.
pub const RALLY_AFTER_DECAY: u64 = 2;

/// Scores of both players and the count of paddle contacts that scales the
/// speed of the ball.
#[derive(Clone, Copy, Debug, PartialEq, Eq, Structural)]
pub struct Scoreboard {
    pub p1_score: u64,
    pub p2_score: u64,
    pub rally_intensity: u64,
}

/// The mathematical value of a [`Scoreboard`].
pub struct ScoreboardModel {
    pub p1_score: nat,
    pub p2_score: nat,
    pub rally_intensity: nat,
}

impl View for Scoreboard {
    type V = ScoreboardModel;

    open spec fn view(&self) -> ScoreboardModel {
        ScoreboardModel {
            p1_score: self.p1_score as nat,
            p2_score: self.p2_score as nat,
            rally_intensity: self.rally_intensity as nat,
        }
    }
}

impl ScoreboardModel {
    /// The score of one player.
    pub open spec fn score(self, player: Player) -> nat {
        match player {
            Player::One => self.p1_score,
            Player::Two => self.p2_score,
        }
    }

    /// The counters can take what one tick may add to them: a point for
    /// either player and two contacts of the rally.
    pub open spec fn has_room(self) -> bool {
        &&& self.p1_score < u64::MAX
        &&& self.p2_score < u64::MAX
        &&& self.rally_intensity + 2 <= u64::MAX
    }

    /// The rally intensity that a goal leaves behind: a rally that has
    /// reached the threshold is cut back, a shorter one is kept.
    pub open spec fn rally_after_goal(self) -> nat {
        if self.rally_intensity >= RALLY_DECAY_THRESHOLD {
            RALLY_AFTER_DECAY as nat
        } else {
            self.rally_intensity
        }
    }

    /// The scoreboard after the ball has entered the goal that `owner`
    /// defends: the opponent scores one point.
    pub open spec fn goal_against(self, owner: Player) -> ScoreboardModel {
        match owner {
            Player::One => ScoreboardModel {
                p2_score: self.p2_score + 1,
                rally_intensity: self.rally_after_goal(),
                ..self
            },
            Player::Two => ScoreboardModel {
                p1_score: self.p1_score + 1,
                rally_intensity: self.rally_after_goal(),
                ..self
            },
        }
    }

    /// The scoreboard after the ball has met a paddle.
    pub open spec fn paddle_contact(self) -> ScoreboardModel {
        ScoreboardModel { rally_intensity: self.rally_intensity + 1, ..self }
    }
}

impl Scoreboard {
    /// A scoreboard with no points and no rally.
    pub fn new() -> (board: Scoreboard)
        ensures
            board@ == (ScoreboardModel { p1_score: 0, p2_score: 0, rally_intensity: 0 }),
    {
        Scoreboard { p1_score: 0, p2_score: 0, rally_intensity: 0 }
    }

    /// Whether the counters can take what one tick may add to them.
    pub fn has_room(&self) -> (ok: bool)
        ensures
            ok == self@.has_room(),
    {
        self.p1_score < u64::MAX && self.p2_score < u64::MAX && self.rally_intensity <= u64::MAX - 2
    }

    /// Records a goal conceded by `owner`.
    pub fn goal_against(&mut self, owner: Player)
        requires
            old(self)@.score(owner.opponent()) < u64::MAX,
        ensures
            final(self)@ == old(self)@.goal_against(owner),
    {
        if self.rally_intensity >= RALLY_DECAY_THRESHOLD {
            self.rally_intensity = RALLY_AFTER_DECAY;
        }
        match owner {
            Player::One => {
                self.p2_score = self.p2_score + 1;
            },
            Player::Two => {
                self.p1_score = self.p1_score + 1;
            },
        }
    }

    /// Records a contact of the ball with a paddle.
    pub fn paddle_contact(&mut self)
        requires
            old(self).rally_intensity < u64::MAX,
        ensures
            final(self)@ == old(self)@.paddle_contact(),
    {
        self.rally_intensity = self.rally_intensity + 1;
    }
}

/// A goal gives exactly one point to the opponent of the player who
/// conceded it and none to that player; it cuts a rally of five or more
/// contacts back to two and leaves a shorter one as it is.
pub proof fn lemma_goal_scores_for_opponent(board: ScoreboardModel, owner: Player)
    ensures
        board.goal_against(owner).score(owner.opponent()) == board.score(owner.opponent()) + 1,
        board.goal_against(owner).score(owner) == board.score(owner),
        board.rally_intensity >= 5 ==> board.goal_against(owner).rally_intensity == 2,
        board.rally_intensity < 5 ==> board.goal_against(owner).rally_intensity
            == board.rally_intensity,
{
}

} // verus!
