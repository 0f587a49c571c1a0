//! Goal detection, the ball's re-serve and the score.
use vstd::prelude::*;
use crate::geometry::{Aabb, Rect, Vec2, Vector2};

verus! {

/// The side that scored a goal.
#[derive(Clone, Copy, Debug, PartialEq, Eq, Structural)]
pub enum Scorer {
    Player,
    Opponent,
}

/// One goal, produced by detection and consumed within the same tick.
#[derive(Clone, Copy, Debug, PartialEq, Eq, Structural)]
pub struct ScoredEvent {
    pub side: Scorer,
}

/// Goals per side in one session.
#[derive(Clone, Copy, Debug, PartialEq, Eq, Structural)]
pub struct Score {
    pub player: u64,
    pub opponent: u64,
}

/// The mathematical value of a [`Score`].
pub struct Tally {
    pub player: nat,
    pub opponent: nat,
}

impl View for Score {
    type V = Tally;

    open spec fn view(&self) -> Tally {
        Tally { player: self.player as nat, opponent: self.opponent as nat }
    }
}

impl Tally {
    /// The tally with one more goal for `side`.
    pub open spec fn credited(self, side: Scorer) -> Tally {
        match side {
            Scorer::Player => Tally { player: self.player + 1, opponent: self.opponent },
            Scorer::Opponent => Tally { player: self.player, opponent: self.opponent + 1 },
        }
    }

    /// Neither side has fewer goals in `later` than in `self`.
    pub open spec fn le(self, later: Tally) -> bool {
        self.player <= later.player && self.opponent <= later.opponent
    }

    /// The tally where one more goal for `side` still fits in a counter.
    pub open spec fn can_credit(self, side: Scorer) -> bool {
        match side {
            Scorer::Player => self.player < u64::MAX,
            Scorer::Opponent => self.opponent < u64::MAX,
        }
    }
}

impl Score {
    /// The score at the start of a session.
    pub fn new() -> (r: Score)
        ensures
            r@ == (Tally { player: 0, opponent: 0 }),
    {
        Score { player: 0, opponent: 0 }
    }
}

/// The goal, if any, scored by a ball whose box is `ball`: past the right
/// edge of the playfield for the player, past the left edge for the opponent.
pub open spec fn goal_of(ball: Rect, half_width: int) -> Option<Scorer> {
    if ball.center.x - ball.half.x > half_width {
        Some(Scorer::Player)
    } else if ball.center.x + ball.half.x < -half_width {
        Some(Scorer::Opponent)
    } else {
        None
    }
}

pub open spec fn event_of(goal: Option<Scorer>) -> Option<ScoredEvent> {
    match goal {
        Some(side) => Some(ScoredEvent { side }),
        None => None,
    }
}

/// Reports a goal when the whole ball has left the playfield on either side.
pub fn detect_goal(ball: Aabb, playfield_half_width: i64) -> (r: Option<ScoredEvent>)
    ensures
        r == event_of(goal_of(ball@, playfield_half_width as int)),
{
    let x = ball.center.x as i128;
    let hx = ball.half_extent.x as i128;
    let w = playfield_half_width as i128;
    if x - hx > w {
        Some(ScoredEvent { side: Scorer::Player })
    } else if x + hx < -w {
        Some(ScoredEvent { side: Scorer::Opponent })
    } else {
        None
    }
}

/// The serve after a goal: horizontally toward the player after the player
/// scores and toward the opponent after the opponent scores, always upward.
pub open spec fn serve_velocity(side: Scorer, ball_speed: int) -> Vec2 {
    match side {
        Scorer::Player => Vec2 { x: -ball_speed, y: ball_speed },
        Scorer::Opponent => Vec2 { x: ball_speed, y: ball_speed },
    }
}

pub open spec fn origin() -> Vec2 {
    Vec2 { x: 0, y: 0 }
}

/// Puts the ball back at the center of the playfield with the serve velocity.
pub fn reset_ball(event: ScoredEvent, position: &mut Vector2, velocity: &mut Vector2, ball_speed: i64)
    requires
        ball_speed > i64::MIN,
    ensures
        final(position)@ == origin(),
        final(velocity)@ == serve_velocity(event.side, ball_speed as int),
{
    *position = Vector2 { x: 0, y: 0 };
    match event.side {
        Scorer::Player => {
            *velocity = Vector2 { x: -ball_speed, y: ball_speed };
        },
        Scorer::Opponent => {
            *velocity = Vector2 { x: ball_speed, y: ball_speed };
        },
    }
}

/// Adds exactly one goal to the side that scored.
pub fn update_score(score: &mut Score, event: ScoredEvent)
    requires
        old(score)@.can_credit(event.side),
    ensures
        final(score)@ == old(score)@.credited(event.side),
{
    match event.side {
        Scorer::Player => {
            score.player = score.player + 1;
        },
        Scorer::Opponent => {
            score.opponent = score.opponent + 1;
        },
    }
}

} // verus!
