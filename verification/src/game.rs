//! Session bookkeeping: whether a game is being played, the score and the level.

use vstd::prelude::*;

use crate::animation::{can_score, LEVEL_STEP};

verus! {

/// Where a session stands.
#[derive(Debug, Clone, Copy, PartialEq, Eq, Structural)]
pub enum GameStatus {
    /// Created, not started yet.
    Start,
    /// Being played.
    Running,
    /// Over, by a collision or by the player's choice.
    End,
}

/// Status, score and level of one play session.
#[derive(Debug)]
pub struct GameSession {
    status: GameStatus,
    score: u32,
    level: u16,
}

/// What a [`GameSession`] holds, as mathematical values.
pub struct GameSessionView {
    pub status: GameStatus,
    pub score: nat,
    pub level: nat,
}

impl GameSessionView {
    /// The session as `GameSession::new` makes it.
    pub open spec fn fresh() -> GameSessionView {
        GameSessionView { status: GameStatus::Start, score: 0, level: 1 }
    }

    /// The session as `GameSession::start` leaves it, whatever it was before.
    pub open spec fn started() -> GameSessionView {
        GameSessionView { status: GameStatus::Running, score: 0, level: 1 }
    }
}

impl View for GameSession {
    type V = GameSessionView;

    closed spec fn view(&self) -> GameSessionView {
        GameSessionView { status: self.status, score: self.score as nat, level: self.level as nat }
    }
}

impl GameSession {
    /// A session that has not started: score 0, level 1.
    pub fn new() -> (session: Self)
        ensures
            session@ == GameSessionView::fresh(),
    {
        Self { status: GameStatus::Start, score: 0, level: 1 }
    }

    /// Whether the game is being played.
    pub fn is_running(&self) -> (running: bool)
        ensures
            running == (self@.status == GameStatus::Running),
    {
        matches!(self.status, GameStatus::Running)
    }

    /// Starts play from score 0 and level 1.
    pub fn start(&mut self)
        ensures
            final(self)@ == GameSessionView::started(),
    {
        self.status = GameStatus::Running;
        self.score = 0;
        self.level = 1;
    }

    /// Ends play; score and level stay.
    pub fn end(&mut self)
        ensures
            final(self)@ == (GameSessionView { status: GameStatus::End, ..old(self)@ }),
    {
        self.status = GameStatus::End;
    }

    /// Raises the level by one.
    pub fn increase_level(&mut self)
        requires
            old(self)@.level < u16::MAX,
        ensures
            final(self)@ == (GameSessionView { level: old(self)@.level + 1, ..old(self)@ }),
    {
        self.level += 1;
    }

    /// Raises the score by one.
    pub fn increase_score(&mut self)
        requires
            old(self)@.score < u32::MAX,
        ensures
            final(self)@ == (GameSessionView { score: old(self)@.score + 1, ..old(self)@ }),
    {
        self.score += 1;
    }

    /// Whether the session can take the score point of one more obstacle,
    /// and the level that may come with it, see [`can_score`].
    pub fn can_score(&self) -> (able: bool)
        ensures
            able == can_score(self@),
    {
        self.score < u32::MAX && ((self.score + 1) % LEVEL_STEP != 0 || self.level < u16::MAX)
    }

    /// The score.
    pub fn get_score(&self) -> (score: u32)
        ensures
            score == self@.score,
    {
        self.score
    }

    /// The level.
    pub fn get_level(&self) -> (level: u16)
        ensures
            level == self@.level,
    {
        self.level
    }
}

} // verus!
