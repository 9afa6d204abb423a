//! The phases of a match, the sole authority for which moves are legal.

use vstd::prelude::*;

verus! {

/// The controller's current phase: waiting for a match, one of the two turn
/// phases, or one of the three terminal results.
#[derive(Debug, Clone, Copy, PartialEq, Eq, Hash, Structural)]
pub enum GameState {
    BeforeGame,
    XTurn,
    ZeroTurn,
    XWins,
    ZeroWins,
    Draw,
}

impl Default for GameState {
    /// A match always starts out waiting in `BeforeGame`.
    fn default() -> (s: Self)
        ensures
            s == GameState::BeforeGame,
    {
        GameState::BeforeGame
    }
}

impl GameState {
    /// The phase is one of the three match-ending results.
    pub open spec fn is_terminal(self) -> bool {
        self == GameState::XWins || self == GameState::ZeroWins || self == GameState::Draw
    }
}

} // verus!
