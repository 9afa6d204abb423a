//! The game controller: the state machine that validates an incoming move
//! against the current phase, applies it to the board, consults the
//! evaluator, and computes the next phase.

use vstd::prelude::*;

use crate::board::GameField;
use crate::board::Grid;
use crate::board::PlayableCellState;
use crate::board::empty_grid;
use crate::board::lemma_view_wf;
use crate::board::place_at;
use crate::evaluator::check_winner;
use crate::evaluator::evaluate;
use crate::evaluator::lemma_evaluate_empty;
use crate::laws::lemma_no_instant_win_for_opponent;
use crate::states::GameState;

verus! {

/// The phase that follows a completed placement: the winner's terminal
/// phase, a draw on a full board, or the other player's turn.
pub open spec fn next_state_of(phase: GameState, g: Grid) -> GameState {
    match evaluate(g) {
        Option::None => if phase == GameState::XTurn {
            GameState::ZeroTurn
        } else {
            GameState::XTurn
        },
        Option::Some(m) => match m {
            PlayableCellState::X => GameState::XWins,
            PlayableCellState::Zero => GameState::ZeroWins,
            PlayableCellState::Empty => GameState::Draw,
        },
    }
}

/// What one submitted move does to phase and board: during a turn phase and
/// onto an empty cell, the mover's mark is placed and the phase is resolved
/// from the new board; every other move is ignored entirely.
pub open spec fn step_of(phase: GameState, g: Grid, r: int, c: int) -> (GameState, Grid) {
    if phase == GameState::XTurn && g[r][c] == PlayableCellState::Empty {
        let g2 = place_at(g, r, c, PlayableCellState::X);
        ((next_state_of(GameState::XTurn, g2), g2))
    } else if phase == GameState::ZeroTurn && g[r][c] == PlayableCellState::Empty {
        let g2 = place_at(g, r, c, PlayableCellState::Zero);
        ((next_state_of(GameState::ZeroTurn, g2), g2))
    } else {
        ((phase, g))
    }
}

/// Resolves the phase that follows the move just applied to the board: the
/// evaluator's verdict wins, and otherwise the turn passes to the other
/// player.
pub fn resolve_next_game_state(current_state: GameState, game_field: &GameField) -> (next:
    GameState)
    ensures
        next == next_state_of(current_state, game_field@),
{
    match check_winner(game_field) {
        None => {
            if current_state == GameState::XTurn {
                GameState::ZeroTurn
            } else {
                GameState::XTurn
            }
        },
        Some(it) => {
            match it {
                PlayableCellState::X => GameState::XWins,
                PlayableCellState::Zero => GameState::ZeroWins,
                PlayableCellState::Empty => GameState::Draw,
            }
        },
    }
}

/// The sole owner of the live board and the current phase of one match.
#[derive(Debug, Clone, Copy)]
pub struct GameController {
    pub field: GameField,
    pub phase: GameState,
}

impl GameController {
    /// The controller's invariant: the phase always agrees with what the
    /// evaluator says of the board. While the match waits or a turn is open
    /// the board has no verdict yet, and each terminal phase records exactly
    /// the verdict the evaluator reached.
    pub open spec fn wf(self) -> bool {
        &&& (!self.phase.is_terminal() ==> evaluate(self.field@) is None)
        &&& (self.phase == GameState::XWins ==> evaluate(self.field@) == Some(
            PlayableCellState::X,
        ))
        &&& (self.phase == GameState::ZeroWins ==> evaluate(self.field@) == Some(
            PlayableCellState::Zero,
        ))
        &&& (self.phase == GameState::Draw ==> evaluate(self.field@) == Some(
            PlayableCellState::Empty,
        ))
    }

    /// A controller waiting for a match to start, with an empty board.
    pub fn new() -> (ctl: Self)
        ensures
            ctl.wf(),
            ctl.phase == GameState::BeforeGame,
            ctl.field@ == empty_grid(),
    {
        let ctl = GameController { field: GameField::default(), phase: GameState::BeforeGame };
        proof {
            lemma_evaluate_empty();
        }
        ctl
    }

    /// Starts a match: from the waiting phase, a fresh empty board is put in
    /// place and the first turn goes to X. In any other phase the request is
    /// ignored.
    pub fn start_new_game(&mut self)
        ensures
            old(self).phase == GameState::BeforeGame ==> final(self).phase == GameState::XTurn
                && final(self).field@ == empty_grid(),
            old(self).phase != GameState::BeforeGame ==> *final(self) == *old(self),
            old(self).wf() ==> final(self).wf(),
    {
        match self.phase {
            GameState::BeforeGame => {
                self.field = GameField::default();
                self.phase = GameState::XTurn;
                proof {
                    lemma_evaluate_empty();
                }
            },
            _ => {},
        }
    }

    /// Applies one move of the active player to the targeted cell, exactly
    /// as `step_of` says: outside a turn phase, or onto an occupied cell,
    /// nothing changes. On a controller whose phase agrees with its board,
    /// a move of X can never end in O's victory, nor the other way round.
    pub fn submit_move(&mut self, row: usize, col: usize)
        requires
            row < 3,
            col < 3,
        ensures
            final(self).phase == step_of(
                old(self).phase,
                old(self).field@,
                row as int,
                col as int,
            ).0,
            final(self).field@ == step_of(
                old(self).phase,
                old(self).field@,
                row as int,
                col as int,
            ).1,
            old(self).wf() ==> final(self).wf(),
            old(self).wf() && old(self).phase == GameState::XTurn ==> final(self).phase
                != GameState::ZeroWins,
            old(self).wf() && old(self).phase == GameState::ZeroTurn ==> final(self).phase
                != GameState::XWins,
    {
        let ghost g0: Grid = self.field@;
        match self.phase {
            GameState::XTurn => {
                match self.field.get(row, col) {
                    PlayableCellState::Empty => {
                        self.field.put_on_field(row, col, PlayableCellState::X);
                        proof {
                            if old(self).wf() {
                                lemma_view_wf(old(self).field);
                                lemma_no_instant_win_for_opponent(
                                    g0,
                                    row as int,
                                    col as int,
                                    PlayableCellState::X,
                                    PlayableCellState::Zero,
                                );
                            }
                        }
                        self.phase = resolve_next_game_state(GameState::XTurn, &self.field);
                    },
                    _ => {},
                }
            },
            GameState::ZeroTurn => {
                match self.field.get(row, col) {
                    PlayableCellState::Empty => {
                        self.field.put_on_field(row, col, PlayableCellState::Zero);
                        proof {
                            if old(self).wf() {
                                lemma_view_wf(old(self).field);
                                lemma_no_instant_win_for_opponent(
                                    g0,
                                    row as int,
                                    col as int,
                                    PlayableCellState::Zero,
                                    PlayableCellState::X,
                                );
                            }
                        }
                        self.phase = resolve_next_game_state(GameState::ZeroTurn, &self.field);
                    },
                    _ => {},
                }
            },
            _ => {},
        }
    }

    /// Acknowledges a finished match: from a terminal phase the controller
    /// returns to the waiting phase with a fresh empty board. In any other
    /// phase the request is ignored.
    pub fn acknowledge_result(&mut self)
        ensures
            old(self).phase.is_terminal() ==> final(self).phase == GameState::BeforeGame
                && final(self).field@ == empty_grid(),
            !old(self).phase.is_terminal() ==> *final(self) == *old(self),
            old(self).wf() ==> final(self).wf(),
    {
        match self.phase {
            GameState::XWins | GameState::ZeroWins | GameState::Draw => {
                self.field = GameField::default();
                self.phase = GameState::BeforeGame;
                proof {
                    lemma_evaluate_empty();
                }
            },
            _ => {},
        }
    }

    /// The phase the match is currently in.
    pub fn current_phase(&self) -> (phase: GameState)
        ensures
            phase == self.phase,
    {
        self.phase
    }

    /// The mark currently at (row, col) of the live board.
    pub fn cell_at(&self, row: usize, col: usize) -> (m: PlayableCellState)
        requires
            row < 3,
            col < 3,
        ensures
            m == self.field@[row as int][col as int],
    {
        self.field.get(row, col)
    }
}

} // verus!
