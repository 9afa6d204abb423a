//! The general guarantees of the board and its evaluator, stated and proved
//! once over the grid model that every contract of this crate speaks of.

use vstd::prelude::*;

use crate::board::Grid;
use crate::board::PlayableCellState;
use crate::board::grid_wf;
use crate::board::place_at;
use crate::evaluator::evaluate;
use crate::evaluator::grid_full;
use crate::evaluator::lemma_winner_from_first;
use crate::evaluator::lemma_winner_from_none;
use crate::evaluator::lemma_winner_from_some;
use crate::evaluator::line_coords;
use crate::evaluator::line_winner;
use crate::evaluator::no_winning_line;

verus! {

/// Placing onto an already-occupied cell never changes the board.
pub proof fn lemma_place_on_occupied_is_noop(g: Grid, r: int, c: int, m: PlayableCellState)
    requires
        g[r][c] != PlayableCellState::Empty,
    ensures
        place_at(g, r, c, m) == g,
{
}

/// Placing a mark is idempotent on the targeted cell: after the first
/// placement the cell is occupied, so a second placement there, with the
/// same or a different mark, leaves the whole board unchanged.
pub proof fn lemma_place_idempotent(
    g: Grid,
    r: int,
    c: int,
    m1: PlayableCellState,
    m2: PlayableCellState,
)
    requires
        grid_wf(g),
        0 <= r < 3,
        0 <= c < 3,
        m1 != PlayableCellState::Empty,
        m2 != PlayableCellState::Empty,
    ensures
        place_at(place_at(g, r, c, m1), r, c, m2) == place_at(g, r, c, m1),
{
    let g1 = place_at(g, r, c, m1);
    assert(g1[r][c] != PlayableCellState::Empty);
    lemma_place_on_occupied_is_noop(g1, r, c, m2);
}

/// On a board with no winning line, the evaluator reports a draw exactly on
/// a full board, and reports nothing while an empty cell remains.
pub proof fn lemma_draw_and_continuation(g: Grid)
    requires
        no_winning_line(g),
    ensures
        grid_full(g) ==> evaluate(g) == Some(PlayableCellState::Empty),
        !grid_full(g) ==> evaluate(g) is None,
{
    lemma_winner_from_none(g, 0);
}

/// When several lines are satisfied at once, the evaluator reports the owner
/// of the line earliest in row-then-column-then-diagonal order.
pub proof fn lemma_first_line_decides(g: Grid, k: int)
    requires
        0 <= k < 8,
        line_winner(g, k) is Some,
        forall|j: int| 0 <= j < k ==> (#[trigger] line_winner(g, j)) is None,
    ensures
        evaluate(g) == line_winner(g, k),
{
    lemma_winner_from_first(g, 0, k);
}

/// A placement only ever adds the mover's own mark, so it cannot create a
/// winning line for the opponent: on a board the evaluator reports nothing
/// of, the evaluator never reports the opponent as the winner right after
/// the move.
pub proof fn lemma_no_instant_win_for_opponent(
    g: Grid,
    r: int,
    c: int,
    m: PlayableCellState,
    o: PlayableCellState,
)
    requires
        grid_wf(g),
        0 <= r < 3,
        0 <= c < 3,
        m != PlayableCellState::Empty,
        o != PlayableCellState::Empty,
        o != m,
        evaluate(g) is None,
    ensures
        evaluate(place_at(g, r, c, m)) != Some(o),
{
    let g2 = place_at(g, r, c, m);
    assert forall|i: int, j: int| 0 <= i < 3 && 0 <= j < 3 implies #[trigger] g2[i][j] == g[i][j]
        || g2[i][j] == m by {
        if g[r][c] == PlayableCellState::Empty {
            assert(g2 == g.update(r, g[r].update(c, m)));
        }
    };
    lemma_winner_from_none(g, 0);
    if evaluate(g2) == Some(o) {
        lemma_winner_from_some(g2, 0, o);
        let j = choose|j: int| 0 <= j < 8 && line_winner(g2, j) == Some(o);
        let (a, b, cc) = line_coords(j);
        assert(0 <= a.0 < 3 && 0 <= a.1 < 3);
        assert(0 <= b.0 < 3 && 0 <= b.1 < 3);
        assert(0 <= cc.0 < 3 && 0 <= cc.1 < 3);
        assert(line_winner(g, j) == Some(o));
        assert(false);
    }
}

} // verus!
