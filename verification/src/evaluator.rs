//! The win/draw evaluator: a pure function of a board snapshot that reports
//! the winner of the first satisfied line in a fixed enumeration order, a
//! draw on a full board, or nothing while the game continues.

use vstd::prelude::*;

use crate::board::GameField;
use crate::board::Grid;
use crate::board::PlayableCellState;
use crate::board::empty_grid;

verus! {

/// The three coordinates of winning line `k`, for `0 <= k < 8`: the three
/// rows top to bottom, then the three columns left to right, then the
/// diagonal from (0,0) and the diagonal from (0,2).
pub open spec fn line_coords(k: int) -> ((int, int), (int, int), (int, int)) {
    if k == 0 {
        (((0, 0)), ((0, 1)), ((0, 2)))
    } else if k == 1 {
        (((1, 0)), ((1, 1)), ((1, 2)))
    } else if k == 2 {
        (((2, 0)), ((2, 1)), ((2, 2)))
    } else if k == 3 {
        (((0, 0)), ((1, 0)), ((2, 0)))
    } else if k == 4 {
        (((0, 1)), ((1, 1)), ((2, 1)))
    } else if k == 5 {
        (((0, 2)), ((1, 2)), ((2, 2)))
    } else if k == 6 {
        (((0, 0)), ((1, 1)), ((2, 2)))
    } else {
        (((0, 2)), ((1, 1)), ((2, 0)))
    }
}

/// The winner of line `k` alone: the shared mark when all three of its cells
/// hold the same non-empty mark, and nothing otherwise.
pub open spec fn line_winner(g: Grid, k: int) -> Option<PlayableCellState> {
    let (a, b, c) = line_coords(k);
    let ma = g[a.0][a.1];
    let mb = g[b.0][b.1];
    let mc = g[c.0][c.1];
    if ma != PlayableCellState::Empty && ma == mb && mb == mc {
        Some(ma)
    } else {
        None
    }
}

/// No line of the board is won by anyone.
pub open spec fn no_winning_line(g: Grid) -> bool {
    forall|k: int| 0 <= k < 8 ==> (#[trigger] line_winner(g, k)) is None
}

/// Every one of the nine cells holds a mark.
pub open spec fn grid_full(g: Grid) -> bool {
    forall|r: int, c: int| 0 <= r < 3 && 0 <= c < 3 ==> g[r][c] != PlayableCellState::Empty
}

/// The winner of the first satisfied line at index `k` or later, in
/// enumeration order.
pub open spec fn winner_from(g: Grid, k: int) -> Option<PlayableCellState>
    decreases 8 - k,
{
    if k < 0 || k >= 8 {
        None
    } else if line_winner(g, k) is Some {
        line_winner(g, k)
    } else {
        winner_from(g, k + 1)
    }
}

/// What the evaluator reports of a board: the mark owning the earliest
/// winning line; `Some(Empty)` for a draw on a full board without a winner;
/// `None` while the game continues.
pub open spec fn evaluate(g: Grid) -> Option<PlayableCellState> {
    if winner_from(g, 0) is Some {
        winner_from(g, 0)
    } else if grid_full(g) {
        Some(PlayableCellState::Empty)
    } else {
        None
    }
}

/// There is no winner at index `k` or later exactly when no line from `k` on
/// is satisfied.
pub proof fn lemma_winner_from_none(g: Grid, k: int)
    requires
        0 <= k,
    ensures
        winner_from(g, k) is None <==> (forall|j: int|
            k <= j < 8 ==> (#[trigger] line_winner(g, j)) is None),
    decreases 8 - k,
{
    if 0 <= k < 8 {
        lemma_winner_from_none(g, k + 1);
    }
}

/// A winner reported from index `k` on always owns some line at `k` or later,
/// and is never the empty mark.
pub proof fn lemma_winner_from_some(g: Grid, k: int, m: PlayableCellState)
    requires
        winner_from(g, k) == Some(m),
    ensures
        exists|j: int| k <= j < 8 && line_winner(g, j) == Some(m),
        m != PlayableCellState::Empty,
    decreases 8 - k,
{
    if line_winner(g, k) is Some {
        assert(line_winner(g, k) == Some(m));
    } else {
        lemma_winner_from_some(g, k + 1, m);
    }
}

/// When every line strictly before `j` is unsatisfied, the first winner from
/// `k` on is the winner of line `j`.
pub proof fn lemma_winner_from_first(g: Grid, k: int, j: int)
    requires
        0 <= k <= j < 8,
        line_winner(g, j) is Some,
        forall|i: int| k <= i < j ==> (#[trigger] line_winner(g, i)) is None,
    ensures
        winner_from(g, k) == line_winner(g, j),
    decreases j - k,
{
    if k < j {
        lemma_winner_from_first(g, k + 1, j);
    }
}

/// On the board of a freshly started match the evaluator reports nothing:
/// no line is satisfied and every cell is still empty.
pub proof fn lemma_evaluate_empty()
    ensures
        evaluate(empty_grid()) is None,
{
    let g = empty_grid();
    assert forall|k: int| 0 <= k < 8 implies (#[trigger] line_winner(g, k)) is None by {
        let (a, b, c) = line_coords(k);
        assert(g[a.0][a.1] == PlayableCellState::Empty);
    };
    lemma_winner_from_none(g, 0);
    assert(g[0][0] == PlayableCellState::Empty);
    assert(!grid_full(g));
}

/// Checks whether every cell of the board is occupied, which together with
/// the absence of a winning line makes the match a draw.
pub fn is_draw(game_field: &GameField) -> (full: bool)
    ensures
        full == grid_full(game_field@),
{
    let mut row: usize = 0;
    while row < 3
        invariant
            row <= 3,
            forall|r: int, c: int|
                0 <= r < row && 0 <= c < 3 ==> game_field@[r][c] != PlayableCellState::Empty,
        decreases 3 - row,
    {
        let mut col: usize = 0;
        while col < 3
            invariant
                row < 3,
                col <= 3,
                forall|c: int|
                    0 <= c < col ==> game_field@[row as int][c] != PlayableCellState::Empty,
            decreases 3 - col,
        {
            match game_field.get(row, col) {
                PlayableCellState::Empty => {
                    return false;
                },
                _ => {},
            }
            col += 1;
        }
        row += 1;
    }
    true
}

/// The three cell coordinates of winning line `k`, as machine integers.
fn line_points(k: usize) -> (t: ((usize, usize), (usize, usize), (usize, usize)))
    requires
        k < 8,
    ensures
        t.0.0 < 3 && t.0.1 < 3 && t.1.0 < 3 && t.1.1 < 3 && t.2.0 < 3 && t.2.1 < 3,
        line_coords(k as int) == (((t.0.0 as int, t.0.1 as int), (t.1.0 as int, t.1.1 as int), (
            t.2.0 as int,
            t.2.1 as int,
        ))),
{
    match k {
        0 => (((0, 0)), ((0, 1)), ((0, 2))),
        1 => (((1, 0)), ((1, 1)), ((1, 2))),
        2 => (((2, 0)), ((2, 1)), ((2, 2))),
        3 => (((0, 0)), ((1, 0)), ((2, 0))),
        4 => (((0, 1)), ((1, 1)), ((2, 1))),
        5 => (((0, 2)), ((1, 2)), ((2, 2))),
        6 => (((0, 0)), ((1, 1)), ((2, 2))),
        _ => (((0, 2)), ((1, 1)), ((2, 0))),
    }
}

/// The winner of the single line `k`, if all three of its cells agree on a
/// non-empty mark.
fn check_line(game_field: &GameField, k: usize) -> (w: Option<PlayableCellState>)
    requires
        k < 8,
    ensures
        w == line_winner(game_field@, k as int),
{
    let (a, b, c) = line_points(k);
    let ma = game_field.get(a.0, a.1);
    let mb = game_field.get(b.0, b.1);
    let mc = game_field.get(c.0, c.1);
    match ma {
        PlayableCellState::Empty => None,
        _ => {
            if ma == mb && mb == mc {
                Some(ma)
            } else {
                None
            }
        },
    }
}

/// Walks the eight winning lines in enumeration order and reports the owner
/// of the first satisfied one; on a full board without a winner it reports a
/// draw as `Some(Empty)`, and otherwise nothing.
pub fn check_winner(game_field: &GameField) -> (w: Option<PlayableCellState>)
    ensures
        w == evaluate(game_field@),
{
    let ghost g: Grid = game_field@;
    let mut k: usize = 0;
    while k < 8
        invariant
            k <= 8,
            g == game_field@,
            winner_from(g, 0) == winner_from(g, k as int),
        decreases 8 - k,
    {
        match check_line(game_field, k) {
            Some(m) => {
                return Some(m);
            },
            None => {},
        }
        k += 1;
    }
    if is_draw(game_field) {
        return Some(PlayableCellState::Empty);
    }
    None
}

} // verus!
