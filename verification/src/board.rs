//! The 3x3 board: cell marks, the grid of one match, and the single
//! "place a mark" operation.

use vstd::prelude::*;

verus! {

/// The content of a single board cell: a cross, a nought, or nothing yet.
#[derive(Debug, Clone, Copy, PartialEq, Eq, Structural)]
pub enum PlayableCellState {
    X,
    Zero,
    Empty,
}

/// One cell of the playing field together with its coordinates, as the
/// presentation layer tracks it for hit-testing and rendering.
#[derive(Debug, Clone, Copy)]
pub struct PlayableCell {
    pub state: PlayableCellState,
    pub x_index: i32,
    pub y_index: i32,
}

/// The mathematical model of a board: three rows of three marks each.
pub type Grid = Seq<Seq<PlayableCellState>>;

/// A grid has exactly three rows of exactly three cells.
pub open spec fn grid_wf(g: Grid) -> bool {
    &&& g.len() == 3
    &&& forall|r: int| 0 <= r < 3 ==> (#[trigger] g[r]).len() == 3
}

/// The grid of a freshly started match: all nine cells empty.
pub open spec fn empty_grid() -> Grid {
    Seq::new(3, |r: int| Seq::new(3, |c: int| PlayableCellState::Empty))
}

/// The one board mutation: if the target cell is empty it takes the mark,
/// otherwise the grid is unchanged.
pub open spec fn place_at(g: Grid, r: int, c: int, m: PlayableCellState) -> Grid {
    if g[r][c] == PlayableCellState::Empty {
        g.update(r, g[r].update(c, m))
    } else {
        g
    }
}

/// The 3x3 grid of cell marks for one match.
#[derive(Debug, Clone, Copy)]
pub struct GameField {
    pub field: [[PlayableCellState; 3]; 3],
}

impl View for GameField {
    type V = Grid;

    open spec fn view(&self) -> Grid {
        Seq::new(3, |r: int| Seq::new(3, |c: int| self.field[r][c]))
    }
}

impl GameField {
    /// A board with all nine cells empty.
    pub fn default() -> (gf: Self)
        ensures
            gf@ == empty_grid(),
    {
        let gf = Self {
            field: [
                [PlayableCellState::Empty, PlayableCellState::Empty, PlayableCellState::Empty],
                [PlayableCellState::Empty, PlayableCellState::Empty, PlayableCellState::Empty],
                [PlayableCellState::Empty, PlayableCellState::Empty, PlayableCellState::Empty],
            ],
        };
        proof {
            assert(gf@ =~~= empty_grid());
        }
        gf
    }

    /// Marks the cell at (x, y) if it is still empty; an occupied cell is
    /// left exactly as it was and no error is raised.
    pub fn put_on_field(&mut self, x: usize, y: usize, state: PlayableCellState)
        requires
            x < 3,
            y < 3,
            state != PlayableCellState::Empty,
        ensures
            final(self)@ == place_at(old(self)@, x as int, y as int, state),
    {
        let current_state = self.field[x][y];
        if current_state == PlayableCellState::Empty {
            self.field[x][y] = state;
            proof {
                assert(self@ =~~= place_at(old(self)@, x as int, y as int, state));
            }
        }
    }

    /// The current mark at (row, col).
    pub fn get(&self, row: usize, col: usize) -> (m: PlayableCellState)
        requires
            row < 3,
            col < 3,
        ensures
            m == self@[row as int][col as int],
    {
        self.field[row][col]
    }
}

/// Every board view is a well-formed three-by-three grid.
pub proof fn lemma_view_wf(gf: GameField)
    ensures
        grid_wf(gf@),
{
}

} // verus!
