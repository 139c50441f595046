//! The rules of the game, stated over the grid of cell contents alone: which
//! cells count as taken, what a winning line is, in which order a board is
//! read, and what follows for the game.

use crate::cell::CellTypes;
use crate::cell::Mark;
use crate::point::on_board;
use crate::EDGE;
use vstd::prelude::*;

verus! {

/// The result of looking at a whole board.
#[derive(Clone, Copy, PartialEq, Eq, Structural, Debug)]
pub enum Outcome {
    /// Nobody has won and a cell is still free.
    Undecided,
    /// The mark that completed a line.
    Win(Mark),
    /// Every cell is taken and nobody has won.
    Draw,
}

impl Outcome {
    /// The verdict as a cell content: the winner's, blank for a draw, and
    /// nothing while the game is undecided.
    pub open spec fn spec_victor(self) -> Option<CellTypes> {
        match self {
            Outcome::Undecided => None,
            Outcome::Win(mark) => Some(mark.tag()),
            Outcome::Draw => Some(CellTypes::Blank),
        }
    }

    #[verifier::when_used_as_spec(spec_victor)]
    pub fn victor(self) -> (victor: Option<CellTypes>)
        ensures
            victor == self.spec_victor(),
    {
        match self {
            Outcome::Undecided => None,
            Outcome::Win(mark) => Some(mark.tag()),
            Outcome::Draw => Some(CellTypes::Blank),
        }
    }
}

/// The contents of a board: what each cell holds, by its `(x, y)` pair.
pub type Grid = Map<(int, int), CellTypes>;

/// The grid of a board on which nothing has been placed.
pub open spec fn blank_grid() -> Grid {
    Map::new(|p: (int, int)| on_board(p), |p: (int, int)| CellTypes::Blank)
}

/// Whether `grid` tells what each cell of the board holds, and speaks of
/// no other place. The grid of every board does.
pub open spec fn covers_board(grid: Grid) -> bool {
    forall|p: (int, int)| grid.dom().contains(p) <==> on_board(p)
}

/// The order in which a board is read: by `x`, and by `y` among cells of
/// equal `x`.
pub open spec fn scan_before(p: (int, int), q: (int, int)) -> bool {
    p.0 < q.0 || (p.0 == q.0 && p.1 < q.1)
}

/// The cells that hold a mark.
pub open spec fn taken(grid: Grid) -> Set<(int, int)>
    recommends
        covers_board(grid),
{
    Set::new(|p: (int, int)| on_board(p) && grid[p] != CellTypes::Blank)
}

/// The number of cells that hold a mark.
pub open spec fn occupied(grid: Grid) -> nat
    recommends
        covers_board(grid),
{
    taken(grid).len()
}

/// One of the eight steps from a cell to a neighbour.
pub open spec fn is_direction(d: (int, int)) -> bool {
    -1 <= d.0 <= 1 && -1 <= d.1 <= 1 && d != (0int, 0int)
}

/// The place reached from `p` by `k` steps of `d`.
pub open spec fn offset(p: (int, int), d: (int, int), k: int) -> (int, int) {
    (p.0 + k * d.0, p.1 + k * d.1)
}

/// Whether the place `k` steps of `d` from `p` is a cell that holds what `p`
/// holds.
pub open spec fn continues(grid: Grid, p: (int, int), d: (int, int), k: int) -> bool
    recommends
        covers_board(grid),
{
    on_board(offset(p, d, k)) && grid[offset(p, d, k)] == grid[p]
}

/// Whether `EDGE` cells in a row, from `p` in steps of `d`, all hold what
/// `p` holds.
pub open spec fn line(grid: Grid, p: (int, int), d: (int, int)) -> bool
    recommends
        covers_board(grid),
{
    forall|k: int| 0 <= k < EDGE ==> #[trigger] continues(grid, p, d, k)
}

/// Whether a completed line of one mark starts at the cell `p`.
pub open spec fn wins_at(grid: Grid, p: (int, int)) -> bool
    recommends
        covers_board(grid),
{
    &&& on_board(p)
    &&& grid[p] != CellTypes::Blank
    &&& exists|d: (int, int)| is_direction(d) && #[trigger] line(grid, p, d)
}

/// Whether `p` is the first cell, in reading order, at which a completed
/// line starts.
pub open spec fn first_win(grid: Grid, p: (int, int)) -> bool
    recommends
        covers_board(grid),
{
    &&& wins_at(grid, p)
    &&& forall|q: (int, int)| scan_before(q, p) ==> !#[trigger] wins_at(grid, q)
}

/// The mark of the first completed line in reading order, if any line is
/// complete.
pub open spec fn winner(grid: Grid) -> Option<Mark>
    recommends
        covers_board(grid),
{
    if exists|p: (int, int)| first_win(grid, p) {
        grid[choose|p: (int, int)| first_win(grid, p)].mark()
    } else {
        None
    }
}

/// What the rules say of a board with the contents `grid`.
pub open spec fn outcome_of(grid: Grid) -> Outcome
    recommends
        covers_board(grid),
{
    match winner(grid) {
        Some(mark) => Outcome::Win(mark),
        None => if occupied(grid) == EDGE * EDGE {
            Outcome::Draw
        } else {
            Outcome::Undecided
        },
    }
}

} // verus!
