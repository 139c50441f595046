//! The board: a square of cells, the placing of marks on it, and the count
//! of the cells that are taken.

use crate::cell::Cell;
use crate::cell::CellTypes;
use crate::cell::Mark;
use crate::laws::lemma_placement_takes_one_cell;
use crate::point::coords_in_bounds;
use crate::point::on_board;
use crate::point::OutOfBoundsError;
use crate::point::Point;
use crate::rules::blank_grid;
use crate::rules::occupied;
use crate::rules::scan_before;
use crate::rules::taken;
use crate::rules::Grid;
use crate::EDGE;
use vstd::prelude::*;

verus! {

/// Why a mark could not be placed.
#[derive(Clone, Copy, PartialEq, Eq, Structural, Debug)]
pub enum PlacementError {
    /// The point is not a cell of the board.
    OutOfBounds,
    /// The cell already holds a mark.
    AlreadyOccupied,
}

impl PlacementError {
    /// The words in which the refusal is told to a player.
    pub fn message(&self) -> (text: &'static str)
        ensures
            text@ == match *self {
                PlacementError::OutOfBounds => "Co-ordinate out of bounds!"@,
                PlacementError::AlreadyOccupied => "Cell is already filled!"@,
            },
    {
        match self {
            PlacementError::OutOfBounds => "Co-ordinate out of bounds!",
            PlacementError::AlreadyOccupied => "Cell is already filled!",
        }
    }
}

/// A square board of `EDGE` by `EDGE` cells. The cell at the point `(x, y)`
/// is `cells[y][x]`.
#[derive(Clone, Copy, Debug)]
pub struct Board {
    pub cells: [[Cell; EDGE]; EDGE],
}

impl View for Board {
    type V = Grid;

    open spec fn view(&self) -> Grid {
        Map::new(|p: (int, int)| on_board(p), |p: (int, int)| self.cells[p.1][p.0].variant)
    }
}

/// The taken cells that come before `limit` in reading order.
spec fn taken_before(grid: Grid, limit: (int, int)) -> Set<(int, int)> {
    Set::new(|p: (int, int)| taken(grid).contains(p) && scan_before(p, limit))
}

impl Board {
    /// A board on which every cell is blank.
    pub fn new() -> (board: Board)
        ensures
            board@ == blank_grid(),
    {
        Board { cells: [[Cell::new(); EDGE]; EDGE] }
    }

    /// The cell at `point`, to be written to, if it is a blank cell of the
    /// board. Whatever the caller leaves in it is then what the board holds
    /// there; no other cell changes.
    pub fn get(&mut self, point: Point) -> (found: Result<&mut Cell, PlacementError>)
        ensures
            match found {
                Ok(cell) => {
                    &&& on_board(point@)
                    &&& old(self)@[point@] == CellTypes::Blank
                    &&& cell.variant == CellTypes::Blank
                    &&& final(self)@ == old(self)@.insert(point@, final(cell).variant)
                },
                Err(PlacementError::OutOfBounds) => {
                    &&& !on_board(point@)
                    &&& *final(self) == *old(self)
                },
                Err(PlacementError::AlreadyOccupied) => {
                    &&& on_board(point@)
                    &&& old(self)@[point@] != CellTypes::Blank
                    &&& *final(self) == *old(self)
                },
            },
    {
        if !coords_in_bounds(point) {
            return Err(PlacementError::OutOfBounds);
        }
        match self.cells[point.y as usize][point.x as usize].variant {
            CellTypes::Blank => Ok(&mut self.cells[point.y as usize][point.x as usize]),
            _ => Err(PlacementError::AlreadyOccupied),
        }
    }

    /// Puts `mark` on the cell at `point`. A point off the board and a cell
    /// that is taken are refused, and the board stays as it was. A mark that
    /// is placed changes that one cell and no other.
    pub fn place(&mut self, point: Point, mark: Mark) -> (placed: Result<(), PlacementError>)
        ensures
            !on_board(point@) ==> placed == Err::<(), PlacementError>(PlacementError::OutOfBounds),
            on_board(point@) && old(self)@[point@] != CellTypes::Blank ==> placed == Err::<
                (),
                PlacementError,
            >(PlacementError::AlreadyOccupied),
            on_board(point@) && old(self)@[point@] == CellTypes::Blank ==> placed is Ok,
            placed is Err ==> *final(self) == *old(self),
            placed is Ok ==> final(self)@ == old(self)@.insert(point@, mark.tag()),
            placed is Ok ==> occupied(final(self)@) == occupied(old(self)@) + 1,
    {
        match self.get(point) {
            Ok(cell) => {
                cell.change(mark.tag());
                proof {
                    lemma_placement_takes_one_cell(old(self)@, point@, mark.tag());
                }
                Ok(())
            },
            Err(error) => Err(error),
        }
    }

    /// The number of cells that hold a mark.
    pub fn occupied_count(&self) -> (count: usize)
        ensures
            count == occupied(self@),
            count <= EDGE * EDGE,
    {
        let mut count: usize = 0;
        let mut x: usize = 0;
        assert(taken_before(self@, (0int, 0int)) =~= Set::empty());
        while x < EDGE
            invariant
                x <= EDGE,
                count <= x * EDGE,
                taken_before(self@, (x as int, 0int)).finite(),
                count == taken_before(self@, (x as int, 0int)).len(),
            decreases EDGE - x,
        {
            let mut y: usize = 0;
            while y < EDGE
                invariant
                    x < EDGE,
                    y <= EDGE,
                    count <= x * EDGE + y,
                    taken_before(self@, (x as int, y as int)).finite(),
                    count == taken_before(self@, (x as int, y as int)).len(),
                decreases EDGE - y,
            {
                let ghost before = taken_before(self@, (x as int, y as int));
                if self.cells[y][x].variant != CellTypes::Blank {
                    count += 1;
                    assert(taken_before(self@, (x as int, y + 1)) =~= before.insert(
                        (x as int, y as int),
                    ));
                } else {
                    assert(taken_before(self@, (x as int, y + 1)) =~= before);
                }
                y += 1;
            }
            assert(taken_before(self@, (x as int, EDGE as int)) =~= taken_before(
                self@,
                (x + 1, 0int),
            ));
            x += 1;
        }
        assert(taken_before(self@, (EDGE as int, 0int)) =~= taken(self@));
        count
    }

    /// What the cell at `point` holds.
    pub fn type_at(&self, point: Point) -> (found: Result<CellTypes, OutOfBoundsError>)
        ensures
            match found {
                Ok(tag) => on_board(point@) && tag == self@[point@],
                Err(_) => !on_board(point@),
            },
    {
        if !coords_in_bounds(point) {
            return Err(OutOfBoundsError);
        }
        Ok(self.cells[point.y as usize][point.x as usize].variant)
    }
}

} // verus!
