//! Reading a board: the walk along a line, the search for a completed line,
//! and the verdict.

use crate::board::Board;
use crate::cell::CellTypes;
use crate::cell::Mark;
use crate::laws::lemma_no_winner;
use crate::laws::lemma_winner_at;
use crate::point::coords_in_bounds;
use crate::point::on_board;
use crate::point::Point;
use crate::rules::continues;
use crate::rules::is_direction;
use crate::rules::line;
use crate::rules::offset;
use crate::rules::outcome_of;
use crate::rules::scan_before;
use crate::rules::winner;
use crate::rules::wins_at;
use crate::rules::Outcome;
use crate::EDGE;
use vstd::prelude::*;

verus! {

/// No steps from a place is the place itself, and one step more adds the
/// direction once more.
proof fn lemma_offset_step(p: (int, int), d: (int, int), k: int)
    ensures
        offset(p, d, 0) == p,
        offset(p, d, k + 1) == (offset(p, d, k).0 + d.0, offset(p, d, k).1 + d.1),
{
    assert((k + 1) * d.0 == k * d.0 + d.0) by (nonlinear_arith);
    assert((k + 1) * d.1 == k * d.1 + d.1) by (nonlinear_arith);
}

impl Board {
    /// Whether `EDGE` cells in a row, from `origin` in steps of `direction`,
    /// all hold what `origin` holds. The walk counts the origin as the first
    /// cell and stops at the first place that is off the board or holds
    /// something else.
    pub fn line_from(&self, origin: Point, direction: Point) -> (complete: bool)
        ensures
            complete == line(self@, origin@, direction@),
    {
        proof {
            lemma_offset_step(origin@, direction@, 0);
        }
        if !coords_in_bounds(origin) {
            assert(!continues(self@, origin@, direction@, 0));
            return false;
        }
        let tag = self.cells[origin.y as usize][origin.x as usize].variant;
        let mut cursor = origin;
        let mut count: usize = 1;
        assert(continues(self@, origin@, direction@, 0));
        while count < EDGE
            invariant
                1 <= count <= EDGE,
                on_board(origin@),
                tag == self@[origin@],
                cursor@ == offset(origin@, direction@, count - 1),
                forall|k: int| 0 <= k < count ==> #[trigger] continues(self@, origin@, direction@, k),
            decreases EDGE - count,
        {
            proof {
                lemma_offset_step(origin@, direction@, count - 1);
            }
            match cursor.translate(direction) {
                Ok(next) => {
                    if self.cells[next.y as usize][next.x as usize].variant != tag {
                        assert(!continues(self@, origin@, direction@, count as int));
                        return false;
                    }
                    assert(continues(self@, origin@, direction@, count as int));
                    cursor = next;
                    count += 1;
                },
                Err(_) => {
                    assert(!continues(self@, origin@, direction@, count as int));
                    return false;
                },
            }
        }
        true
    }

    /// Whether a completed line of one mark starts at `origin`, in any of
    /// the eight directions.
    pub fn wins_from(&self, origin: Point) -> (won: bool)
        ensures
            won == wins_at(self@, origin@),
    {
        if !coords_in_bounds(origin) {
            return false;
        }
        if self.cells[origin.y as usize][origin.x as usize].variant == CellTypes::Blank {
            return false;
        }
        let mut dx: isize = -1;
        while dx <= 1
            invariant
                -1 <= dx <= 2,
                on_board(origin@),
                self@[origin@] != CellTypes::Blank,
                forall|d: (int, int)|
                    is_direction(d) && scan_before(d, (dx as int, -1int)) ==> !#[trigger] line(
                        self@,
                        origin@,
                        d,
                    ),
            decreases 2 - dx,
        {
            let mut dy: isize = -1;
            while dy <= 1
                invariant
                    -1 <= dx <= 1,
                    -1 <= dy <= 2,
                    on_board(origin@),
                    self@[origin@] != CellTypes::Blank,
                    forall|d: (int, int)|
                        is_direction(d) && scan_before(d, (dx as int, dy as int)) ==> !#[trigger] line(
                            self@,
                            origin@,
                            d,
                        ),
                decreases 2 - dy,
            {
                if (dx != 0 || dy != 0) && self.line_from(origin, Point::new(dx, dy)) {
                    assert(is_direction((dx as int, dy as int)));
                    return true;
                }
                dy += 1;
            }
            dx += 1;
        }
        false
    }

    /// The mark of the first completed line, reading the board by `x` and
    /// then by `y`, if any line is complete.
    pub fn winner(&self) -> (found: Option<Mark>)
        ensures
            found == winner(self@),
    {
        let mut x: usize = 0;
        while x < EDGE
            invariant
                x <= EDGE,
                forall|q: (int, int)| scan_before(q, (x as int, 0int)) ==> !#[trigger] wins_at(self@, q),
            decreases EDGE - x,
        {
            let mut y: usize = 0;
            while y < EDGE
                invariant
                    x < EDGE,
                    y <= EDGE,
                    forall|q: (int, int)|
                        scan_before(q, (x as int, y as int)) ==> !#[trigger] wins_at(self@, q),
                decreases EDGE - y,
            {
                let origin = Point::new(x as isize, y as isize);
                if self.wins_from(origin) {
                    proof {
                        lemma_winner_at(self@, origin@);
                    }
                    return self.cells[y][x].variant.mark();
                }
                y += 1;
            }
            x += 1;
        }
        proof {
            lemma_no_winner(self@);
        }
        None
    }

    /// The verdict on the board as it stands: a win for the mark of the
    /// first completed line in reading order, a draw if there is none and
    /// every cell is taken, and no decision otherwise.
    pub fn evaluate(&self) -> (verdict: Outcome)
        ensures
            verdict == outcome_of(self@),
    {
        match self.winner() {
            Some(mark) => Outcome::Win(mark),
            None => if self.occupied_count() == EDGE * EDGE {
                Outcome::Draw
            } else {
                Outcome::Undecided
            },
        }
    }

    /// The verdict as a cell content: the winner's, blank for a draw, and
    /// nothing while the game is undecided.
    pub fn verify(&self) -> (victor: Option<CellTypes>)
        ensures
            victor == outcome_of(self@).victor(),
    {
        self.evaluate().victor()
    }
}

} // verus!
