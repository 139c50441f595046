//! The picture of a board in text: one line for each row of cells, and a
//! divider line between two rows.

use crate::board::Board;
use crate::cell::symbol_of;
use crate::rules::Grid;
use crate::EDGE;
use vstd::prelude::*;
use vstd::string::StringExecFns;

verus! {

/// The text of the row of cells at height `y`: the cells' symbols from left
/// to right, with a bar between neighbours.
pub open spec fn row_text(grid: Grid, y: int) -> Seq<char> {
    Seq::new(
        (2 * EDGE - 1) as nat,
        |i: int|
            if i % 2 == 0 {
                symbol_of(grid[(i / 2, y)])
            } else {
                '|'
            },
    )
}

/// The text of the line between two rows: a dash under each cell and a plus
/// under each bar.
pub open spec fn divider_text() -> Seq<char> {
    Seq::new(
        (2 * EDGE - 1) as nat,
        |i: int|
            if i % 2 == 0 {
                '-'
            } else {
                '+'
            },
    )
}

/// The rows of a board in text, from the top.
pub open spec fn rows(grid: Grid) -> Seq<Seq<char>> {
    Seq::new(EDGE as nat, |y: int| row_text(grid, y))
}

/// The whole picture, line by line: the rows from the top, with a divider
/// between each two.
pub open spec fn picture(grid: Grid) -> Seq<Seq<char>> {
    Seq::new(
        (2 * EDGE - 1) as nat,
        |j: int|
            if j % 2 == 0 {
                row_text(grid, j / 2)
            } else {
                divider_text()
            },
    )
}

impl Board {
    /// The text of the row at height `row`, if the board has such a row.
    pub fn render_row(&self, row: usize) -> (text: Option<String>)
        ensures
            text is Some <==> row < EDGE,
            text matches Some(line) ==> line@ == row_text(self@, row as int),
    {
        if row >= EDGE {
            return None;
        }
        let mut line = String::new();
        let mut x: usize = 0;
        while x < EDGE
            invariant
                row < EDGE,
                x <= EDGE,
                line@.len() == if x == 0 { 0 } else { 2 * x - 1 },
                forall|i: int| 0 <= i < line@.len() ==> line@[i] == row_text(self@, row as int)[i],
            decreases EDGE - x,
        {
            if x > 0 {
                proof {
                    reveal_strlit("|");
                }
                line.append("|");
            }
            line.append(self.cells[row][x].symbol());
            x += 1;
        }
        assert(line@ =~= row_text(self@, row as int));
        Some(line)
    }

    /// The text of the line that parts two rows.
    pub fn divider() -> (line: String)
        ensures
            line@ == divider_text(),
    {
        let mut line = String::new();
        let mut x: usize = 0;
        proof {
            reveal_strlit("+");
            reveal_strlit("-");
        }
        while x < EDGE
            invariant
                x <= EDGE,
                "+"@ == seq!['+'],
                "-"@ == seq!['-'],
                line@.len() == if x == 0 { 0 } else { 2 * x - 1 },
                forall|i: int| 0 <= i < line@.len() ==> line@[i] == divider_text()[i],
            decreases EDGE - x,
        {
            if x > 0 {
                line.append("+");
            }
            line.append("-");
            x += 1;
        }
        assert(line@ =~= divider_text());
        line
    }

    /// The rows of the board in text, from the top: one line for each row,
    /// the cells parted by bars.
    pub fn render(&self) -> (lines: Vec<String>)
        ensures
            lines@.len() == EDGE,
            lines.deep_view() == rows(self@),
    {
        let mut lines: Vec<String> = Vec::new();
        let mut y: usize = 0;
        while y < EDGE
            invariant
                y <= EDGE,
                lines@.len() == y,
                forall|j: int| 0 <= j < y ==> lines@[j]@ == row_text(self@, j),
            decreases EDGE - y,
        {
            match self.render_row(y) {
                Some(line) => lines.push(line),
                None => {},
            }
            y += 1;
        }
        assert(lines.deep_view() =~= rows(self@));
        lines
    }

    /// The whole picture of the board, line by line: the rows from the top,
    /// with a divider line between each two.
    pub fn draw(&self) -> (lines: Vec<String>)
        ensures
            lines@.len() == 2 * EDGE - 1,
            lines.deep_view() == picture(self@),
    {
        let mut lines: Vec<String> = Vec::new();
        let mut y: usize = 0;
        while y < EDGE
            invariant
                y <= EDGE,
                lines@.len() == if y == 0 { 0 } else { 2 * y - 1 },
                forall|j: int| 0 <= j < lines@.len() ==> lines@[j]@ == picture(self@)[j],
            decreases EDGE - y,
        {
            if y > 0 {
                lines.push(Board::divider());
            }
            match self.render_row(y) {
                Some(line) => lines.push(line),
                None => {},
            }
            y += 1;
        }
        assert(lines.deep_view() =~= picture(self@));
        lines
    }
}

} // verus!
