//! What holds of the rules on every board.

use crate::board::Board;
use crate::cell::CellTypes;
use crate::cell::Mark;
use crate::point::on_board;
use crate::rules::blank_grid;
use crate::rules::continues;
use crate::rules::covers_board;
use crate::rules::first_win;
use crate::rules::is_direction;
use crate::rules::line;
use crate::rules::occupied;
use crate::rules::offset;
use crate::rules::outcome_of;
use crate::rules::scan_before;
use crate::rules::taken;
use crate::rules::winner;
use crate::rules::wins_at;
use crate::rules::Grid;
use crate::rules::Outcome;
use crate::EDGE;
use vstd::prelude::*;
use vstd::set_lib::lemma_int_range;
use vstd::set_lib::lemma_len_subset;
use vstd::set_lib::lemma_subset_equality;
use vstd::set_lib::set_int_range;

verus! {

/// The cells of the board, as a set.
pub open spec fn board_cells() -> Set<(int, int)> {
    Set::new(|p: (int, int)| on_board(p))
}

/// The board has `EDGE * EDGE` cells.
pub proof fn lemma_board_cells()
    ensures
        board_cells().finite(),
        board_cells().len() == EDGE * EDGE,
{
    let indices = set_int_range(0, EDGE * EDGE);
    let cell_of = |i: int| (i / EDGE as int, i % EDGE as int);
    let index_of = |p: (int, int)| p.0 * EDGE + p.1;
    lemma_int_range(0, EDGE * EDGE);
    assert forall|p: (int, int)| board_cells().contains(p) implies indices.contains(index_of(p))
        && cell_of(index_of(p)) == p by {}
    assert forall|i: int| indices.contains(i) implies board_cells().contains(cell_of(i))
        && index_of(cell_of(i)) == i by {}
    assert(indices.map(cell_of) =~= board_cells()) by {
        assert forall|p: (int, int)| board_cells().contains(p) implies indices.map(cell_of).contains(
            p,
        ) by {
            assert(indices.contains(index_of(p)) && cell_of(index_of(p)) == p);
        }
    }
    indices.lemma_map_finite(cell_of);
    vstd::set_lib::lemma_map_size(indices, board_cells(), cell_of);
}

/// The taken cells of any grid are finitely many, and no more than the
/// board has cells.
pub proof fn lemma_taken_finite(grid: Grid)
    requires
        covers_board(grid),
    ensures
        taken(grid).finite(),
        occupied(grid) <= EDGE * EDGE,
{
    lemma_board_cells();
    assert(taken(grid).subset_of(board_cells()));
    lemma_len_subset(taken(grid), board_cells());
}

/// A mark placed on a blank cell makes one more taken cell.
pub proof fn lemma_placement_takes_one_cell(grid: Grid, p: (int, int), tag: CellTypes)
    requires
        covers_board(grid),
        on_board(p),
        grid[p] == CellTypes::Blank,
        tag != CellTypes::Blank,
    ensures
        occupied(grid.insert(p, tag)) == occupied(grid) + 1,
{
    lemma_taken_finite(grid);
    assert(taken(grid.insert(p, tag)) =~= taken(grid).insert(p));
}

/// Two cells at which the first completed line starts are one cell.
pub proof fn lemma_first_win_unique(grid: Grid, p: (int, int), q: (int, int))
    requires
        covers_board(grid),
        first_win(grid, p),
        first_win(grid, q),
    ensures
        p == q,
{
    if p != q {
        assert(scan_before(p, q) || scan_before(q, p));
    }
}

/// Where the first completed line starts at `p`, the winner is the mark in
/// that cell.
pub proof fn lemma_winner_at(grid: Grid, p: (int, int))
    requires
        covers_board(grid),
        first_win(grid, p),
    ensures
        winner(grid) == grid[p].mark(),
        winner(grid) is Some,
{
    let q = choose|q: (int, int)| first_win(grid, q);
    lemma_first_win_unique(grid, p, q);
}

/// Where no completed line starts at any cell, nobody has won.
pub proof fn lemma_no_winner(grid: Grid)
    requires
        covers_board(grid),
        forall|p: (int, int)| on_board(p) ==> !wins_at(grid, p),
    ensures
        winner(grid) is None,
{
}

/// Every cell is taken exactly when no cell is blank.
pub proof fn lemma_full_board(grid: Grid)
    requires
        covers_board(grid),
    ensures
        occupied(grid) == EDGE * EDGE <==> forall|p: (int, int)|
            on_board(p) ==> grid[p] != CellTypes::Blank,
{
    lemma_board_cells();
    lemma_taken_finite(grid);
    if occupied(grid) == EDGE * EDGE {
        lemma_subset_equality(taken(grid), board_cells());
        assert forall|p: (int, int)| on_board(p) implies grid[p] != CellTypes::Blank by {
            assert(board_cells().contains(p));
            assert(taken(grid).contains(p));
        }
    }
    if forall|p: (int, int)| on_board(p) ==> grid[p] != CellTypes::Blank {
        assert(taken(grid) =~= board_cells());
    }
}

/// Where a completed line starts at some cell, there is a first such cell
/// in reading order.
pub proof fn lemma_first_win_exists(grid: Grid, p: (int, int))
    requires
        covers_board(grid),
        wins_at(grid, p),
    ensures
        exists|q: (int, int)| first_win(grid, q),
    decreases p.0 * EDGE + p.1,
{
    if forall|q: (int, int)| scan_before(q, p) ==> !wins_at(grid, q) {
        assert(first_win(grid, p));
    } else {
        let q = choose|q: (int, int)| scan_before(q, p) && wins_at(grid, q);
        lemma_first_win_exists(grid, q);
    }
}

/// The three outcomes, case by case: a board is won exactly when a completed
/// line starts at some cell, and then by the mark in the first such cell in
/// reading order; it is drawn exactly when there is no such line and every
/// cell is taken; it is undecided exactly when there is no such line and a
/// cell is blank.
pub proof fn lemma_outcome_cases(grid: Grid)
    requires
        covers_board(grid),
    ensures
        outcome_of(grid) is Win <==> exists|p: (int, int)| wins_at(grid, p),
        forall|p: (int, int)| #[trigger]
            first_win(grid, p) ==> grid[p].mark() == Some(outcome_of(grid)->Win_0),
        outcome_of(grid) == Outcome::Draw <==> !(exists|p: (int, int)| wins_at(grid, p))
            && occupied(grid) == EDGE * EDGE,
        outcome_of(grid) == Outcome::Undecided <==> !(exists|p: (int, int)| wins_at(grid, p))
            && occupied(grid) < EDGE * EDGE,
{
    lemma_taken_finite(grid);
    if exists|p: (int, int)| wins_at(grid, p) {
        let p = choose|p: (int, int)| wins_at(grid, p);
        lemma_first_win_exists(grid, p);
        let q = choose|q: (int, int)| first_win(grid, q);
        lemma_winner_at(grid, q);
    } else {
        lemma_no_winner(grid);
    }
    assert forall|p: (int, int)| #[trigger] first_win(grid, p) implies grid[p].mark() == Some(
        outcome_of(grid)->Win_0,
    ) by {
        lemma_winner_at(grid, p);
    }
}

/// A completed line wins for its mark, wherever on the board it lies and
/// whatever else has been placed, so long as the other mark has completed
/// no line.
pub proof fn lemma_sole_line_wins(grid: Grid, p: (int, int), d: (int, int), mark: Mark)
    requires
        covers_board(grid),
        on_board(p),
        is_direction(d),
        line(grid, p, d),
        grid[p] == mark.tag(),
        forall|q: (int, int)| wins_at(grid, q) ==> grid[q] == mark.tag(),
    ensures
        outcome_of(grid) == Outcome::Win(mark),
{
    assert(wins_at(grid, p));
    lemma_first_win_exists(grid, p);
    let q = choose|q: (int, int)| first_win(grid, q);
    lemma_winner_at(grid, q);
}

/// A completed line starts at both of its ends: read backwards from its
/// last cell, it is a completed line too.
pub proof fn lemma_line_read_backwards(grid: Grid, p: (int, int), d: (int, int))
    requires
        covers_board(grid),
        line(grid, p, d),
    ensures
        line(grid, offset(p, d, EDGE - 1), (-d.0, -d.1)),
        grid[offset(p, d, EDGE - 1)] == grid[p],
{
    let end = offset(p, d, EDGE - 1);
    let back = (-d.0, -d.1);
    assert(continues(grid, p, d, EDGE - 1));
    assert forall|k: int| 0 <= k < EDGE implies #[trigger] continues(grid, end, back, k) by {
        assert((EDGE - 1) * d.0 + k * (-d.0) == (EDGE - 1 - k) * d.0) by (nonlinear_arith);
        assert((EDGE - 1) * d.1 + k * (-d.1) == (EDGE - 1 - k) * d.1) by (nonlinear_arith);
        assert(offset(end, back, k) == offset(p, d, EDGE - 1 - k));
        assert(continues(grid, p, d, EDGE - 1 - k));
    }
}

/// The order in which a board is read when `y` is taken before `x`.
pub open spec fn scan_before_across(p: (int, int), q: (int, int)) -> bool {
    p.1 < q.1 || (p.1 == q.1 && p.0 < q.0)
}

/// On the board of three by three cells, whether it is read by `x` and then
/// by `y`, or by `y` and then by `x`, the first completed line that is found
/// is of the same mark.
pub proof fn lemma_reading_order_is_immaterial(grid: Grid, p: (int, int), q: (int, int))
    requires
        covers_board(grid),
        first_win(grid, p),
        wins_at(grid, q),
        forall|r: (int, int)| scan_before_across(r, q) ==> !#[trigger] wins_at(grid, r),
    ensures
        grid[p] == grid[q],
{
    let d = choose|d: (int, int)| is_direction(d) && line(grid, p, d);
    let e = choose|e: (int, int)| is_direction(e) && line(grid, q, e);
    let p_end = offset(p, d, EDGE - 1);
    let q_end = offset(q, e, EDGE - 1);
    lemma_line_read_backwards(grid, p, d);
    lemma_line_read_backwards(grid, q, e);
    assert(is_direction((-d.0, -d.1)));
    assert(is_direction((-e.0, -e.1)));
    assert(continues(grid, p, d, EDGE - 1));
    assert(continues(grid, q, e, EDGE - 1));
    assert(wins_at(grid, p_end));
    assert(wins_at(grid, q_end));
    if grid[p] != grid[q] {
        assert forall|j: int, k: int| 0 <= j < EDGE && 0 <= k < EDGE implies offset(p, d, j)
            != offset(q, e, k) by {
            assert(continues(grid, p, d, j));
            assert(continues(grid, q, e, k));
        }
        assert forall|j: int, k: int| 0 <= j < 3 && 0 <= k < 3 implies #[trigger] apart(
            p.0 + j * d.0,
            p.1 + j * d.1,
            q.0 + k * e.0,
            q.1 + k * e.1,
        ) by {
            assert(offset(p, d, j) != offset(q, e, k));
        }
        lemma_lines_apart(p.0, p.1, d.0, d.1, q.0, q.1, e.0, e.1);
    }
}

/// Of two lines across the whole board that share no cell, which are two
/// rows or two columns, one comes first in both reading orders: either the
/// second has an end before the start of the first when `x` is taken first,
/// or the first has an end before the start of the second when `y` is.
proof fn lemma_lines_apart(px: int, py: int, dx: int, dy: int, qx: int, qy: int, ex: int, ey: int)
    requires
        EDGE == 3,
        is_direction((dx, dy)),
        is_direction((ex, ey)),
        on_board((px, py)),
        on_board((px + 2 * dx, py + 2 * dy)),
        on_board((qx, qy)),
        on_board((qx + 2 * ex, qy + 2 * ey)),
        forall|j: int, k: int|
            0 <= j < 3 && 0 <= k < 3 ==> #[trigger] apart(
                px + j * dx,
                py + j * dy,
                qx + k * ex,
                qy + k * ey,
            ),
    ensures
        scan_before((qx, qy), (px, py)) || scan_before((qx + 2 * ex, qy + 2 * ey), (px, py))
            || scan_before_across((px, py), (qx, qy)) || scan_before_across(
            (px + 2 * dx, py + 2 * dy),
            (qx, qy),
        ),
{
    assert(apart(px + 0 * dx, py + 0 * dy, qx + 0 * ex, qy + 0 * ey));
    assert(apart(px + 0 * dx, py + 0 * dy, qx + 1 * ex, qy + 1 * ey));
    assert(apart(px + 0 * dx, py + 0 * dy, qx + 2 * ex, qy + 2 * ey));
    assert(apart(px + 1 * dx, py + 1 * dy, qx + 0 * ex, qy + 0 * ey));
    assert(apart(px + 1 * dx, py + 1 * dy, qx + 1 * ex, qy + 1 * ey));
    assert(apart(px + 1 * dx, py + 1 * dy, qx + 2 * ex, qy + 2 * ey));
    assert(apart(px + 2 * dx, py + 2 * dy, qx + 0 * ex, qy + 0 * ey));
    assert(apart(px + 2 * dx, py + 2 * dy, qx + 1 * ex, qy + 1 * ey));
    assert(apart(px + 2 * dx, py + 2 * dy, qx + 2 * ex, qy + 2 * ey));
}

/// Whether two places differ.
spec fn apart(ax: int, ay: int, bx: int, by: int) -> bool {
    ax != bx || ay != by
}

/// The turn goes back and forth: the other mark is never the same mark, and
/// the other of the other is the mark itself.
pub proof fn lemma_turns_alternate(mark: Mark)
    ensures
        mark.other() != mark,
        mark.other().other() == mark,
{
}

/// A board on which nothing has been placed is undecided, and none of its
/// cells is taken.
pub proof fn lemma_blank_board_undecided()
    ensures
        occupied(blank_grid()) == 0,
        outcome_of(blank_grid()) == Outcome::Undecided,
{
    assert(taken(blank_grid()) =~= Set::empty());
    lemma_no_winner(blank_grid());
}

/// Reading a board twice, with nothing placed in between, gives the same
/// outcome, which rests on what the cells hold and on nothing else.
pub proof fn lemma_evaluate_idempotent(first: Board, second: Board)
    requires
        forall|p: (int, int)| on_board(p) ==> first@[p] == second@[p],
    ensures
        outcome_of(first@) == outcome_of(second@),
{
    assert(first@ =~= second@);
}

/// The grid of a board tells what each of its cells holds, and speaks of no
/// other place.
pub proof fn lemma_board_covers(board: Board)
    ensures
        covers_board(board@),
{
}

/// A board is what its cells hold: two boards with the same contents are
/// the same board.
pub proof fn lemma_board_is_its_grid(first: Board, second: Board)
    requires
        first@ == second@,
    ensures
        first == second,
{
    assert forall|y: int| 0 <= y < EDGE implies first.cells[y] == second.cells[y] by {
        assert forall|x: int| 0 <= x < EDGE implies first.cells[y][x] == second.cells[y][x] by {
            assert(on_board((x, y)));
            assert(first@[(x, y)] == first.cells[y][x].variant);
            assert(second@[(x, y)] == second.cells[y][x].variant);
        }
        assert(first.cells[y] =~= second.cells[y]);
    }
    assert(first.cells =~= second.cells);
}

} // verus!
