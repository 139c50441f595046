use tictactoe::board::Board;
use tictactoe::cell::CellTypes;
use tictactoe::cell::Mark;
use tictactoe::point::Point;
use tictactoe::rules::Outcome;

const A: Mark = Mark::Cross;
const B: Mark = Mark::Nought;

fn board_of(moves: &[(isize, isize, Mark)]) -> Board {
    let mut board = Board::new();
    for &(x, y, mark) in moves {
        board.place(Point::new(x, y), mark).unwrap();
    }
    board
}

#[test]
fn empty_board_is_undecided() {
    let board = Board::new();
    assert_eq!(board.evaluate(), Outcome::Undecided);
    assert_eq!(board.verify(), None);
    assert_eq!(board.winner(), None);
}

#[test]
fn three_in_a_row_win_at_the_third_placement() {
    let mut board = Board::new();
    board.place(Point::new(0, 0), A).unwrap();
    assert_eq!(board.evaluate(), Outcome::Undecided);
    board.place(Point::new(1, 0), B).unwrap();
    assert_eq!(board.evaluate(), Outcome::Undecided);
    board.place(Point::new(0, 1), A).unwrap();
    assert_eq!(board.evaluate(), Outcome::Undecided);
    board.place(Point::new(1, 1), B).unwrap();
    assert_eq!(board.evaluate(), Outcome::Undecided);
    board.place(Point::new(0, 2), A).unwrap();
    assert_eq!(board.evaluate(), Outcome::Win(A));
}

#[test]
fn three_on_the_diagonal_win() {
    let mut board = Board::new();
    board.place(Point::new(0, 0), A).unwrap();
    board.place(Point::new(0, 1), B).unwrap();
    board.place(Point::new(1, 1), A).unwrap();
    board.place(Point::new(0, 2), B).unwrap();
    assert_eq!(board.evaluate(), Outcome::Undecided);
    board.place(Point::new(2, 2), A).unwrap();
    assert_eq!(board.evaluate(), Outcome::Win(A));
    assert_eq!(board.verify(), Some(CellTypes::Cross));
}

#[test]
fn three_on_the_diagonal_win_whatever_else_was_played() {
    let board = board_of(&[(0, 0, A), (2, 0, B), (1, 1, A), (1, 0, B), (2, 2, A)]);
    assert_eq!(board.evaluate(), Outcome::Win(A));
}

#[test]
fn a_full_board_without_a_line_is_a_draw() {
    // X O X
    // X O O
    // O X X
    let board = board_of(&[
        (0, 0, A), (1, 0, B), (2, 0, A),
        (0, 1, A), (1, 1, B), (2, 1, B),
        (0, 2, B), (1, 2, A), (2, 2, A),
    ]);
    assert_eq!(board.occupied_count(), 9);
    assert_eq!(board.winner(), None);
    assert_eq!(board.evaluate(), Outcome::Draw);
    assert_eq!(board.verify(), Some(CellTypes::Blank));
}

#[test]
fn two_marks_decide_nothing() {
    let board = board_of(&[(0, 0, A), (1, 1, B)]);
    assert_eq!(board.evaluate(), Outcome::Undecided);
    assert_eq!(board.verify(), None);
    assert!(board.occupied_count() < 9);
    assert_eq!(board.occupied_count(), 2);
}

#[test]
fn evaluate_twice_gives_the_same_outcome() {
    let boards = [
        Board::new(),
        board_of(&[(0, 0, A), (1, 1, B)]),
        board_of(&[(0, 0, A), (1, 0, B), (0, 1, A), (1, 1, B), (0, 2, A)]),
        board_of(&[
            (0, 0, A), (1, 0, B), (2, 0, A),
            (0, 1, A), (1, 1, B), (2, 1, B),
            (0, 2, B), (1, 2, A), (2, 2, A),
        ]),
    ];
    for board in boards.iter() {
        let first = board.evaluate();
        let second = board.evaluate();
        assert_eq!(first, second);
        assert_eq!(board.verify(), first.victor());
    }
}

#[test]
fn every_line_of_three_wins_for_either_mark() {
    let lines: [[(isize, isize); 3]; 8] = [
        [(0, 0), (1, 0), (2, 0)],
        [(0, 1), (1, 1), (2, 1)],
        [(0, 2), (1, 2), (2, 2)],
        [(0, 0), (0, 1), (0, 2)],
        [(1, 0), (1, 1), (1, 2)],
        [(2, 0), (2, 1), (2, 2)],
        [(0, 0), (1, 1), (2, 2)],
        [(2, 0), (1, 1), (0, 2)],
    ];
    for line in lines.iter() {
        for mark in [A, B] {
            let mut board = Board::new();
            for &(x, y) in line.iter() {
                assert_eq!(board.evaluate(), Outcome::Undecided);
                board.place(Point::new(x, y), mark).unwrap();
            }
            assert_eq!(board.evaluate(), Outcome::Win(mark));
            assert_eq!(board.winner(), Some(mark));
            assert_eq!(board.verify(), Some(mark.tag()));
        }
    }
}

#[test]
fn a_line_that_the_other_mark_breaks_does_not_win() {
    let board = board_of(&[(0, 0, A), (1, 0, B), (2, 0, A)]);
    assert_eq!(board.evaluate(), Outcome::Undecided);
    let board = board_of(&[(0, 0, A), (1, 1, A), (2, 2, B)]);
    assert_eq!(board.evaluate(), Outcome::Undecided);
    let board = board_of(&[(0, 1, A), (2, 1, A)]);
    assert_eq!(board.evaluate(), Outcome::Undecided);
}

#[test]
fn a_full_board_with_a_line_is_a_win_and_no_draw() {
    // X X X
    // O O X
    // X O O
    let board = board_of(&[
        (0, 0, A), (1, 0, A), (2, 0, A),
        (0, 1, B), (1, 1, B), (2, 1, A),
        (0, 2, A), (1, 2, B), (2, 2, B),
    ]);
    assert_eq!(board.occupied_count(), 9);
    assert_eq!(board.evaluate(), Outcome::Win(A));
}

#[test]
fn of_two_lines_the_one_read_first_wins() {
    let board = board_of(&[(0, 0, B), (0, 1, B), (0, 2, B), (1, 0, A), (1, 1, A), (1, 2, A)]);
    assert_eq!(board.evaluate(), Outcome::Win(B));
    let board = board_of(&[(2, 0, B), (2, 1, B), (2, 2, B), (1, 0, A), (1, 1, A), (1, 2, A)]);
    assert_eq!(board.evaluate(), Outcome::Win(A));
    let board = board_of(&[(0, 1, A), (1, 1, A), (2, 1, A), (0, 2, B), (1, 2, B), (2, 2, B)]);
    assert_eq!(board.evaluate(), Outcome::Win(A));
    let board = board_of(&[(0, 0, B), (1, 0, B), (2, 0, B), (0, 2, A), (1, 2, A), (2, 2, A)]);
    assert_eq!(board.evaluate(), Outcome::Win(B));
}

#[test]
fn the_order_of_placement_does_not_matter() {
    let first = board_of(&[(2, 0, B), (2, 1, B), (2, 2, B), (1, 0, A), (1, 1, A), (1, 2, A)]);
    let second = board_of(&[(1, 2, A), (2, 2, B), (1, 1, A), (2, 1, B), (1, 0, A), (2, 0, B)]);
    assert_eq!(first.evaluate(), second.evaluate());
}

#[test]
fn line_from_walks_in_the_given_direction() {
    let board = board_of(&[(0, 0, A), (1, 1, A), (2, 2, A), (1, 0, B)]);
    assert!(board.line_from(Point::new(0, 0), Point::new(1, 1)));
    assert!(board.line_from(Point::new(2, 2), Point::new(-1, -1)));
    assert!(!board.line_from(Point::new(1, 1), Point::new(1, 1)));
    assert!(!board.line_from(Point::new(0, 0), Point::new(1, 0)));
    assert!(!board.line_from(Point::new(0, 0), Point::new(0, 1)));
    assert!(!board.line_from(Point::new(0, 0), Point::new(-1, -1)));
}

#[test]
fn line_from_a_point_off_the_board_is_no_line() {
    let board = board_of(&[(0, 0, A), (1, 1, A), (2, 2, A)]);
    assert!(!board.line_from(Point::new(-1, -1), Point::new(1, 1)));
    assert!(!board.line_from(Point::new(3, 3), Point::new(-1, -1)));
    assert!(!board.line_from(Point::new(0, 0), Point::new(isize::MAX, isize::MAX)));
}

#[test]
fn line_from_counts_blank_cells_too() {
    let board = board_of(&[(0, 0, A)]);
    assert!(board.line_from(Point::new(0, 1), Point::new(1, 0)));
    assert!(!board.line_from(Point::new(0, 0), Point::new(1, 0)));
}

#[test]
fn line_from_with_no_step_stays_on_its_cell() {
    let board = Board::new();
    assert!(board.line_from(Point::new(1, 1), Point::new(0, 0)));
}

#[test]
fn wins_from_holds_at_both_ends_of_a_line_only() {
    let board = board_of(&[(0, 1, B), (1, 1, B), (2, 1, B), (0, 0, A)]);
    assert!(board.wins_from(Point::new(0, 1)));
    assert!(board.wins_from(Point::new(2, 1)));
    assert!(!board.wins_from(Point::new(1, 1)));
    assert!(!board.wins_from(Point::new(0, 0)));
    assert!(!board.wins_from(Point::new(0, 2)));
    assert!(!board.wins_from(Point::new(3, 1)));
    assert!(!board.wins_from(Point::new(-1, 1)));
}

#[test]
fn blank_lines_do_not_win() {
    let board = Board::new();
    for x in 0..3 {
        for y in 0..3 {
            assert!(!board.wins_from(Point::new(x, y)));
        }
    }
}

#[test]
fn victor_names_the_verdict_as_a_cell_content() {
    assert_eq!(Outcome::Undecided.victor(), None);
    assert_eq!(Outcome::Draw.victor(), Some(CellTypes::Blank));
    assert_eq!(Outcome::Win(A).victor(), Some(CellTypes::Cross));
    assert_eq!(Outcome::Win(B).victor(), Some(CellTypes::Nought));
}
