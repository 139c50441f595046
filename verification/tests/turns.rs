use tictactoe::board::PlacementError;
use tictactoe::cell::CellTypes;
use tictactoe::cell::Mark;
use tictactoe::game::Game;
use tictactoe::player::Player;
use tictactoe::point::Point;
use tictactoe::rules::Outcome;

fn crosses() -> Player {
    Player::decided_by(false)
}

#[test]
fn the_coin_decides_who_begins() {
    assert_eq!(Player::decided_by(true).current(), Mark::Nought);
    assert_eq!(Player::decided_by(false).current(), Mark::Cross);
}

#[test]
fn a_new_player_holds_one_of_the_two_marks() {
    for _ in 0..64 {
        let mark = Player::new().current();
        assert!(mark == Mark::Cross || mark == Mark::Nought);
    }
}

#[test]
fn switch_alternates_strictly() {
    let mut player = crosses();
    player.switch();
    assert_eq!(player.current(), Mark::Nought);
    player.switch();
    assert_eq!(player.current(), Mark::Cross);
    player.switch();
    assert_eq!(player.current(), Mark::Nought);
}

#[test]
fn a_new_game_is_empty_and_undecided() {
    let game = Game::new(Player::decided_by(true));
    assert_eq!(game.current(), Mark::Nought);
    assert_eq!(game.outcome(), Outcome::Undecided);
    assert!(!game.is_over());
    assert_eq!(game.board().occupied_count(), 0);
}

#[test]
fn a_move_that_is_made_passes_the_turn() {
    let mut game = Game::new(crosses());
    assert_eq!(game.play(Point::new(1, 1)), Ok(Outcome::Undecided));
    assert_eq!(game.current(), Mark::Nought);
    assert_eq!(game.board().type_at(Point::new(1, 1)), Ok(CellTypes::Cross));
    assert_eq!(game.play(Point::new(0, 0)), Ok(Outcome::Undecided));
    assert_eq!(game.current(), Mark::Cross);
    assert_eq!(game.board().type_at(Point::new(0, 0)), Ok(CellTypes::Nought));
}

#[test]
fn a_move_that_is_refused_keeps_the_turn_and_the_board() {
    let mut game = Game::new(crosses());
    game.play(Point::new(1, 1)).unwrap();
    let before = game.board().draw();
    assert_eq!(game.play(Point::new(1, 1)), Err(PlacementError::AlreadyOccupied));
    assert_eq!(game.current(), Mark::Nought);
    assert_eq!(game.board().draw(), before);
    assert_eq!(game.play(Point::new(3, 1)), Err(PlacementError::OutOfBounds));
    assert_eq!(game.current(), Mark::Nought);
    assert_eq!(game.board().draw(), before);
    assert_eq!(game.play(Point::new(-1, -1)), Err(PlacementError::OutOfBounds));
    assert_eq!(game.current(), Mark::Nought);
    assert_eq!(game.outcome(), Outcome::Undecided);
}

#[test]
fn a_game_played_to_a_win() {
    let mut game = Game::new(crosses());
    assert_eq!(game.play(Point::new(0, 0)), Ok(Outcome::Undecided));
    assert_eq!(game.play(Point::new(1, 0)), Ok(Outcome::Undecided));
    assert_eq!(game.play(Point::new(0, 1)), Ok(Outcome::Undecided));
    assert_eq!(game.play(Point::new(1, 1)), Ok(Outcome::Undecided));
    assert_eq!(game.play(Point::new(0, 2)), Ok(Outcome::Win(Mark::Cross)));
    assert!(game.is_over());
    assert_eq!(game.outcome(), Outcome::Win(Mark::Cross));
    assert_eq!(game.current(), Mark::Cross);
    assert_eq!(game.board().evaluate(), Outcome::Win(Mark::Cross));
}

#[test]
fn a_game_played_to_a_draw() {
    let mut game = Game::new(crosses());
    let moves = [(1, 1), (0, 0), (2, 0), (0, 2), (0, 1), (2, 1), (1, 0), (1, 2)];
    for &(x, y) in moves.iter() {
        assert_eq!(game.play(Point::new(x, y)), Ok(Outcome::Undecided));
        assert!(!game.is_over());
    }
    assert_eq!(game.current(), Mark::Cross);
    assert_eq!(game.play(Point::new(2, 2)), Ok(Outcome::Draw));
    assert!(game.is_over());
    assert_eq!(game.current(), Mark::Cross);
    assert_eq!(game.board().occupied_count(), 9);
    assert_eq!(game.board().verify(), Some(CellTypes::Blank));
}

#[test]
fn noughts_can_begin_and_win() {
    let mut game = Game::new(Player::decided_by(true));
    game.play(Point::new(2, 0)).unwrap();
    game.play(Point::new(0, 0)).unwrap();
    game.play(Point::new(1, 1)).unwrap();
    game.play(Point::new(0, 1)).unwrap();
    assert_eq!(game.play(Point::new(0, 2)), Ok(Outcome::Win(Mark::Nought)));
    assert_eq!(game.outcome().victor(), Some(CellTypes::Nought));
}
