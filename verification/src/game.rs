//! A game in progress: a board, the player to move, and the verdict on the
//! board as it stands. One move at a time takes it from an empty board to a
//! win or a draw.

use crate::board::Board;
use crate::board::PlacementError;
use crate::cell::CellTypes;
use crate::cell::Mark;
use crate::laws::lemma_blank_board_undecided;
use crate::player::Player;
use crate::point::on_board;
use crate::point::Point;
use crate::rules::blank_grid;
use crate::rules::outcome_of;
use crate::rules::Grid;
use crate::rules::Outcome;
use vstd::prelude::*;

verus! {

/// A game in progress. The verdict it holds is always the verdict on its
/// board.
pub struct Game {
    board: Board,
    player: Player,
    verdict: Outcome,
}

impl Game {
    #[verifier::type_invariant]
    spec fn verdict_is_current(&self) -> bool {
        self.verdict == outcome_of(self.board@)
    }

    /// What the cells of the board hold.
    pub closed spec fn grid(&self) -> Grid {
        self.board@
    }

    /// The mark of the player to move.
    pub closed spec fn turn(&self) -> Mark {
        self.player.variant
    }

    /// A new game on an empty board, which `first` begins.
    pub fn new(first: Player) -> (game: Game)
        ensures
            game.grid() == blank_grid(),
            game.turn() == first.variant,
            outcome_of(game.grid()) == Outcome::Undecided,
    {
        proof {
            lemma_blank_board_undecided();
        }
        Game { board: Board::new(), player: first, verdict: Outcome::Undecided }
    }

    /// The board as it stands.
    pub fn board(&self) -> (board: &Board)
        ensures
            board@ == self.grid(),
    {
        &self.board
    }

    /// The mark of the player to move.
    pub fn current(&self) -> (mark: Mark)
        ensures
            mark == self.turn(),
    {
        self.player.current()
    }

    /// The verdict on the board as it stands.
    pub fn outcome(&self) -> (verdict: Outcome)
        ensures
            verdict == outcome_of(self.grid()),
    {
        proof {
            use_type_invariant(self);
        }
        self.verdict
    }

    /// Whether the game has ended in a win or a draw.
    pub fn is_over(&self) -> (over: bool)
        ensures
            over == (outcome_of(self.grid()) != Outcome::Undecided),
    {
        proof {
            use_type_invariant(self);
        }
        match self.verdict {
            Outcome::Undecided => false,
            _ => true,
        }
    }

    /// One move of a game that is not over: the player to move puts a mark
    /// on the cell at `at`. A move that the board refuses changes nothing,
    /// and the same player is to move again. A move that is made is followed
    /// by the verdict on the new board; the turn passes to the other player
    /// if and only if that verdict leaves the game undecided.
    pub fn play(&mut self, at: Point) -> (played: Result<Outcome, PlacementError>)
        requires
            outcome_of(old(self).grid()) == Outcome::Undecided,
        ensures
            !on_board(at@) ==> played == Err::<Outcome, PlacementError>(
                PlacementError::OutOfBounds,
            ),
            on_board(at@) && old(self).grid()[at@] != CellTypes::Blank ==> played == Err::<
                Outcome,
                PlacementError,
            >(PlacementError::AlreadyOccupied),
            on_board(at@) && old(self).grid()[at@] == CellTypes::Blank ==> played is Ok,
            played is Err ==> *final(self) == *old(self),
            played matches Ok(verdict) ==> {
                &&& final(self).grid() == old(self).grid().insert(at@, old(self).turn().tag())
                &&& verdict == outcome_of(final(self).grid())
                &&& final(self).turn() == if verdict == Outcome::Undecided {
                    old(self).turn().other()
                } else {
                    old(self).turn()
                }
            },
    {
        let mut board = self.board;
        let mut player = self.player;
        match board.place(at, player.current()) {
            Ok(()) => {
                let verdict = board.evaluate();
                match verdict {
                    Outcome::Undecided => player.switch(),
                    _ => {},
                }
                *self = Game { board, player, verdict };
                Ok(verdict)
            },
            Err(error) => Err(error),
        }
    }
}

} // verus!
