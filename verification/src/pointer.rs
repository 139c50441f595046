//! A cursor that rests on a cell of the board and can be moved about
//! without ever leaving it.

use crate::point::on_board;
use crate::point::OutOfBoundsError;
use crate::point::Point;
use crate::point::coords_in_bounds;
use vstd::prelude::*;

verus! {

/// A cursor on the board. It starts on the cell at (1, 1) and refuses every
/// move that would take it off the board.
pub struct Pointer {
    pos: Point,
}

impl Pointer {
    #[verifier::type_invariant]
    spec fn rests_on_board(&self) -> bool {
        on_board(self.pos@)
    }

    /// The cell on which the cursor rests.
    pub closed spec fn spec_pos(&self) -> Point {
        self.pos
    }

    #[verifier::when_used_as_spec(spec_pos)]
    pub fn pos(&self) -> (pos: Point)
        ensures
            pos == self.spec_pos(),
            on_board(pos@),
    {
        proof {
            use_type_invariant(self);
        }
        self.pos
    }

    /// A cursor on the cell at (1, 1).
    pub fn new() -> (pointer: Pointer)
        ensures
            pointer.pos()@ == (1int, 1int),
    {
        Pointer { pos: Point::new(1, 1) }
    }

    /// Moves the cursor by `by`, or leaves it where it is if that would take
    /// it off the board.
    pub fn change_pos(&mut self, by: Point) -> (moved: Result<(), OutOfBoundsError>)
        ensures
            match moved {
                Ok(()) => final(self).pos()@ == (old(self).pos().x + by.x, old(self).pos().y + by.y),
                Err(_) => final(self).pos() == old(self).pos(),
            },
            moved is Ok <==> on_board((old(self).pos().x + by.x, old(self).pos().y + by.y)),
    {
        match self.pos.translate(by) {
            Ok(target) => {
                self.pos = target;
                Ok(())
            },
            Err(error) => Err(error),
        }
    }

    /// Moves the cursor by `x` across and `y` down, as `change_pos` does.
    pub fn change_pos_coords(&mut self, x: i32, y: i32) -> (moved: Result<(), OutOfBoundsError>)
        ensures
            match moved {
                Ok(()) => final(self).pos()@ == (old(self).pos().x + x, old(self).pos().y + y),
                Err(_) => final(self).pos() == old(self).pos(),
            },
            moved is Ok <==> on_board((old(self).pos().x + x, old(self).pos().y + y)),
    {
        self.change_pos(Point::new(x as isize, y as isize))
    }

    /// Puts the cursor on `to`, or leaves it where it is if `to` is off the
    /// board.
    pub fn set_pos(&mut self, to: Point) -> (moved: Result<(), OutOfBoundsError>)
        ensures
            match moved {
                Ok(()) => final(self).pos() == to,
                Err(_) => final(self).pos() == old(self).pos(),
            },
            moved is Ok <==> on_board(to@),
    {
        if !coords_in_bounds(to) {
            return Err(OutOfBoundsError);
        }
        self.pos = to;
        Ok(())
    }
}

} // verus!
