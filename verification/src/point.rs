//! Integer coordinate pairs, and the test that tells which of them lie on
//! the board.

use crate::EDGE;
use std::ops::Add;
use std::ops::AddAssign;
use vstd::prelude::*;
use vstd::std_specs::ops::AddSpecImpl;

verus! {

/// Whether the pair of integers names a cell of the board.
pub open spec fn on_board(p: (int, int)) -> bool {
    0 <= p.0 < EDGE && 0 <= p.1 < EDGE
}

/// The error of pointing at, or stepping to, a place off the board.
#[derive(Clone, Copy, PartialEq, Eq, Structural, Debug)]
pub struct OutOfBoundsError;

impl OutOfBoundsError {
    /// The words in which the error is told to a player.
    pub fn message(&self) -> (text: &'static str)
        ensures
            text@ == "Co-ordinate out of bounds!"@,
    {
        "Co-ordinate out of bounds!"
    }
}

/// A pair of integers, zero-based where it names a cell: `x` counts across,
/// `y` counts down. A point is free to lie off the board.
#[derive(Clone, Copy, PartialEq, Eq, Structural, Debug)]
pub struct Point {
    pub x: isize,
    pub y: isize,
}

impl View for Point {
    type V = (int, int);

    open spec fn view(&self) -> (int, int) {
        (self.x as int, self.y as int)
    }
}

impl Point {
    /// The point named by the first two entries of `vector`, which count
    /// from one.
    pub fn from_vec(vector: Vec<isize>) -> (point: Point)
        requires
            vector.len() >= 2,
            vector[0] > isize::MIN,
            vector[1] > isize::MIN,
        ensures
            point@ == (vector[0] - 1, vector[1] - 1),
    {
        Point { x: vector[0] - 1, y: vector[1] - 1 }
    }

    /// The point with the given coordinates.
    pub fn new(x: isize, y: isize) -> (point: Point)
        ensures
            point@ == (x as int, y as int),
    {
        Point { x, y }
    }

    /// This point moved by `direction`, if that is a cell of the board.
    pub fn translate(self, direction: Point) -> (moved: Result<Point, OutOfBoundsError>)
        ensures
            match moved {
                Ok(target) => target@ == (self.x + direction.x, self.y + direction.y)
                    && on_board(target@),
                Err(_) => !on_board((self.x + direction.x, self.y + direction.y)),
            },
    {
        match (self.x.checked_add(direction.x), self.y.checked_add(direction.y)) {
            (Some(x), Some(y)) => {
                let target = Point { x, y };
                if coords_in_bounds(target) {
                    Ok(target)
                } else {
                    Err(OutOfBoundsError)
                }
            },
            _ => Err(OutOfBoundsError),
        }
    }
}

/// What `+` means on points: the sum coordinate by coordinate, asked for
/// only where both sums fit the machine's integers.
impl AddSpecImpl<Point> for Point {
    open spec fn obeys_add_spec() -> bool {
        true
    }

    open spec fn add_req(self, rhs: Point) -> bool {
        &&& isize::MIN <= self.x + rhs.x <= isize::MAX
        &&& isize::MIN <= self.y + rhs.y <= isize::MAX
    }

    open spec fn add_spec(self, rhs: Point) -> Point {
        Point { x: (self.x + rhs.x) as isize, y: (self.y + rhs.y) as isize }
    }
}

impl Add<Point> for Point {
    type Output = Point;

    /// The sum of the two points, coordinate by coordinate.
    fn add(self, rhs: Point) -> Point {
        Point { x: self.x + rhs.x, y: self.y + rhs.y }
    }
}

impl AddAssign<Point> for Point {
    /// Adds `rhs` to this point, coordinate by coordinate.
    fn add_assign(&mut self, rhs: Point)
        requires
            isize::MIN <= old(self).x + rhs.x <= isize::MAX,
            isize::MIN <= old(self).y + rhs.y <= isize::MAX,
        ensures
            final(self)@ == (old(self).x + rhs.x, old(self).y + rhs.y),
    {
        self.x += rhs.x;
        self.y += rhs.y;
    }
}

/// Whether `point` names a cell of the board.
pub fn coords_in_bounds(point: Point) -> (inside: bool)
    ensures
        inside == on_board(point@),
{
    point.y < EDGE as isize && point.x < EDGE as isize && point.y >= 0 && point.x >= 0
}

} // verus!
