//! A two-player grid game on a square board: the board, placement of marks,
//! and the detection of a completed line.

use vstd::prelude::*;

pub mod cell;
pub mod point;
pub mod pointer;
pub mod rules;
pub mod board;
pub mod judge;
pub mod render;
pub mod player;
pub mod laws;
pub mod game;

verus! {

/// The number of cells along one side of the board, and the number of equal
/// marks in a row that wins.
pub const EDGE: usize = 3;

} // verus!
