//! What a single position of the board holds, and the two marks that the
//! players own.

use vstd::prelude::*;

verus! {

/// The content of one cell.
#[derive(Clone, Copy, PartialEq, Eq, Structural, Debug)]
pub enum CellTypes {
    Blank,
    Cross,
    Nought,
}

/// One of the two symbols that a player places. A cell may be blank; a mark
/// never is.
#[derive(Clone, Copy, PartialEq, Eq, Structural, Debug)]
pub enum Mark {
    Cross,
    Nought,
}

/// The character that shows a cell of the given content.
pub open spec fn symbol_of(tag: CellTypes) -> char {
    match tag {
        CellTypes::Blank => ' ',
        CellTypes::Cross => 'X',
        CellTypes::Nought => 'O',
    }
}

impl CellTypes {
    /// The mark in a cell of this content, if there is one.
    pub open spec fn spec_mark(self) -> Option<Mark> {
        match self {
            CellTypes::Blank => None,
            CellTypes::Cross => Some(Mark::Cross),
            CellTypes::Nought => Some(Mark::Nought),
        }
    }

    #[verifier::when_used_as_spec(spec_mark)]
    pub fn mark(self) -> (mark: Option<Mark>)
        ensures
            mark == self.spec_mark(),
    {
        match self {
            CellTypes::Blank => None,
            CellTypes::Cross => Some(Mark::Cross),
            CellTypes::Nought => Some(Mark::Nought),
        }
    }

    /// The name under which this content is announced: a blank stands for
    /// nobody.
    pub fn name(self) -> (name: &'static str)
        ensures
            name@ == match self {
                CellTypes::Cross => "Cross"@,
                CellTypes::Nought => "Nought"@,
                CellTypes::Blank => "Nobody"@,
            },
    {
        match self {
            CellTypes::Cross => "Cross",
            CellTypes::Nought => "Nought",
            CellTypes::Blank => "Nobody",
        }
    }
}

impl Mark {
    /// The content of a cell that carries this mark.
    pub open spec fn spec_tag(self) -> CellTypes {
        match self {
            Mark::Cross => CellTypes::Cross,
            Mark::Nought => CellTypes::Nought,
        }
    }

    #[verifier::when_used_as_spec(spec_tag)]
    pub fn tag(self) -> (tag: CellTypes)
        ensures
            tag == self.spec_tag(),
            tag != CellTypes::Blank,
    {
        match self {
            Mark::Cross => CellTypes::Cross,
            Mark::Nought => CellTypes::Nought,
        }
    }

    /// The opponent's mark.
    pub open spec fn spec_other(self) -> Mark {
        match self {
            Mark::Cross => Mark::Nought,
            Mark::Nought => Mark::Cross,
        }
    }

    #[verifier::when_used_as_spec(spec_other)]
    pub fn other(self) -> (other: Mark)
        ensures
            other == self.spec_other(),
    {
        match self {
            Mark::Cross => Mark::Nought,
            Mark::Nought => Mark::Cross,
        }
    }
}

/// A single position of the board.
#[derive(Clone, Copy, PartialEq, Eq, Structural, Debug)]
pub struct Cell {
    pub variant: CellTypes,
}

impl Cell {
    /// A blank cell.
    pub fn new() -> (cell: Cell)
        ensures
            cell.variant == CellTypes::Blank,
    {
        Cell { variant: CellTypes::Blank }
    }

    /// Overwrites the content, whatever it was.
    pub fn change(&mut self, new: CellTypes)
        ensures
            final(self).variant == new,
    {
        self.variant = new
    }

    /// The text that shows this cell: a space, `X` or `O`.
    pub fn symbol(&self) -> (symbol: &'static str)
        ensures
            symbol@ == seq![symbol_of(self.variant)],
    {
        proof {
            reveal_strlit(" ");
            reveal_strlit("X");
            reveal_strlit("O");
        }
        match self.variant {
            CellTypes::Blank => " ",
            CellTypes::Cross => "X",
            CellTypes::Nought => "O",
        }
    }
}

} // verus!
