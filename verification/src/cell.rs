//! The state of a single cell, which doubles as the name of a player.

use vstd::prelude::*;

verus! {

/// What a cell holds: one of the two marks, or nothing.
#[derive(Clone, Copy, Debug, PartialEq, Eq, Structural)]
pub enum CellState {
    X,
    O,
    Empty,
}

impl CellState {
    /// The other mark; `Empty` has no opponent and maps to itself.
    pub open spec fn rival(self) -> CellState {
        match self {
            CellState::X => CellState::O,
            CellState::O => CellState::X,
            CellState::Empty => CellState::Empty,
        }
    }

    /// Whether this is one of the two marks.
    pub open spec fn is_mark(self) -> bool {
        self != CellState::Empty
    }

    /// The mark that a character of a board layout stands for: `'X'` and
    /// `'O'` are the two marks, every other character is an empty cell.
    pub open spec fn of_char(c: char) -> CellState {
        if c == 'X' {
            CellState::X
        } else if c == 'O' {
            CellState::O
        } else {
            CellState::Empty
        }
    }

    /// The character that shows this state: the mark's letter, or a space.
    pub open spec fn glyph(self) -> char {
        match self {
            CellState::X => 'X',
            CellState::O => 'O',
            CellState::Empty => ' ',
        }
    }

    /// Reads a cell state from a character of a board layout.
    pub fn from_char(c: char) -> (state: CellState)
        ensures
            state == CellState::of_char(c),
    {
        if c == 'X' {
            CellState::X
        } else if c == 'O' {
            CellState::O
        } else {
            CellState::Empty
        }
    }

    /// The text that shows this state: the mark's letter, or a space.
    pub fn as_str(self) -> (text: &'static str)
        ensures
            text@ == seq![self.glyph()],
    {
        proof {
            reveal_strlit("X");
            reveal_strlit("O");
            reveal_strlit(" ");
        }
        match self {
            CellState::X => "X",
            CellState::O => "O",
            CellState::Empty => " ",
        }
    }

    /// Reading back the character that shows a state gives that state.
    pub proof fn law_glyph_round_trip(self)
        ensures
            CellState::of_char(self.glyph()) == self,
    {
    }

    /// Returns the opponent.
    pub fn opposite(self) -> (other: CellState)
        ensures
            other == self.rival(),
    {
        match self {
            CellState::X => CellState::O,
            CellState::O => CellState::X,
            CellState::Empty => CellState::Empty,
        }
    }
}

} // verus!
