//! The three states of a board position.

use vstd::prelude::*;

verus! {

/// What one position of the board holds.
#[derive(Clone, Copy, PartialEq, Eq, Debug, Structural)]
pub enum Cell {
    Empty,
    X,
    O,
}

impl Cell {
    /// The other side; `Empty` has no opponent and stands for itself.
    pub open spec fn spec_opponent(self) -> Cell {
        match self {
            Cell::X => Cell::O,
            Cell::O => Cell::X,
            Cell::Empty => Cell::Empty,
        }
    }

    /// The character a cell is shown as.
    pub open spec fn spec_symbol(self) -> char {
        match self {
            Cell::Empty => '.',
            Cell::X => 'X',
            Cell::O => 'O',
        }
    }

    /// The small integer a cell is sent as across a boundary.
    pub open spec fn spec_code(self) -> u8 {
        match self {
            Cell::Empty => 0u8,
            Cell::X => 1u8,
            Cell::O => 2u8,
        }
    }

    /// The player that `code` stands for, if it stands for one.
    pub open spec fn spec_player_from_code(code: u8) -> Option<Cell> {
        if code == 1 {
            Some(Cell::X)
        } else if code == 2 {
            Some(Cell::O)
        } else {
            None
        }
    }

    /// The other side; `Empty` for `Empty`.
    pub fn opponent(self) -> (r: Cell)
        ensures
            r == self.spec_opponent(),
    {
        match self {
            Cell::X => Cell::O,
            Cell::O => Cell::X,
            Cell::Empty => Cell::Empty,
        }
    }

    /// The cell as text: one character.
    pub fn symbol(self) -> (r: &'static str)
        ensures
            r@ == seq![self.spec_symbol()],
    {
        proof {
            reveal_strlit(".");
            reveal_strlit("X");
            reveal_strlit("O");
        }
        match self {
            Cell::Empty => ".",
            Cell::X => "X",
            Cell::O => "O",
        }
    }

    /// The cell as a small integer: 0 for `Empty`, 1 for `X`, 2 for `O`.
    pub fn code(self) -> (r: u8)
        ensures
            r == self.spec_code(),
    {
        match self {
            Cell::Empty => 0,
            Cell::X => 1,
            Cell::O => 2,
        }
    }

    /// The player that a small integer stands for: 1 is `X`, 2 is `O`, and
    /// nothing else is a player.
    pub fn player_from_code(code: u8) -> (r: Option<Cell>)
        ensures
            r == Cell::spec_player_from_code(code),
    {
        match code {
            1 => Some(Cell::X),
            2 => Some(Cell::O),
            _ => None,
        }
    }
}

} // verus!
