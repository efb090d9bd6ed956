//! The board: nine cells, stored row by row.

use vstd::prelude::*;
use crate::cell::Cell;
use crate::rules::spec_legal_move;

verus! {

/// A 3×3 grid. Cell `i` sits in row `i / 3`, column `i % 3`.
#[derive(Clone, Copy, Debug)]
pub struct Board {
    pub cells: [Cell; 9],
}

impl View for Board {
    type V = Seq<Cell>;

    open spec fn view(&self) -> Seq<Cell> {
        self.cells@
    }
}

/// The one error: a move that the rules do not allow. On a board that is a
/// move to an index off the board or to a cell that is taken.
#[derive(Clone, Copy, PartialEq, Eq, Debug)]
pub struct IllegalMove;

/// Nine empty cells.
pub open spec fn spec_empty_board() -> Seq<Cell> {
    Seq::new(9, |i: int| Cell::Empty)
}

impl Board {
    /// The board on which nobody has moved.
    pub fn new() -> (r: Board)
        ensures
            r@ == spec_empty_board(),
    {
        Board { cells: [Cell::Empty; 9] }
    }

    /// Puts `player` on cell `index`, if that cell is on the board and
    /// empty; otherwise the board stays as it is.
    pub fn place(&mut self, index: usize, player: Cell) -> (r: Result<(), IllegalMove>)
        ensures
            r is Ok <==> spec_legal_move(old(self)@, index as int),
            r is Ok ==> final(self)@ == old(self)@.update(index as int, player),
            r is Err ==> final(self)@ == old(self)@,
    {
        if index >= 9 || self.cells[index] != Cell::Empty {
            return Err(IllegalMove);
        }
        self.cells[index] = player;
        Ok(())
    }
}

} // verus!
