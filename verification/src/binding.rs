//! The board as a user interface sees it: cells and players are small
//! integers, 0 for an empty cell, 1 for X and 2 for O.

use vstd::prelude::*;
use crate::board::{spec_empty_board, Board};
use crate::cell::Cell;
use crate::lines::spec_line;
use crate::rules::{spec_legal_move, spec_winner, spec_winning_line};
use crate::search::spec_best_move;

verus! {

/// A board behind an interface of integers. Its view is the board that it
/// holds, which has nine cells: see [`WasmBoard::lemma_nine_cells`].
pub struct WasmBoard {
    board: Board,
}

impl View for WasmBoard {
    type V = Seq<Cell>;

    closed spec fn view(&self) -> Seq<Cell> {
        self.board@
    }
}

/// The codes of `cells`, cell by cell.
pub open spec fn spec_codes(cells: Seq<Cell>) -> Seq<u8> {
    cells.map_values(|c: Cell| c.spec_code())
}

impl WasmBoard {
    /// The view of every `WasmBoard` has nine cells.
    pub proof fn lemma_nine_cells(&self)
        ensures
            self@.len() == 9,
    {
    }

    /// An empty board.
    pub fn new() -> (r: WasmBoard)
        ensures
            r@ == spec_empty_board(),
    {
        WasmBoard { board: Board::new() }
    }

    /// Clears the board.
    pub fn reset(&mut self)
        ensures
            final(self)@ == spec_empty_board(),
    {
        self.board = Board::new();
    }

    /// The nine cells as codes, in the order of the indices: 0 for an empty
    /// cell, 1 for X, 2 for O.
    pub fn get_cells(&self) -> (r: Vec<u8>)
        ensures
            r@.len() == 9,
            self@.len() == 9,
            r@ == spec_codes(self@),
            forall|i: int| 0 <= i < 9 ==> r@[i] == self@[i].spec_code(),
    {
        let mut codes: Vec<u8> = Vec::new();
        let mut i: usize = 0;
        while i < 9
            invariant
                i <= 9,
                codes@.len() == i,
                forall|j: int| 0 <= j < i ==> codes@[j] == self@[j].spec_code(),
            decreases 9 - i,
        {
            codes.push(self.board.cells[i].code());
            i += 1;
        }
        codes
    }

    /// Puts the player with code `player` on cell `index`. Returns whether
    /// it did; it does not if the index is off the board, the cell is taken
    /// or the code is not that of a player, and the board then stays as it
    /// is.
    pub fn make_move(&mut self, index: usize, player: u8) -> (r: bool)
        ensures
            old(self)@.len() == 9,
            final(self)@.len() == 9,
            r <==> spec_legal_move(old(self)@, index as int)
                && Cell::spec_player_from_code(player) is Some,
            r ==> final(self)@
                == old(self)@.update(index as int, Cell::spec_player_from_code(player).unwrap()),
            !r ==> final(self)@ == old(self)@,
    {
        if !self.board.legal_move(index) {
            return false;
        }
        match Cell::player_from_code(player) {
            Some(cell) => {
                self.board.cells[index] = cell;
                true
            },
            None => false,
        }
    }

    /// The move recommended to the player with code `player`; none if the
    /// code is not that of a player.
    pub fn best_move(&self, player: u8) -> (r: Option<usize>)
        ensures
            self@.len() == 9,
            r == match Cell::spec_player_from_code(player) {
                Some(cell) => spec_best_move(self@, cell),
                None => None,
            },
    {
        match Cell::player_from_code(player) {
            Some(cell) => self.board.best_move(cell),
            None => None,
        }
    }

    /// The code of the side that has completed a line, if any.
    pub fn check_winner(&self) -> (r: Option<u8>)
        ensures
            self@.len() == 9,
            r == match spec_winner(self@) {
                Some(cell) => Some(cell.spec_code()),
                None => None,
            },
            r != Some(0u8),
    {
        match self.board.check_winner() {
            Some(cell) => Some(cell.code()),
            None => None,
        }
    }

    /// The three cells of the first complete line, if any.
    pub fn winning_line(&self) -> (r: Option<Vec<u32>>)
        ensures
            self@.len() == 9,
            r is Some <==> spec_winning_line(self@) is Some,
            r matches Some(v) ==> v@.len() == 3 && (v@[0] as int, v@[1] as int, v@[2] as int)
                == spec_line(spec_winning_line(self@).unwrap()),
    {
        match self.board.winning_line() {
            Some(line) => {
                let mut cells: Vec<u32> = Vec::new();
                cells.push(line[0] as u32);
                cells.push(line[1] as u32);
                cells.push(line[2] as u32);
                Some(cells)
            },
            None => None,
        }
    }
}

} // verus!
