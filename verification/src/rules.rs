//! The rules: who has won, whether the board is full, which moves are legal
//! and which of them stop an immediate threat.

use vstd::prelude::*;
use crate::board::Board;
use crate::cell::Cell;
use crate::lines::{spec_line, win_line};

verus! {

/// Where a game stands. It is computed from the board, never stored.
#[derive(Clone, Copy, PartialEq, Eq, Debug, Structural)]
pub enum GameResult {
    InProgress,
    Win(Cell),
    Draw,
}

/// Line `k` is complete: its three cells hold the same symbol.
pub open spec fn spec_line_won(cells: Seq<Cell>, k: int) -> bool {
    let (a, b, c) = spec_line(k);
    cells[a] != Cell::Empty && cells[a] == cells[b] && cells[b] == cells[c]
}

/// The first complete line, in the order of the lines, if there is one.
pub open spec fn spec_winning_line(cells: Seq<Cell>) -> Option<int> {
    if spec_line_won(cells, 0) {
        Some(0int)
    } else if spec_line_won(cells, 1) {
        Some(1int)
    } else if spec_line_won(cells, 2) {
        Some(2int)
    } else if spec_line_won(cells, 3) {
        Some(3int)
    } else if spec_line_won(cells, 4) {
        Some(4int)
    } else if spec_line_won(cells, 5) {
        Some(5int)
    } else if spec_line_won(cells, 6) {
        Some(6int)
    } else if spec_line_won(cells, 7) {
        Some(7int)
    } else {
        None
    }
}

/// The symbol on the first complete line.
pub open spec fn spec_winner(cells: Seq<Cell>) -> Option<Cell> {
    match spec_winning_line(cells) {
        Some(k) => Some(cells[spec_line(k).0]),
        None => None,
    }
}

/// No cell is empty.
pub open spec fn spec_is_full(cells: Seq<Cell>) -> bool {
    forall|i: int| 0 <= i < 9 ==> cells[i] != Cell::Empty
}

/// Where the game on this board stands: won by the side with a complete
/// line, drawn if there is none and the board is full, in progress
/// otherwise.
pub open spec fn spec_result(cells: Seq<Cell>) -> GameResult {
    match spec_winner(cells) {
        Some(w) => GameResult::Win(w),
        None => if spec_is_full(cells) {
            GameResult::Draw
        } else {
            GameResult::InProgress
        },
    }
}

/// The game is over: a line is complete or no cell is left.
pub open spec fn spec_is_over(cells: Seq<Cell>) -> bool {
    spec_result(cells) != GameResult::InProgress
}

/// A symbol may be placed at `i`: the index is on the board and the cell is
/// empty.
pub open spec fn spec_legal_move(cells: Seq<Cell>, i: int) -> bool {
    0 <= i < 9 && cells[i] == Cell::Empty
}

/// Cell `i` lies on line `k`.
pub open spec fn spec_on_line(k: int, i: int) -> bool {
    let (a, b, c) = spec_line(k);
    i == a || i == b || i == c
}

/// How many cells of line `k` hold `symbol`.
pub open spec fn spec_line_count(cells: Seq<Cell>, k: int, symbol: Cell) -> int {
    let (a, b, c) = spec_line(k);
    (if cells[a] == symbol { 1int } else { 0int })
        + (if cells[b] == symbol { 1int } else { 0int })
        + (if cells[c] == symbol { 1int } else { 0int })
}

/// On line `k`, `threat` holds two cells and the third, cell `i`, is empty.
pub open spec fn spec_threat_at(cells: Seq<Cell>, k: int, i: int, threat: Cell) -> bool {
    &&& spec_on_line(k, i)
    &&& cells[i] == Cell::Empty
    &&& spec_line_count(cells, k, threat) == 2
}

/// Placing `player` at `i` takes the last cell of a line on which the
/// opponent holds the other two.
pub open spec fn spec_is_block_move(cells: Seq<Cell>, i: int, player: Cell) -> bool {
    &&& player != Cell::Empty
    &&& exists|k: int| 0 <= k < 8 && #[trigger] spec_threat_at(cells, k, i, player.spec_opponent())
}

impl Board {
    /// The cells of the first complete line, for a caller that wants to mark
    /// them.
    pub fn winning_line(&self) -> (r: Option<[usize; 3]>)
        ensures
            r is Some <==> spec_winning_line(self@) is Some,
            r matches Some(l) ==> (l[0] as int, l[1] as int, l[2] as int)
                == spec_line(spec_winning_line(self@).unwrap()),
    {
        let mut k: usize = 0;
        while k < 8
            invariant
                k <= 8,
                forall|j: int| 0 <= j < k ==> !spec_line_won(self@, j),
            decreases 8 - k,
        {
            let line = win_line(k);
            let a = self.cells[line[0]];
            if a != Cell::Empty && a == self.cells[line[1]] && a == self.cells[line[2]] {
                return Some(line);
            }
            k += 1;
        }
        None
    }

    /// The side that has completed a line, if any.
    pub fn check_winner(&self) -> (r: Option<Cell>)
        ensures
            r == spec_winner(self@),
            r != Some(Cell::Empty),
    {
        match self.winning_line() {
            Some(line) => Some(self.cells[line[0]]),
            None => None,
        }
    }

    /// Whether every cell is taken.
    pub fn is_full(&self) -> (r: bool)
        ensures
            r == spec_is_full(self@),
    {
        let mut i: usize = 0;
        while i < 9
            invariant
                i <= 9,
                forall|j: int| 0 <= j < i ==> self@[j] != Cell::Empty,
            decreases 9 - i,
        {
            if self.cells[i] == Cell::Empty {
                return false;
            }
            i += 1;
        }
        true
    }

    /// Where the game stands.
    pub fn result(&self) -> (r: GameResult)
        ensures
            r == spec_result(self@),
            r != GameResult::Win(Cell::Empty),
    {
        match self.check_winner() {
            Some(winner) => GameResult::Win(winner),
            None => if self.is_full() {
                GameResult::Draw
            } else {
                GameResult::InProgress
            },
        }
    }

    /// Whether a symbol may be placed at `index`.
    pub fn legal_move(&self, index: usize) -> (r: bool)
        ensures
            r == spec_legal_move(self@, index as int),
    {
        index < 9 && self.cells[index] == Cell::Empty
    }

    /// Whether `player`, by moving to `index`, stops the opponent from
    /// completing a line with the next move.
    pub fn is_block_move(&self, index: usize, player: Cell) -> (r: bool)
        ensures
            r == spec_is_block_move(self@, index as int, player),
    {
        let opponent = match player {
            Cell::X => Cell::O,
            Cell::O => Cell::X,
            Cell::Empty => {
                return false;
            },
        };
        let mut k: usize = 0;
        while k < 8
            invariant
                k <= 8,
                player != Cell::Empty,
                opponent == player.spec_opponent(),
                forall|j: int| 0 <= j < k ==> !spec_threat_at(self@, j, index as int, opponent),
            decreases 8 - k,
        {
            let line = win_line(k);
            if index == line[0] || index == line[1] || index == line[2] {
                let mut opponent_count: u8 = 0;
                if self.cells[line[0]] == opponent {
                    opponent_count += 1;
                }
                if self.cells[line[1]] == opponent {
                    opponent_count += 1;
                }
                if self.cells[line[2]] == opponent {
                    opponent_count += 1;
                }
                if opponent_count == 2 && self.cells[index] == Cell::Empty {
                    assert(spec_threat_at(self@, k as int, index as int, opponent));
                    return true;
                }
            }
            k += 1;
        }
        false
    }
}

} // verus!
