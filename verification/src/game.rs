//! One game between a player and the engine: whose turn it is, what
//! happens next, and the moves so far. X opens and the sides alternate.
//!
//! A `Game` is only ever changed by a legal move in a game that is not
//! over, so its board is one that legal play reaches.

use vstd::prelude::*;
use crate::board::{spec_empty_board, Board, IllegalMove};
use crate::cell::Cell;
use crate::laws::lemma_legal_play_has_one_winner;
use crate::lines::spec_line;
use crate::rules::{spec_is_over, spec_legal_move, spec_line_won, spec_result, GameResult};
use crate::search::spec_best_move;

verus! {

/// The side that makes move number `n`, counted from 0, when `first` opens
/// the game and the sides alternate.
pub open spec fn spec_mover(first: Cell, n: int) -> Cell {
    if n % 2 == 0 {
        first
    } else {
        first.spec_opponent()
    }
}

/// The board after the cells `moves` have been taken in turn, `first`
/// opening.
pub open spec fn spec_play(first: Cell, moves: Seq<int>) -> Seq<Cell>
    decreases moves.len(),
{
    if moves.len() == 0 {
        spec_empty_board()
    } else {
        spec_play(first, moves.drop_last()).update(
            moves.last(),
            spec_mover(first, moves.len() - 1),
        )
    }
}

/// Every move of `moves` was made in a game that was not over, to a cell
/// that was empty.
pub open spec fn spec_legal_play(first: Cell, moves: Seq<int>) -> bool
    decreases moves.len(),
{
    moves.len() == 0 || {
        let before = spec_play(first, moves.drop_last());
        &&& spec_legal_play(first, moves.drop_last())
        &&& !spec_is_over(before)
        &&& spec_legal_move(before, moves.last())
    }
}

/// How a game ended, as the player sees it.
#[derive(Clone, Copy, PartialEq, Eq, Debug, Structural)]
pub enum Verdict {
    PlayerWins,
    PlayerLoses,
    Draw,
}

/// What happens next in a game.
#[derive(Clone, Copy, PartialEq, Eq, Debug, Structural)]
pub enum Step {
    /// The player is to move and has to be asked.
    AskPlayer,
    /// The engine is to move, and takes this cell.
    EngineMove(usize),
    /// The game is over.
    Finished(Verdict),
}

/// How a finished game looks to `player`.
pub open spec fn spec_verdict(result: GameResult, player: Cell) -> Verdict {
    match result {
        GameResult::Win(winner) => if winner == player {
            Verdict::PlayerWins
        } else {
            Verdict::PlayerLoses
        },
        _ => Verdict::Draw,
    }
}

/// A game in progress or finished.
pub struct Game {
    board: Board,
    player: Cell,
    turn: Cell,
    moves: Ghost<Seq<int>>,
}

impl Game {
    #[verifier::type_invariant]
    spec fn legally_played(self) -> bool {
        &&& spec_legal_play(Cell::X, self.moves@)
        &&& self.board@ == spec_play(Cell::X, self.moves@)
        &&& self.turn == spec_mover(Cell::X, self.moves@.len() as int)
    }

    /// The cells that were taken, in the order of the moves.
    pub closed spec fn spec_moves(&self) -> Seq<int> {
        self.moves@
    }

    /// The board as it stands.
    pub closed spec fn spec_cells(&self) -> Seq<Cell> {
        self.board@
    }

    /// The side of the player; the engine has the other.
    pub closed spec fn spec_player(&self) -> Cell {
        self.player
    }

    /// The side to move.
    pub closed spec fn spec_turn(&self) -> Cell {
        self.turn
    }

    /// The board of every game has nine cells.
    pub proof fn lemma_nine_cells(&self)
        ensures
            self.spec_cells().len() == 9,
    {
    }

    /// A game in which nobody has moved. The player has the side `player`;
    /// with `Empty` the engine plays both sides.
    pub fn new(player: Cell) -> (r: Game)
        ensures
            r.spec_moves() == Seq::<int>::empty(),
            r.spec_cells() == spec_empty_board(),
            r.spec_player() == player,
            r.spec_turn() == Cell::X,
    {
        Game { board: Board::new(), player, turn: Cell::X, moves: Ghost(Seq::empty()) }
    }

    /// The board as it stands: the one that the moves so far lead to.
    pub fn board(&self) -> (r: &Board)
        ensures
            self.spec_cells().len() == 9,
            r@ == self.spec_cells(),
            r@ == spec_play(Cell::X, self.spec_moves()),
            spec_legal_play(Cell::X, self.spec_moves()),
    {
        proof {
            use_type_invariant(self);
        }
        &self.board
    }

    /// The side of the player.
    pub fn player(&self) -> (r: Cell)
        ensures
            r == self.spec_player(),
    {
        self.player
    }

    /// The side to move: X before an even number of moves, O before an odd
    /// one.
    pub fn turn(&self) -> (r: Cell)
        ensures
            r == self.spec_turn(),
            r == spec_mover(Cell::X, self.spec_moves().len() as int),
    {
        proof {
            use_type_invariant(self);
        }
        self.turn
    }

    /// Where the game stands. Since the game was played legally, a win is a
    /// win for one side only: every complete line holds the winner's symbol.
    pub fn result(&self) -> (r: GameResult)
        ensures
            self.spec_cells().len() == 9,
            r == spec_result(self.spec_cells()),
            forall|k: int|
                0 <= k < 8 && #[trigger] spec_line_won(self.spec_cells(), k)
                    ==> r == GameResult::Win(self.spec_cells()[spec_line(k).0]),
    {
        proof {
            use_type_invariant(self);
            lemma_legal_play_has_one_winner(Cell::X, self.moves@);
        }
        self.board.result()
    }

    /// What happens next: the end, if the game is over; otherwise the move
    /// of the side whose turn it is, asked of the player or chosen by the
    /// engine.
    pub fn next_step(&self) -> (r: Step)
        ensures
            self.spec_cells().len() == 9,
            spec_is_over(self.spec_cells())
                ==> r == Step::Finished(
                    spec_verdict(spec_result(self.spec_cells()), self.spec_player()),
                ),
            !spec_is_over(self.spec_cells()) && self.spec_turn() == self.spec_player()
                ==> r == Step::AskPlayer,
            !spec_is_over(self.spec_cells()) && self.spec_turn() != self.spec_player()
                ==> (r matches Step::EngineMove(i)
                    && spec_best_move(self.spec_cells(), self.spec_turn()) == Some(i)),
    {
        proof {
            use_type_invariant(self);
        }
        match self.board.result() {
            GameResult::InProgress => {
                if self.turn == self.player {
                    Step::AskPlayer
                } else {
                    match self.board.best_move(self.turn) {
                        Some(index) => Step::EngineMove(index),
                        // Not reached: a cell is left and X or O is to move.
                        None => Step::AskPlayer,
                    }
                }
            },
            GameResult::Win(winner) => Step::Finished(
                if winner == self.player {
                    Verdict::PlayerWins
                } else {
                    Verdict::PlayerLoses
                },
            ),
            GameResult::Draw => Step::Finished(Verdict::Draw),
        }
    }

    /// The side to move takes cell `index`, and the turn passes to the
    /// other side. The move is refused, and nothing changes, if the game is
    /// over, the index is off the board or the cell is taken.
    pub fn play(&mut self, index: usize) -> (r: Result<(), IllegalMove>)
        ensures
            old(self).spec_cells().len() == 9,
            final(self).spec_cells().len() == 9,
            r is Ok <==> !spec_is_over(old(self).spec_cells())
                && spec_legal_move(old(self).spec_cells(), index as int),
            r is Ok ==> {
                &&& final(self).spec_moves() == old(self).spec_moves().push(index as int)
                &&& final(self).spec_cells()
                    == old(self).spec_cells().update(index as int, old(self).spec_turn())
                &&& final(self).spec_turn() == old(self).spec_turn().spec_opponent()
                &&& final(self).spec_player() == old(self).spec_player()
            },
            r is Err ==> *final(self) == *old(self),
    {
        proof {
            use_type_invariant(&*self);
        }
        let mut board = self.board;
        if board.result() != GameResult::InProgress {
            return Err(IllegalMove);
        }
        match board.place(index, self.turn) {
            Ok(()) => {
                let ghost moves = self.moves@.push(index as int);
                proof {
                    assert(moves.drop_last() =~= self.moves@);
                }
                *self = Game {
                    board,
                    player: self.player,
                    turn: self.turn.opponent(),
                    moves: Ghost(moves),
                };
                Ok(())
            },
            Err(e) => Err(e),
        }
    }
}

} // verus!
