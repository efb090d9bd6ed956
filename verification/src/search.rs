//! The search: the value of a position under perfect play by both sides, and
//! the move that it recommends.

use vstd::prelude::*;
use crate::board::Board;
use crate::cell::Cell;
use crate::rules::{spec_is_block_move, spec_is_full, spec_is_over, spec_legal_move, spec_winner};

verus! {

/// 1 for an empty cell, 0 for a taken one.
pub open spec fn spec_vacant(c: Cell) -> int {
    if c == Cell::Empty {
        1
    } else {
        0
    }
}

/// How many of the nine cells are empty. Every move lowers it by one, which
/// is why the search ends.
pub open spec fn spec_empty_count(cells: Seq<Cell>) -> int {
    spec_vacant(cells[0]) + spec_vacant(cells[1]) + spec_vacant(cells[2])
        + spec_vacant(cells[3]) + spec_vacant(cells[4]) + spec_vacant(cells[5])
        + spec_vacant(cells[6]) + spec_vacant(cells[7]) + spec_vacant(cells[8])
}

/// The better of two scores for the side to move: the larger one when that
/// side is the maximizer, the smaller one when it is not.
pub open spec fn spec_pick(maximizing: bool, a: int, b: int) -> int {
    if maximizing {
        if b > a {
            b
        } else {
            a
        }
    } else {
        if b < a {
            b
        } else {
            a
        }
    }
}

/// The value of a position for `maximizer` when `turn` is to move and both
/// sides play perfectly: 1 if `maximizer` wins, -1 if the other side wins, 0
/// for a draw.
///
/// A finished game has the value of its outcome. Otherwise the value is the
/// best of the values that the moves of `turn` lead to: the largest when
/// `turn` is the maximizer, the smallest when it is not.
pub open spec fn spec_minimax(cells: Seq<Cell>, turn: Cell, maximizer: Cell) -> int
    decreases spec_empty_count(cells), 10int,
{
    match spec_winner(cells) {
        Some(w) => if w == maximizer {
            1
        } else {
            -1
        },
        None => if spec_is_full(cells) {
            0
        } else {
            match spec_best_reply(cells, turn, maximizer, 9) {
                Some(v) => v,
                None => 0,
            }
        },
    }
}

/// The best value that `turn` can reach by moving to an empty cell below
/// `n`, or `None` if no cell below `n` is empty.
pub open spec fn spec_best_reply(
    cells: Seq<Cell>,
    turn: Cell,
    maximizer: Cell,
    n: int,
) -> Option<int>
    decreases spec_empty_count(cells), n,
    when cells.len() == 9 && turn != Cell::Empty && n <= 9
{
    if n <= 0 {
        None
    } else {
        let rest = spec_best_reply(cells, turn, maximizer, n - 1);
        if cells[n - 1] == Cell::Empty {
            let score = spec_minimax(cells.update(n - 1, turn), turn.spec_opponent(), maximizer);
            match rest {
                Some(best) => Some(spec_pick(turn == maximizer, best, score)),
                None => Some(score),
            }
        } else {
            rest
        }
    }
}

/// What the move to `i` is worth to `player`: the value of the position
/// that it leaves, with the opponent to move.
pub open spec fn spec_move_value(cells: Seq<Cell>, player: Cell, i: int) -> int {
    spec_minimax(cells.update(i, player), player.spec_opponent(), player)
}

/// The move to `i` is legal and no legal move is worth more.
pub open spec fn spec_optimal_move(cells: Seq<Cell>, player: Cell, i: int) -> bool {
    &&& spec_legal_move(cells, i)
    &&& forall|j: int| #[trigger]
        spec_legal_move(cells, j) ==> spec_move_value(cells, player, j)
            <= spec_move_value(cells, player, i)
}

/// The move to `i` is optimal, and it blocks a threat if any optimal move
/// does.
pub open spec fn spec_preferred_move(cells: Seq<Cell>, player: Cell, i: int) -> bool {
    &&& spec_optimal_move(cells, player, i)
    &&& (exists|j: int| #[trigger]
        spec_optimal_move(cells, player, j) && spec_is_block_move(cells, j, player))
        ==> spec_is_block_move(cells, i, player)
}

/// The move to `i` is the preferred move with the lowest index.
pub open spec fn spec_chosen_move(cells: Seq<Cell>, player: Cell, i: int) -> bool {
    &&& spec_preferred_move(cells, player, i)
    &&& forall|j: int| 0 <= j < i ==> !#[trigger] spec_preferred_move(cells, player, j)
}

/// The recommended move: none for `Empty` or on a full board, otherwise the
/// lowest preferred move.
pub open spec fn spec_best_move(cells: Seq<Cell>, player: Cell) -> Option<usize> {
    if player == Cell::Empty || spec_is_full(cells) {
        None
    } else {
        Some(choose|i: usize| spec_chosen_move(cells, player, i as int))
    }
}

/// At most one move is the chosen one.
pub proof fn lemma_chosen_move_unique(cells: Seq<Cell>, player: Cell, a: int, b: int)
    requires
        spec_chosen_move(cells, player, a),
        spec_chosen_move(cells, player, b),
    ensures
        a == b,
{
    // The lower of two different moves would be a preferred move below the
    // other.
    if a < b {
        assert(!spec_preferred_move(cells, player, a));
    } else if b < a {
        assert(!spec_preferred_move(cells, player, b));
    }
}

impl Board {
    /// The value of this position for `maximizing_player` when `turn` is to
    /// move.
    pub fn minimax(&self, turn: Cell, maximizing_player: Cell) -> (r: i32)
        requires
            turn != Cell::Empty || spec_is_over(self@),
        ensures
            r == spec_minimax(self@, turn, maximizing_player),
            -1 <= r <= 1,
        decreases spec_empty_count(self@),
    {
        if let Some(winner) = self.check_winner() {
            return if winner == maximizing_player {
                1
            } else {
                -1
            };
        }
        if self.is_full() {
            return 0;
        }
        let opponent = turn.opponent();
        let maximizing = turn == maximizing_player;
        let mut best: i32 = if maximizing {
            i32::MIN
        } else {
            i32::MAX
        };
        let mut i: usize = 0;
        while i < 9
            invariant
                i <= 9,
                turn != Cell::Empty,
                opponent == turn.spec_opponent(),
                maximizing == (turn == maximizing_player),
                spec_best_reply(self@, turn, maximizing_player, i as int) is None
                    <==> forall|j: int| 0 <= j < i ==> self@[j] != Cell::Empty,
                match spec_best_reply(self@, turn, maximizing_player, i as int) {
                    Some(v) => best == v && -1 <= v <= 1,
                    None => best == if maximizing {
                        i32::MIN
                    } else {
                        i32::MAX
                    },
                },
            decreases 9 - i,
        {
            if self.cells[i] == Cell::Empty {
                let mut board = *self;
                board.cells[i] = turn;
                let score = board.minimax(opponent, maximizing_player);
                if maximizing {
                    if score > best {
                        best = score;
                    }
                } else {
                    if score < best {
                        best = score;
                    }
                }
            }
            i += 1;
        }
        best
    }

    /// The cell that `player` should take: a move of the highest value, and
    /// among those the first that blocks a threat, or the first of all if
    /// none does. `None` if `player` is `Empty` or no cell is left.
    pub fn best_move(&self, player: Cell) -> (r: Option<usize>)
        ensures
            r == spec_best_move(self@, player),
            r is None <==> player == Cell::Empty || spec_is_full(self@),
            r matches Some(i) ==> i < 9 && self@[i as int] == Cell::Empty,
            r matches Some(i) ==> spec_chosen_move(self@, player, i as int),
    {
        let opponent = match player {
            Cell::X => Cell::O,
            Cell::O => Cell::X,
            Cell::Empty => {
                return None;
            },
        };
        let mut best_score: i32 = i32::MIN;
        let mut best_move: Option<usize> = None;
        let mut i: usize = 0;
        while i < 9
            invariant
                i <= 9,
                player != Cell::Empty,
                opponent == player.spec_opponent(),
                best_move is None ==> best_score == i32::MIN,
                best_move is None <==> forall|j: int| 0 <= j < i ==> self@[j] != Cell::Empty,
                best_move matches Some(b) ==> {
                    let best = b as int;
                    &&& b < i
                    &&& spec_legal_move(self@, best)
                    &&& best_score == spec_move_value(self@, player, best)
                    // No move so far is worth more.
                    &&& forall|j: int|
                        0 <= j < i && #[trigger] spec_legal_move(self@, j)
                            ==> spec_move_value(self@, player, j) <= best_score
                    // If a move so far that is worth as much blocks, so does `b`.
                    &&& forall|j: int|
                        0 <= j < i && #[trigger] spec_legal_move(self@, j)
                            && spec_move_value(self@, player, j) == best_score
                            && spec_is_block_move(self@, j, player)
                            ==> spec_is_block_move(self@, best, player)
                    // An earlier move that is worth as much was passed over for a block.
                    &&& forall|j: int|
                        0 <= j < b && #[trigger] spec_legal_move(self@, j)
                            && spec_move_value(self@, player, j) == best_score
                            ==> !spec_is_block_move(self@, j, player)
                                && spec_is_block_move(self@, best, player)
                },
            decreases 9 - i,
        {
            if self.cells[i] == Cell::Empty {
                let mut board = *self;
                board.cells[i] = player;
                let score = board.minimax(opponent, player);
                if score > best_score {
                    best_score = score;
                    best_move = Some(i);
                } else if score == best_score {
                    let block_curr = self.is_block_move(i, player);
                    if let Some(bm) = best_move {
                        if block_curr && !self.is_block_move(bm, player) {
                            best_move = Some(i);
                        }
                    }
                }
            }
            i += 1;
        }
        proof {
            if let Some(b) = best_move {
                assert(spec_preferred_move(self@, player, b as int));
                assert(spec_chosen_move(self@, player, b as int));
                let c = choose|c: usize| spec_chosen_move(self@, player, c as int);
                lemma_chosen_move_unique(self@, player, b as int, c as int);
            }
        }
        best_move
    }
}

} // verus!
