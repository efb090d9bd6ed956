//! What holds of the rules and of the search on every board.

use vstd::prelude::*;
use crate::cell::Cell;
use crate::game::{spec_legal_play, spec_mover, spec_play};
use crate::lines::spec_line;
use crate::rules::{
    spec_is_block_move, spec_is_full, spec_is_over, spec_legal_move, spec_line_won, spec_winner,
    spec_winning_line,
};
use crate::search::{
    spec_best_move, spec_best_reply, spec_chosen_move, spec_empty_count, spec_minimax,
    spec_move_value, spec_preferred_move,
};

verus! {

/// The winning line is the first complete line in the order of the lines,
/// and there is none exactly if no line is complete.
pub proof fn lemma_winning_line_is_first(cells: Seq<Cell>)
    ensures
        match spec_winning_line(cells) {
            Some(k) => {
                &&& 0 <= k < 8
                &&& spec_line_won(cells, k)
                &&& forall|j: int| 0 <= j < k ==> !spec_line_won(cells, j)
            },
            None => forall|j: int| 0 <= j < 8 ==> !spec_line_won(cells, j),
        },
{
}

/// A move lowers the number of empty cells by one.
pub proof fn lemma_move_fills_a_cell(cells: Seq<Cell>, i: int, player: Cell)
    requires
        cells.len() == 9,
        spec_legal_move(cells, i),
        player != Cell::Empty,
    ensures
        spec_empty_count(cells.update(i, player)) == spec_empty_count(cells) - 1,
{
}

/// After a move on a board without a complete line, every complete line
/// belongs to the side that moved.
pub proof fn lemma_move_wins_only_for_mover(cells: Seq<Cell>, i: int, player: Cell)
    requires
        cells.len() == 9,
        spec_winner(cells) is None,
        spec_legal_move(cells, i),
        player != Cell::Empty,
    ensures
        forall|k: int|
            0 <= k < 8 && #[trigger] spec_line_won(cells.update(i, player), k)
                ==> cells.update(i, player)[spec_line(k).0] == player,
        spec_winner(cells.update(i, player)) is Some
            ==> spec_winner(cells.update(i, player)) == Some(player),
{
    let after = cells.update(i, player);
    assert forall|k: int| 0 <= k < 8 && #[trigger] spec_line_won(after, k)
        implies after[spec_line(k).0] == player by {
        // The line was not complete before, so the move lies on it.
        assert(!spec_line_won(cells, k));
    }
}

/// However a game went, if the sides took turns, moved only to empty cells
/// and stopped when it was over, then all complete lines on the board hold
/// one symbol, the one that `check_winner` reports: no board of a legal game
/// is won by both sides.
pub proof fn lemma_legal_play_has_one_winner(first: Cell, moves: Seq<int>)
    requires
        first != Cell::Empty,
        spec_legal_play(first, moves),
    ensures
        spec_play(first, moves).len() == 9,
        forall|k: int|
            0 <= k < 8 && #[trigger] spec_line_won(spec_play(first, moves), k)
                ==> spec_winner(spec_play(first, moves))
                    == Some(spec_play(first, moves)[spec_line(k).0]),
    decreases moves.len(),
{
    if moves.len() == 0 {
        assert forall|k: int| 0 <= k < 8
            implies !#[trigger] spec_line_won(spec_play(first, moves), k) by {}
    } else {
        lemma_legal_play_has_one_winner(first, moves.drop_last());
        let before = spec_play(first, moves.drop_last());
        let player = spec_mover(first, moves.len() - 1);
        lemma_move_wins_only_for_mover(before, moves.last(), player);
    }
}

/// On a full board no move is legal, and the search recommends none,
/// whoever asks.
pub proof fn lemma_full_board_has_no_move(cells: Seq<Cell>, player: Cell)
    requires
        spec_is_full(cells),
    ensures
        forall|i: int| !#[trigger] spec_legal_move(cells, i),
        spec_best_move(cells, player) is None,
{
}

/// What the best reply is: `None` exactly if no cell below `n` is empty;
/// otherwise a value that some move to a cell below `n` reaches and that no
/// such move improves on, for the side to move.
pub proof fn lemma_best_reply_is_extreme(cells: Seq<Cell>, turn: Cell, maximizer: Cell, n: int)
    requires
        cells.len() == 9,
        turn != Cell::Empty,
        0 <= n <= 9,
    ensures
        spec_best_reply(cells, turn, maximizer, n) is None
            <==> forall|j: int| 0 <= j < n ==> !#[trigger] spec_legal_move(cells, j),
        spec_best_reply(cells, turn, maximizer, n) matches Some(v) ==> {
            &&& exists|j: int|
                0 <= j < n && #[trigger] spec_legal_move(cells, j)
                    && spec_minimax(cells.update(j, turn), turn.spec_opponent(), maximizer) == v
            &&& forall|j: int|
                0 <= j < n && #[trigger] spec_legal_move(cells, j) ==> if turn == maximizer {
                    spec_minimax(cells.update(j, turn), turn.spec_opponent(), maximizer) <= v
                } else {
                    spec_minimax(cells.update(j, turn), turn.spec_opponent(), maximizer) >= v
                }
        },
    decreases n,
{
    if n > 0 {
        lemma_best_reply_is_extreme(cells, turn, maximizer, n - 1);
        if cells[n - 1] == Cell::Empty {
            assert(spec_legal_move(cells, n - 1));
        }
    }
}

/// In a game that is not over, the value of the position is the value of the
/// best move of the side to move: some legal move reaches it, and no legal
/// move is better for that side (larger for the maximizer, smaller for the
/// other side).
pub proof fn lemma_minimax_is_best_reply(cells: Seq<Cell>, turn: Cell, maximizer: Cell)
    requires
        cells.len() == 9,
        turn != Cell::Empty,
        !spec_is_over(cells),
    ensures
        exists|j: int| #[trigger]
            spec_legal_move(cells, j)
                && spec_minimax(cells.update(j, turn), turn.spec_opponent(), maximizer)
                    == spec_minimax(cells, turn, maximizer),
        forall|j: int| #[trigger]
            spec_legal_move(cells, j) ==> if turn == maximizer {
                spec_minimax(cells.update(j, turn), turn.spec_opponent(), maximizer)
                    <= spec_minimax(cells, turn, maximizer)
            } else {
                spec_minimax(cells.update(j, turn), turn.spec_opponent(), maximizer)
                    >= spec_minimax(cells, turn, maximizer)
            },
{
    lemma_best_reply_is_extreme(cells, turn, maximizer, 9);
    let i = choose|i: int| 0 <= i < 9 && cells[i] == Cell::Empty;
    assert(spec_legal_move(cells, i));
}

/// The value of a position is 1, 0 or -1.
pub proof fn lemma_minimax_range(cells: Seq<Cell>, turn: Cell, maximizer: Cell)
    requires
        cells.len() == 9,
        turn != Cell::Empty || spec_is_over(cells),
    ensures
        -1 <= spec_minimax(cells, turn, maximizer) <= 1,
    decreases spec_empty_count(cells),
{
    if !spec_is_over(cells) {
        lemma_minimax_is_best_reply(cells, turn, maximizer);
        let j = choose|j: int| #[trigger]
            spec_legal_move(cells, j)
                && spec_minimax(cells.update(j, turn), turn.spec_opponent(), maximizer)
                    == spec_minimax(cells, turn, maximizer);
        lemma_move_fills_a_cell(cells, j, turn);
        lemma_minimax_range(cells.update(j, turn), turn.spec_opponent(), maximizer);
    }
}

/// The value of a position for one side is the negative of its value for
/// the other: what is a win for X as maximizer is a loss for O as
/// maximizer, and a draw is a draw for both.
pub proof fn lemma_minimax_antisymmetric(cells: Seq<Cell>, turn: Cell, maximizer: Cell)
    requires
        cells.len() == 9,
        turn != Cell::Empty || spec_is_over(cells),
        maximizer != Cell::Empty,
    ensures
        spec_minimax(cells, turn, maximizer.spec_opponent())
            == -spec_minimax(cells, turn, maximizer),
    decreases spec_empty_count(cells), 10int,
{
    if !spec_is_over(cells) {
        lemma_best_reply_antisymmetric(cells, turn, maximizer, 9);
    }
}

/// The best reply for one side as maximizer is the negative of the best
/// reply for the other.
pub proof fn lemma_best_reply_antisymmetric(
    cells: Seq<Cell>,
    turn: Cell,
    maximizer: Cell,
    n: int,
)
    requires
        cells.len() == 9,
        turn != Cell::Empty,
        maximizer != Cell::Empty,
        0 <= n <= 9,
    ensures
        match spec_best_reply(cells, turn, maximizer, n) {
            Some(v) => spec_best_reply(cells, turn, maximizer.spec_opponent(), n) == Some(-v),
            None => spec_best_reply(cells, turn, maximizer.spec_opponent(), n) is None,
        },
    decreases spec_empty_count(cells), n,
{
    if n > 0 {
        lemma_best_reply_antisymmetric(cells, turn, maximizer, n - 1);
        if cells[n - 1] == Cell::Empty {
            lemma_move_fills_a_cell(cells, n - 1, turn);
            lemma_minimax_antisymmetric(cells.update(n - 1, turn), turn.spec_opponent(), maximizer);
        }
    }
}

/// Among the legal moves below `n`, picks the one that the search holds
/// after it has looked at them: one of the highest value, blocking if any
/// of that value blocks, and the first such.
proof fn lemma_scan_moves(cells: Seq<Cell>, player: Cell, n: int) -> (b: int)
    requires
        0 <= n <= 9,
        exists|j: int| 0 <= j < n && #[trigger] spec_legal_move(cells, j),
    ensures
        0 <= b < n,
        spec_legal_move(cells, b),
        forall|j: int|
            0 <= j < n && #[trigger] spec_legal_move(cells, j)
                ==> spec_move_value(cells, player, j) <= spec_move_value(cells, player, b),
        forall|j: int|
            0 <= j < n && #[trigger] spec_legal_move(cells, j)
                && spec_move_value(cells, player, j) == spec_move_value(cells, player, b)
                && spec_is_block_move(cells, j, player)
                ==> spec_is_block_move(cells, b, player),
        forall|j: int|
            0 <= j < b && #[trigger] spec_legal_move(cells, j)
                && spec_move_value(cells, player, j) == spec_move_value(cells, player, b)
                ==> !spec_is_block_move(cells, j, player) && spec_is_block_move(cells, b, player),
    decreases n,
{
    let i = n - 1;
    if !exists|j: int| 0 <= j < i && #[trigger] spec_legal_move(cells, j) {
        i
    } else {
        let held = lemma_scan_moves(cells, player, i);
        if !spec_legal_move(cells, i) {
            held
        } else if spec_move_value(cells, player, i) > spec_move_value(cells, player, held) {
            i
        } else if spec_move_value(cells, player, i) == spec_move_value(cells, player, held)
            && spec_is_block_move(cells, i, player) && !spec_is_block_move(cells, held, player) {
            i
        } else {
            held
        }
    }
}

/// Whenever a player asks and a cell is left, a move is recommended, and
/// it is the chosen one: legal, of the highest value, blocking if a move of
/// that value blocks, and the first such. In particular the recommended
/// cell is never a taken one.
pub proof fn lemma_best_move_is_chosen(cells: Seq<Cell>, player: Cell)
    requires
        player != Cell::Empty,
        !spec_is_full(cells),
    ensures
        spec_best_move(cells, player) matches Some(i) && spec_chosen_move(cells, player, i as int),
        spec_best_move(cells, player) matches Some(i) && i < 9 && cells[i as int] == Cell::Empty,
{
    let e = choose|e: int| 0 <= e < 9 && cells[e] == Cell::Empty;
    assert(spec_legal_move(cells, e));
    let b = lemma_scan_moves(cells, player, 9);
    assert(spec_preferred_move(cells, player, b));
    assert(spec_chosen_move(cells, player, (b as usize) as int));
}

/// In a game that is not over, the recommended move is worth exactly the
/// value of the position with `player` to move: the search gives nothing
/// away.
pub proof fn lemma_best_move_keeps_value(cells: Seq<Cell>, player: Cell, i: usize)
    requires
        cells.len() == 9,
        player != Cell::Empty,
        !spec_is_over(cells),
        spec_best_move(cells, player) == Some(i),
    ensures
        spec_move_value(cells, player, i as int) == spec_minimax(cells, player, player),
{
    lemma_best_move_is_chosen(cells, player);
    lemma_minimax_is_best_reply(cells, player, player);
    let j = choose|j: int| #[trigger]
        spec_legal_move(cells, j)
            && spec_minimax(cells.update(j, player), player.spec_opponent(), player)
                == spec_minimax(cells, player, player);
    // The recommended move is worth at least as much as the one that reaches
    // the value, and no move is worth more than the value.
    assert(spec_move_value(cells, player, j) <= spec_move_value(cells, player, i as int));
}

} // verus!
