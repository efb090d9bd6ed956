use tic_tac_toe::{Board, Cell};

const E: Cell = Cell::Empty;
const X: Cell = Cell::X;
const O: Cell = Cell::O;

fn board(cells: [Cell; 9]) -> Board {
    Board { cells }
}

#[test]
fn test_best_move() {
    let mut board = Board::new();
    let first = board.best_move(Cell::X);
    assert!(
        first == Some(4)
            || first == Some(0)
            || first == Some(2)
            || first == Some(6)
            || first == Some(8),
        "Empty board should pick a corner or center, got {:?}",
        first
    );

    board.cells = [Cell::Empty; 9];
    board.cells[0] = Cell::X;
    board.cells[1] = Cell::X;
    assert_eq!(board.best_move(Cell::X), Some(2));

    board.cells = [Cell::Empty; 9];
    board.cells[3] = Cell::O;
    board.cells[4] = Cell::O;
    assert_eq!(board.best_move(Cell::X), Some(5));

    board.cells = [
        Cell::X, Cell::O, Cell::X,
        Cell::O, Cell::X, Cell::O,
        Cell::X, Cell::O, Cell::X,
    ];
    assert_eq!(board.best_move(Cell::X), None);

    board.cells = [Cell::Empty; 9];
    board.cells[4] = Cell::O;
    let next_move = board.best_move(Cell::X);
    assert!(
        next_move == Some(0)
            || next_move == Some(2)
            || next_move == Some(6)
            || next_move == Some(8)
    );

    board.cells = [Cell::Empty; 9];
    assert_eq!(board.best_move(Cell::Empty), None);
}

#[test]
fn empty_board_opens_in_the_first_corner() {
    // Every opening move leads to a draw, none blocks anything: the lowest
    // index is taken.
    assert_eq!(Board::new().best_move(X), Some(0));
    assert_eq!(Board::new().best_move(O), Some(0));
}

#[test]
fn completes_its_own_line() {
    let b = board([X, X, E, E, E, E, E, E, E]);
    assert_eq!(b.best_move(X), Some(2));
    let b = board([O, E, E, E, O, E, X, X, E]);
    assert_eq!(b.best_move(O), Some(8));
    assert_eq!(b.best_move(X), Some(8));
}

#[test]
fn blocks_the_threat() {
    let b = board([E, E, E, O, O, E, E, E, E]);
    assert_eq!(b.best_move(X), Some(5));
    let b = board([X, E, E, E, X, E, E, E, E]);
    assert_eq!(b.best_move(O), Some(8));
}

#[test]
fn answers_the_center_with_a_corner() {
    let b = board([E, E, E, E, O, E, E, E, E]);
    assert_eq!(b.best_move(X), Some(0));
}

#[test]
fn prefers_a_block_among_equal_moves() {
    // O threatens at 1 and at 3, so every move of X loses. Cell 0 comes
    // first but blocks nothing; cell 1 is the first that blocks.
    let b = board([E, E, X, E, O, O, X, O, E]);
    assert_eq!(b.minimax(X, X), -1);
    assert!(!b.is_block_move(0, X));
    assert!(b.is_block_move(1, X));
    assert!(b.is_block_move(3, X));
    assert_eq!(b.best_move(X), Some(1));
}

#[test]
fn keeps_the_first_of_equal_moves_when_none_blocks() {
    // All four corners draw and the edges lose: the first corner is kept.
    let b = board([E, E, E, E, X, E, E, E, E]);
    assert_eq!(b.best_move(O), Some(0));
}

#[test]
fn keeps_the_first_block_when_several_block() {
    let b = board([E, E, X, E, O, O, X, O, E]);
    // 1 and 3 both block and are worth the same: 1 stays.
    assert_eq!(b.best_move(X), Some(1));
}

#[test]
fn a_better_move_beats_a_block() {
    // X could block at 1, which draws, but wins at once at 2.
    let b = board([E, E, E, E, O, X, E, O, X]);
    assert!(b.is_block_move(1, X));
    assert!(!b.is_block_move(2, X));
    assert_eq!(b.best_move(X), Some(2));
}

#[test]
fn an_equal_move_that_comes_first_stays_over_a_later_one() {
    // O wins at 3 at once, and also after the block at 2, which comes
    // first.
    let b = board([X, X, E, E, O, O, E, E, E]);
    assert_eq!(b.best_move(O), Some(2));
}

#[test]
fn full_board_has_no_move_for_either_side() {
    let b = board([X, O, X, X, O, O, O, X, X]);
    assert!(b.is_full());
    assert_eq!(b.check_winner(), None);
    assert_eq!(b.best_move(X), None);
    assert_eq!(b.best_move(O), None);
    assert_eq!(b.best_move(E), None);
    for i in 0..12 {
        assert!(!b.legal_move(i));
    }
}

#[test]
fn no_move_for_the_empty_symbol() {
    let boards = [
        Board::new(),
        board([X, E, E, E, O, E, E, E, E]),
        board([X, X, E, O, O, E, E, E, E]),
        board([X, O, X, X, O, O, O, X, E]),
        board([X, O, X, X, O, O, O, X, X]),
    ];
    for b in boards.iter() {
        assert_eq!(b.best_move(E), None);
    }
}

#[test]
fn best_move_is_the_same_every_time() {
    let boards = [
        Board::new(),
        board([E, E, E, E, O, E, E, E, E]),
        board([X, O, E, E, X, E, E, E, O]),
        board([E, E, X, E, O, O, X, O, E]),
    ];
    for b in boards.iter() {
        for p in [X, O, E] {
            let first = b.best_move(p);
            assert_eq!(b.best_move(p), first);
            assert_eq!(b.clone().best_move(p), first);
        }
    }
}

#[test]
fn best_move_is_an_empty_cell() {
    let boards = [
        Board::new(),
        board([X, E, E, E, O, E, E, E, E]),
        board([X, O, X, E, O, E, E, E, E]),
        board([X, O, X, X, O, O, E, E, E]),
        board([X, O, X, X, O, O, O, X, E]),
        board([X, X, X, E, O, O, E, E, E]),
    ];
    for b in boards.iter() {
        for p in [X, O] {
            match b.best_move(p) {
                Some(i) => {
                    assert!(i < 9);
                    assert_eq!(b.cells[i], E);
                }
                None => assert!(b.is_full()),
            }
        }
    }
}

#[test]
fn best_move_leaves_the_board_alone() {
    let b = board([X, O, E, E, X, E, E, E, O]);
    let before = b.cells;
    let _ = b.best_move(X);
    let _ = b.minimax(O, X);
    assert_eq!(b.cells, before);
}

#[test]
fn minimax_scores_a_finished_game() {
    let x_won = board([X, X, X, O, O, E, E, E, E]);
    assert_eq!(x_won.minimax(O, X), 1);
    assert_eq!(x_won.minimax(O, O), -1);
    assert_eq!(x_won.minimax(X, X), 1);
    let o_won = board([O, X, X, E, O, X, E, E, O]);
    assert_eq!(o_won.minimax(X, X), -1);
    assert_eq!(o_won.minimax(X, O), 1);
    let drawn = board([X, O, X, X, O, O, O, X, X]);
    assert_eq!(drawn.minimax(X, X), 0);
    assert_eq!(drawn.minimax(O, X), 0);
    assert_eq!(drawn.minimax(X, O), 0);
    // A finished game has its value whoever is said to move.
    assert_eq!(x_won.minimax(E, X), 1);
    assert_eq!(drawn.minimax(E, O), 0);
}

#[test]
fn minimax_of_the_opening_is_a_draw() {
    assert_eq!(Board::new().minimax(X, X), 0);
    assert_eq!(Board::new().minimax(X, O), 0);
    assert_eq!(Board::new().minimax(O, O), 0);
}

#[test]
fn minimax_takes_the_best_for_the_side_to_move() {
    // X to move wins at 2.
    let b = board([X, X, E, O, O, E, E, E, E]);
    assert_eq!(b.minimax(X, X), 1);
    assert_eq!(b.minimax(X, O), -1);
    // O to move wins at 5.
    assert_eq!(b.minimax(O, X), -1);
    assert_eq!(b.minimax(O, O), 1);
    // One cell left, and it draws.
    let b = board([X, O, X, X, O, O, O, X, E]);
    assert_eq!(b.minimax(X, X), 0);
    assert_eq!(b.minimax(O, X), 0);
}

#[test]
fn minimax_is_antisymmetric() {
    let boards = [
        Board::new(),
        board([X, X, X, O, O, E, E, E, E]),
        board([O, X, X, E, O, X, E, E, O]),
        board([X, O, X, X, O, O, O, X, X]),
        board([X, X, E, O, O, E, E, E, E]),
        board([E, E, X, E, O, O, X, O, E]),
        board([X, E, E, E, O, E, E, E, E]),
    ];
    for b in boards.iter() {
        for turn in [X, O] {
            assert_eq!(b.minimax(turn, X), -b.minimax(turn, O));
        }
    }
}

#[test]
fn minimax_stays_in_range() {
    let boards = [
        Board::new(),
        board([X, E, E, E, O, E, E, E, E]),
        board([X, O, X, E, O, E, E, E, E]),
        board([X, X, O, O, O, X, X, O, E]),
    ];
    for b in boards.iter() {
        for turn in [X, O] {
            for m in [X, O, E] {
                let v = b.minimax(turn, m);
                assert!(v == -1 || v == 0 || v == 1);
            }
        }
    }
}

#[test]
fn recommended_move_keeps_the_value_of_the_position() {
    let boards = [
        Board::new(),
        board([X, E, E, E, O, E, E, E, E]),
        board([X, X, E, O, O, E, E, E, E]),
        board([E, E, X, E, O, O, X, O, E]),
    ];
    for b in boards.iter() {
        for p in [X, O] {
            let i = b.best_move(p).unwrap();
            let mut next = b.clone();
            next.place(i, p).unwrap();
            assert_eq!(next.minimax(p.opponent(), p), b.minimax(p, p));
        }
    }
}

#[test]
fn perfect_play_against_itself_is_a_draw() {
    let mut b = Board::new();
    let mut turn = X;
    while let Some(i) = b.best_move(turn) {
        if b.check_winner().is_some() {
            break;
        }
        b.place(i, turn).unwrap();
        turn = turn.opponent();
    }
    assert!(b.is_full());
    assert_eq!(b.check_winner(), None);
}
