use tic_tac_toe::{Cell, Game, GameResult, IllegalMove, Step, Verdict};

const E: Cell = Cell::Empty;
const X: Cell = Cell::X;
const O: Cell = Cell::O;

fn after(player: Cell, moves: &[usize]) -> Game {
    let mut g = Game::new(player);
    for &i in moves {
        g.play(i).unwrap();
    }
    g
}

#[test]
fn new_game_has_x_to_move_on_an_empty_board() {
    for p in [X, O, E] {
        let g = Game::new(p);
        assert_eq!(g.board().cells, [E; 9]);
        assert_eq!(g.turn(), X);
        assert_eq!(g.player(), p);
        assert_eq!(g.result(), GameResult::InProgress);
    }
}

#[test]
fn player_with_x_is_asked_first() {
    assert_eq!(Game::new(X).next_step(), Step::AskPlayer);
}

#[test]
fn engine_opens_when_the_player_has_o() {
    assert_eq!(Game::new(O).next_step(), Step::EngineMove(0));
}

#[test]
fn play_places_the_side_to_move_and_passes_the_turn() {
    let mut g = Game::new(X);
    assert_eq!(g.play(4), Ok(()));
    assert_eq!(g.board().cells, [E, E, E, E, X, E, E, E, E]);
    assert_eq!(g.turn(), O);
    assert_eq!(g.play(0), Ok(()));
    assert_eq!(g.board().cells, [O, E, E, E, X, E, E, E, E]);
    assert_eq!(g.turn(), X);
    assert_eq!(g.player(), X);
}

#[test]
fn play_refuses_an_illegal_move_and_changes_nothing() {
    let mut g = after(X, &[4]);
    assert_eq!(g.play(4), Err(IllegalMove));
    assert_eq!(g.play(9), Err(IllegalMove));
    assert_eq!(g.play(usize::MAX), Err(IllegalMove));
    assert_eq!(g.board().cells, [E, E, E, E, X, E, E, E, E]);
    assert_eq!(g.turn(), O);
}

#[test]
fn play_refuses_a_move_in_a_finished_game() {
    let mut g = after(X, &[0, 3, 1, 4, 2]);
    assert_eq!(g.result(), GameResult::Win(X));
    let before = g.board().cells;
    assert_eq!(g.play(8), Err(IllegalMove));
    assert_eq!(g.board().cells, before);
    assert_eq!(g.turn(), O);
}

#[test]
fn engine_answers_after_the_player() {
    let g = after(X, &[4]);
    assert_eq!(g.next_step(), Step::EngineMove(0));
    let g = after(X, &[0, 4, 1]);
    // O blocks the row.
    assert_eq!(g.next_step(), Step::EngineMove(2));
    let g = after(X, &[4, 0]);
    assert_eq!(g.next_step(), Step::AskPlayer);
}

#[test]
fn verdict_is_told_from_the_side_of_the_player() {
    let moves = [0, 3, 1, 4, 2];
    assert_eq!(after(X, &moves).next_step(), Step::Finished(Verdict::PlayerWins));
    assert_eq!(after(O, &moves).next_step(), Step::Finished(Verdict::PlayerLoses));
    assert_eq!(after(E, &moves).next_step(), Step::Finished(Verdict::PlayerLoses));
    let moves = [4, 0, 8, 2, 5, 1];
    assert_eq!(after(X, &moves).next_step(), Step::Finished(Verdict::PlayerLoses));
    assert_eq!(after(O, &moves).next_step(), Step::Finished(Verdict::PlayerWins));
}

#[test]
fn full_board_without_a_line_ends_in_a_draw() {
    let moves = [0, 1, 2, 4, 3, 5, 7, 6, 8];
    for p in [X, O] {
        let g = after(p, &moves);
        assert_eq!(g.result(), GameResult::Draw);
        assert_eq!(g.next_step(), Step::Finished(Verdict::Draw));
    }
}

#[test]
fn engine_against_itself_draws() {
    let mut g = Game::new(E);
    let mut count = 0;
    loop {
        match g.next_step() {
            Step::EngineMove(i) => {
                assert_eq!(g.play(i), Ok(()));
                count += 1;
            }
            Step::Finished(v) => {
                assert_eq!(v, Verdict::Draw);
                break;
            }
            Step::AskPlayer => panic!("nobody is at the keyboard"),
        }
    }
    assert_eq!(count, 9);
    assert_eq!(g.result(), GameResult::Draw);
}

/// Follows every line of play in which the player moves as it likes and
/// the engine as it recommends, and counts the games.
fn explore(player: Cell, moves: &mut Vec<usize>, games: &mut usize) {
    let g = after(player, moves);
    match g.next_step() {
        Step::Finished(v) => {
            assert_ne!(v, Verdict::PlayerWins);
            *games += 1;
        }
        Step::EngineMove(i) => {
            moves.push(i);
            explore(player, moves, games);
            moves.pop();
        }
        Step::AskPlayer => {
            for i in 0..9 {
                if g.board().legal_move(i) {
                    moves.push(i);
                    explore(player, moves, games);
                    moves.pop();
                }
            }
        }
    }
}

#[test]
fn engine_never_loses_with_o() {
    let mut games = 0;
    explore(X, &mut Vec::new(), &mut games);
    assert!(games > 0);
}

#[test]
fn engine_never_loses_with_x() {
    let mut games = 0;
    explore(O, &mut Vec::new(), &mut games);
    assert!(games > 0);
}
