//! A perfect-play engine for tic-tac-toe.
//!
//! The board is a 3×3 grid of [`Cell`]s, indexed row by row:
//!
//! ```text
//! 0 1 2
//! 3 4 5
//! 6 7 8
//! ```
//!
//! Every function carries a contract over the view of a board, a
//! `Seq<Cell>`, and all but three are proved against it. The three are the
//! wrappers of [`console`] round `str::trim`, `str::parse` and
//! `str::to_lowercase`: their contracts say what std documents and are
//! believed. The view of a [`Board`] is that of its array and has nine
//! cells; [`WasmBoard`] and [`Game`] keep their board to themselves, and
//! say in their contracts and in `lemma_nine_cells` that it has nine cells.
//!
//! - [`cell`], [`board`], [`lines`]: the data.
//! - [`rules`]: [`Board::check_winner`], [`Board::is_full`],
//!   [`Board::is_block_move`] and what goes with them.
//! - [`search`]: [`Board::minimax`], the value of a position under perfect
//!   play, and [`Board::best_move`], the move to make.
//! - [`laws`]: what holds of the rules and the search on every board.
//! - [`game`]: one game between a player and the engine, step by step.
//! - [`console`]: the board as text and the reading of a player's answers.
//! - [`binding`]: the board behind an interface of small integers.

pub mod cell;
pub mod board;
pub mod lines;
pub mod rules;
pub mod search;
pub mod laws;
pub mod game;
pub mod console;
pub mod binding;

pub use binding::WasmBoard;
pub use board::{Board, IllegalMove};
pub use cell::Cell;
pub use game::{Game, Step, Verdict};
pub use rules::GameResult;
