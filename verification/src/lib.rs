//! A noughts-and-crosses engine: the board, the rules that decide a game,
//! and four move-selection strategies of increasing strength.

pub mod ai;
pub mod board;
pub mod cell;
pub mod game;
pub mod input;
pub mod layout;
pub mod minimax;
pub mod player;
pub mod render;
pub mod rules;

pub use ai::{finds_winning_and_losing_moves_ai, finds_winning_moves_ai, random_ai, winning_move};
pub use board::{coord_of, make_move, Board};
pub use cell::CellState;
pub use game::{outcome, Game, GameOutcome, Tally};
pub use input::parse_coordinate;
pub use minimax::{minimax_ai, minimax_score};
pub use player::{Cli, Player};
pub use render::render_board;
