//! The course of a game: whose turn it is, what a move leads to, and the
//! count of results over a series of games.

use crate::board::{make_move, Board};
use crate::cell::CellState;
use crate::rules::{cell_index, is_full, is_legal_move, place, winner_of};
use vstd::prelude::*;

verus! {

/// How a game stands. It is read off the board, never stored with it.
#[derive(Clone, Copy, Debug, PartialEq, Eq, Structural)]
pub enum GameOutcome {
    InProgress,
    Winner(CellState),
    Draw,
}

/// How the game on these cells stands: won by the holder of a line, drawn
/// when the board is full without a winner, in progress otherwise.
pub open spec fn outcome_of(cells: Seq<CellState>) -> GameOutcome {
    match winner_of(cells) {
        Some(mark) => GameOutcome::Winner(mark),
        None => if is_full(cells) {
            GameOutcome::Draw
        } else {
            GameOutcome::InProgress
        },
    }
}

/// How the game on `board` stands.
pub fn outcome(board: &Board) -> (result: GameOutcome)
    ensures
        result == outcome_of(board@),
{
    match board.get_winner() {
        Some(mark) => GameOutcome::Winner(mark),
        None => if board.is_full() {
            GameOutcome::Draw
        } else {
            GameOutcome::InProgress
        },
    }
}

/// A game under way: the board and the mark that moves next.
#[derive(Clone, Copy, Debug)]
pub struct Game {
    pub board: Board,
    pub turn: CellState,
}

impl Game {
    /// A game on an empty board, with `first` to move.
    pub fn new(first: CellState) -> (game: Game)
        ensures
            game.board@ == Seq::new(9, |i: int| CellState::Empty),
            game.turn == first,
    {
        Game { board: Board::new(), turn: first }
    }

    /// Plays `move_coord` for the mark whose turn it is.
    ///
    /// An illegal move is refused: the answer is `None` and the game is as
    /// it was. A legal move is placed and the answer tells how the game
    /// stands after it; the turn passes to the rival only while the game
    /// goes on.
    pub fn play(&mut self, move_coord: (usize, usize)) -> (played: Option<GameOutcome>)
        ensures
            played is Some <==> is_legal_move(old(self).board@, move_coord),
            played is None ==> *final(self) == *old(self),
            played matches Some(result) ==> {
                &&& final(self).board@ == place(
                    old(self).board@,
                    cell_index(move_coord.0 as int, move_coord.1 as int),
                    old(self).turn,
                )
                &&& result == outcome_of(final(self).board@)
                &&& final(self).turn == if result == GameOutcome::InProgress {
                    old(self).turn.rival()
                } else {
                    old(self).turn
                }
            },
    {
        if !self.board.is_valid_move(move_coord) {
            return None;
        }
        self.board = make_move(&self.board, move_coord, self.turn);
        let result = outcome(&self.board);
        if result == GameOutcome::InProgress {
            self.turn = self.turn.opposite();
        }
        Some(result)
    }
}

/// The results of a series of games.
#[derive(Clone, Copy, Debug)]
pub struct Tally {
    pub x_wins: u32,
    pub o_wins: u32,
    pub draws: u32,
}

impl Tally {
    /// The number of games counted.
    pub open spec fn games(self) -> int {
        self.x_wins + self.o_wins + self.draws
    }

    /// No game counted yet.
    pub fn new() -> (tally: Tally)
        ensures
            tally.x_wins == 0,
            tally.o_wins == 0,
            tally.draws == 0,
    {
        Tally { x_wins: 0, o_wins: 0, draws: 0 }
    }

    /// Counts a finished game. A game in progress, or one won by no mark,
    /// counts for nothing.
    pub fn record(&mut self, result: GameOutcome)
        requires
            old(self).games() < u32::MAX,
        ensures
            final(self).x_wins == old(self).x_wins + if result == GameOutcome::Winner(
                CellState::X,
            ) {
                1int
            } else {
                0int
            },
            final(self).o_wins == old(self).o_wins + if result == GameOutcome::Winner(
                CellState::O,
            ) {
                1int
            } else {
                0int
            },
            final(self).draws == old(self).draws + if result == GameOutcome::Draw {
                1int
            } else {
                0int
            },
    {
        match result {
            GameOutcome::Winner(CellState::X) => {
                self.x_wins = self.x_wins + 1;
            },
            GameOutcome::Winner(CellState::O) => {
                self.o_wins = self.o_wins + 1;
            },
            GameOutcome::Draw => {
                self.draws = self.draws + 1;
            },
            _ => {},
        }
    }
}

} // verus!
