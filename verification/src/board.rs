//! The 3x3 grid and the rules read off it.

use crate::cell::CellState;
use crate::rules::{
    cell_index, is_full, is_legal_move, legal_moves, line_cells, place, vacant_below, winner_from,
    winner_of,
};
use vstd::prelude::*;

verus! {

/// Nine cells in row-major order: the cell at column `x`, row `y` has index `x + 3 * y`.
#[derive(Clone, Copy, Debug)]
pub struct Board {
    cells: [CellState; 9],
}

impl View for Board {
    type V = Seq<CellState>;

    closed spec fn view(&self) -> Seq<CellState> {
        self.cells@
    }
}

impl Board {
    /// Every board has exactly nine cells.
    pub proof fn lemma_nine_cells(self)
        ensures
            self@.len() == 9,
    {
    }

    /// A board with every cell empty.
    pub fn new() -> (board: Board)
        ensures
            board@ == Seq::new(9, |i: int| CellState::Empty),
    {
        Board { cells: [CellState::Empty; 9] }
    }

    /// The state of cell `index`.
    pub fn get_cell(&self, index: usize) -> (state: CellState)
        requires
            index < 9,
        ensures
            state == self@[index as int],
    {
        self.cells[index]
    }

    /// Sets cell `index` to `cell_state` and leaves every other cell alone.
    pub fn set_cell(&mut self, index: usize, cell_state: CellState)
        requires
            index < 9,
        ensures
            final(self)@ == old(self)@.update(index as int, cell_state),
    {
        self.cells[index] = cell_state;
    }

    /// Get the winner of the game: the holder of the first complete line,
    /// `None` when no line is complete.
    pub fn get_winner(&self) -> (winner: Option<CellState>)
        ensures
            winner == winner_of(self@),
    {
        let mut line: usize = 0;
        while line < 8
            invariant
                line <= 8,
                winner_of(self@) == winner_from(self@, line as int),
            decreases 8 - line,
        {
            let (a, b, c) = line_at(line);
            let first = self.cells[a];
            if first != CellState::Empty && self.cells[b] == first && self.cells[c] == first {
                return Some(first);
            }
            line += 1;
        }
        None
    }

    /// Whether no cell is empty.
    pub fn is_full(&self) -> (full: bool)
        ensures
            full == is_full(self@),
    {
        let mut index: usize = 0;
        while index < 9
            invariant
                index <= 9,
                forall|i: int| 0 <= i < index ==> self@[i] != CellState::Empty,
            decreases 9 - index,
        {
            if self.cells[index] == CellState::Empty {
                return false;
            }
            index += 1;
        }
        true
    }

    /// Get legal moves for the player: the indices of the empty cells, ascending.
    pub fn get_legal_moves(&self) -> (moves: Vec<usize>)
        ensures
            moves@ == legal_moves(self@),
    {
        let mut moves: Vec<usize> = Vec::new();
        let mut index: usize = 0;
        while index < 9
            invariant
                index <= 9,
                moves@ == vacant_below(self@, index as int),
            decreases 9 - index,
        {
            if self.cells[index] == CellState::Empty {
                moves.push(index);
            }
            index += 1;
        }
        moves
    }

    /// Checks if the move is valid, i.e. the coordinates are on the board
    /// and the cell they name is empty.
    pub fn is_valid_move(&self, move_coord: (usize, usize)) -> (valid: bool)
        ensures
            valid == is_legal_move(self@, move_coord),
    {
        if move_coord.0 > 2 || move_coord.1 > 2 {
            return false;
        }
        let index: usize = move_coord.0 + move_coord.1 * 3;
        self.cells[index] == CellState::Empty
    }
}

/// The cell indices of winning line `line`.
fn line_at(line: usize) -> (cells: (usize, usize, usize))
    requires
        line < 8,
    ensures
        cells.0 < 9,
        cells.1 < 9,
        cells.2 < 9,
        (cells.0 as int, cells.1 as int, cells.2 as int) == line_cells(line as int),
{
    match line {
        0 => (0, 1, 2),
        1 => (3, 4, 5),
        2 => (6, 7, 8),
        3 => (0, 3, 6),
        4 => (1, 4, 7),
        5 => (2, 5, 8),
        6 => (0, 4, 8),
        _ => (2, 4, 6),
    }
}

/// The move that places a mark on cell `index`: column `index % 3`, row
/// `index / 3`.
pub fn coord_of(index: usize) -> (move_coord: (usize, usize))
    requires
        index < 9,
    ensures
        move_coord == (index % 3, index / 3),
        move_coord.0 <= 2,
        move_coord.1 <= 2,
        cell_index(move_coord.0 as int, move_coord.1 as int) == index,
{
    (index % 3, index / 3)
}

/// Executes the move on a copy of the board; the board passed in is only read.
pub fn make_move(board: &Board, move_coord: (usize, usize), player: CellState) -> (next: Board)
    requires
        move_coord.0 <= 2,
        move_coord.1 <= 2,
    ensures
        next@ == place(board@, cell_index(move_coord.0 as int, move_coord.1 as int), player),
{
    let mut new_board: Board = *board;
    let index: usize = move_coord.0 + move_coord.1 * 3;
    new_board.set_cell(index, player);
    new_board
}

} // verus!
