//! The random and the two greedy strategies.
//!
//! Each strategy maps a board and the mark to move to a legal move. The
//! greedy ones look one ply ahead and fall back on a random legal move.

use crate::board::{coord_of, Board};
use crate::cell::CellState;
use crate::rules::{
    cell_index, is_full, is_legal_move, is_vacant, law_legal_moves, legal_moves,
    lemma_vacant_below, place, winner_of,
};
use rand::seq::SliceRandom;
use vstd::prelude::*;

verus! {

/// Placing `mark` on cell `index` is legal and wins the game at once.
pub open spec fn wins_at(cells: Seq<CellState>, index: int, mark: CellState) -> bool {
    is_vacant(cells, index) && winner_of(place(cells, index, mark)) == Some(mark)
}

/// `mark` has a move that wins at once.
pub open spec fn has_win(cells: Seq<CellState>, mark: CellState) -> bool {
    exists|i: int| wins_at(cells, i, mark)
}

/// `index` is the lowest cell on which `mark` wins at once.
pub open spec fn is_first_win(cells: Seq<CellState>, mark: CellState, index: int) -> bool {
    wins_at(cells, index, mark) && forall|j: int| j < index ==> !wins_at(cells, j, mark)
}

/// What the win-seeking strategy may answer: a legal move, and the first
/// winning one whenever there is a winning move.
pub open spec fn is_greedy_win_choice(
    cells: Seq<CellState>,
    mark: CellState,
    move_coord: (usize, usize),
) -> bool {
    &&& is_legal_move(cells, move_coord)
    &&& has_win(cells, mark) ==> is_first_win(
        cells,
        mark,
        cell_index(move_coord.0 as int, move_coord.1 as int),
    )
}

/// What the win-seeking, loss-blocking strategy may answer: a legal move;
/// the first winning one whenever there is a winning move; failing that,
/// the first cell on which the rival would win, whenever there is one.
pub open spec fn is_greedy_win_block_choice(
    cells: Seq<CellState>,
    mark: CellState,
    move_coord: (usize, usize),
) -> bool {
    &&& is_legal_move(cells, move_coord)
    &&& has_win(cells, mark) ==> is_first_win(
        cells,
        mark,
        cell_index(move_coord.0 as int, move_coord.1 as int),
    )
    &&& !has_win(cells, mark) && has_win(cells, mark.rival()) ==> is_first_win(
        cells,
        mark.rival(),
        cell_index(move_coord.0 as int, move_coord.1 as int),
    )
}

/// Draws one of `candidates` with `rand`'s thread-local generator, through
/// `rand::thread_rng` and `rand::seq::SliceRandom::choose`.
///
/// Trusted, not proved: `choose` answers `None` for an empty slice and
/// otherwise some element of the slice. Which element is left open, and two
/// calls may differ. `thread_rng` gives up at its first use in a thread if
/// the system has no randomness to seed it with.
#[verifier::external_body]
fn choose_one(candidates: &Vec<usize>) -> (picked: Option<usize>)
    ensures
        candidates@.len() == 0 ==> picked is None,
        candidates@.len() > 0 ==> picked is Some && candidates@.contains(picked->0),
{
    let mut rng = rand::thread_rng();
    candidates.choose(&mut rng).copied()
}

/// Returns random coordinates for the move irrespective of the player's
/// turn: some empty cell of the board.
pub fn random_ai(board: &Board, _player_turn: CellState) -> (move_coord: (usize, usize))
    requires
        !is_full(board@),
    ensures
        is_legal_move(board@, move_coord),
{
    let empty_cells = board.get_legal_moves();
    proof {
        law_legal_moves(board@);
    }
    match choose_one(&empty_cells) {
        Some(index) => coord_of(index),
        // Nothing is drawn only from an empty list, and this one is not.
        None => coord_of(empty_cells[0]),
    }
}

/// The first cell, in ascending order, on which `player` would complete a
/// line; `None` when no move wins at once.
pub fn winning_move(board: &Board, player: CellState) -> (found: Option<usize>)
    ensures
        match found {
            Some(index) => is_first_win(board@, player, index as int),
            None => !has_win(board@, player),
        },
{
    let empty_cells = board.get_legal_moves();
    proof {
        board.lemma_nine_cells();
    }
    let mut k: usize = 0;
    while k < empty_cells.len()
        invariant
            k <= empty_cells.len(),
            empty_cells@ == legal_moves(board@),
            board@.len() == 9,
            forall|p: int|
                0 <= p < k ==> !wins_at(board@, #[trigger] empty_cells[p] as int, player),
        decreases empty_cells.len() - k,
    {
        proof {
            lemma_vacant_below(board@, 9);
        }
        let index = empty_cells[k];
        let mut new_board: Board = *board;
        new_board.set_cell(index, player);
        let wins = match new_board.get_winner() {
            Some(winner) => winner == player,
            None => false,
        };
        if wins {
            proof {
                assert forall|j: int| j < index implies !wins_at(board@, j, player) by {
                    if wins_at(board@, j, player) {
                        let p = choose|p: int|
                            0 <= p < empty_cells.len() && #[trigger] empty_cells[p] == j;
                    }
                }
            }
            return Some(index);
        }
        k += 1;
    }
    proof {
        lemma_vacant_below(board@, 9);
        assert forall|j: int| !wins_at(board@, j, player) by {
            if wins_at(board@, j, player) {
                let p = choose|p: int|
                    0 <= p < empty_cells.len() && #[trigger] empty_cells[p] == j;
            }
        }
    }
    None
}

/// Returns the coordinates of the winning move if there is one, otherwise
/// returns a random move.
pub fn finds_winning_moves_ai(
    board: &Board,
    player_turn: CellState,
) -> (move_coord: (usize, usize))
    requires
        !is_full(board@),
    ensures
        is_greedy_win_choice(board@, player_turn, move_coord),
{
    match winning_move(board, player_turn) {
        Some(index) => coord_of(index),
        None => random_ai(board, player_turn),
    }
}

/// Returns the coordinates of the winning move, blocks a losing move,
/// otherwise returns a random move.
pub fn finds_winning_and_losing_moves_ai(
    board: &Board,
    player_turn: CellState,
) -> (move_coord: (usize, usize))
    requires
        !is_full(board@),
    ensures
        is_greedy_win_block_choice(board@, player_turn, move_coord),
{
    match winning_move(board, player_turn) {
        Some(index) => coord_of(index),
        None => match winning_move(board, player_turn.opposite()) {
            Some(index) => coord_of(index),
            None => random_ai(board, player_turn),
        },
    }
}

/// When exactly one move wins at once, the win-seeking strategy plays it.
pub proof fn law_sole_winning_move_is_played(
    cells: Seq<CellState>,
    mark: CellState,
    win: int,
    move_coord: (usize, usize),
)
    requires
        wins_at(cells, win, mark),
        forall|j: int| wins_at(cells, j, mark) ==> j == win,
        is_greedy_win_choice(cells, mark, move_coord),
    ensures
        cell_index(move_coord.0 as int, move_coord.1 as int) == win,
        move_coord == ((win % 3) as usize, (win / 3) as usize),
{
}

/// When no move wins at once and exactly one cell would let the rival win
/// at once, the blocking strategy plays on that cell.
pub proof fn law_sole_blocking_move_is_played(
    cells: Seq<CellState>,
    mark: CellState,
    block: int,
    move_coord: (usize, usize),
)
    requires
        !has_win(cells, mark),
        wins_at(cells, block, mark.rival()),
        forall|j: int| wins_at(cells, j, mark.rival()) ==> j == block,
        is_greedy_win_block_choice(cells, mark, move_coord),
    ensures
        cell_index(move_coord.0 as int, move_coord.1 as int) == block,
        move_coord == ((block % 3) as usize, (block / 3) as usize),
{
}

/// The blocking strategy never passes over a win: whenever a move wins at
/// once, it answers as the win-seeking strategy does.
pub proof fn law_block_strategy_wins_first(
    cells: Seq<CellState>,
    mark: CellState,
    move_coord: (usize, usize),
)
    requires
        has_win(cells, mark),
        is_greedy_win_block_choice(cells, mark, move_coord),
    ensures
        is_greedy_win_choice(cells, mark, move_coord),
{
}

} // verus!
