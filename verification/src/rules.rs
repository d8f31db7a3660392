//! The rules of the game, stated over a plain sequence of nine cells.
//!
//! Everything here is ghost code: the executable board in [`crate::board`]
//! is proved against these definitions, and the lemmas below are the facts
//! about them that the rest of the crate relies on.

use crate::cell::CellState;
use vstd::prelude::*;

verus! {

/// Index of the cell at column `x`, row `y`.
pub open spec fn cell_index(x: int, y: int) -> int {
    x + 3 * y
}

/// The three cell indices of a winning line. Lines `0..3` are the rows,
/// `3..6` the columns, `6` and `7` the two diagonals.
pub open spec fn line_cells(line: int) -> (int, int, int) {
    if line == 0 {
        (0, 1, 2)
    } else if line == 1 {
        (3, 4, 5)
    } else if line == 2 {
        (6, 7, 8)
    } else if line == 3 {
        (0, 3, 6)
    } else if line == 4 {
        (1, 4, 7)
    } else if line == 5 {
        (2, 5, 8)
    } else if line == 6 {
        (0, 4, 8)
    } else {
        (2, 4, 6)
    }
}

/// All three cells of `line` hold `mark`, and `mark` is a player's mark.
pub open spec fn line_held_by(cells: Seq<CellState>, line: int, mark: CellState) -> bool {
    let (a, b, c) = line_cells(line);
    mark.is_mark() && cells[a] == mark && cells[b] == mark && cells[c] == mark
}

/// Some player holds all three cells of `line`.
pub open spec fn line_complete(cells: Seq<CellState>, line: int) -> bool {
    line_held_by(cells, line, CellState::X) || line_held_by(cells, line, CellState::O)
}

/// The holder of the first complete line at or after `line`, if there is one.
pub open spec fn winner_from(cells: Seq<CellState>, line: int) -> Option<CellState>
    decreases 8 - line,
{
    if line >= 8 {
        None
    } else if line_held_by(cells, line, CellState::X) {
        Some(CellState::X)
    } else if line_held_by(cells, line, CellState::O) {
        Some(CellState::O)
    } else {
        winner_from(cells, line + 1)
    }
}

/// The winner of a position: the holder of the first complete line in the
/// fixed order of [`line_cells`].
pub open spec fn winner_of(cells: Seq<CellState>) -> Option<CellState> {
    winner_from(cells, 0)
}

/// Cell `index` is on the board and empty, so a mark may be placed there.
pub open spec fn is_vacant(cells: Seq<CellState>, index: int) -> bool {
    0 <= index < 9 && cells[index] == CellState::Empty
}

/// The move `(x, y)` names a cell on the board, and that cell is empty.
pub open spec fn is_legal_move(cells: Seq<CellState>, move_coord: (usize, usize)) -> bool {
    move_coord.0 <= 2 && move_coord.1 <= 2 && is_vacant(
        cells,
        cell_index(move_coord.0 as int, move_coord.1 as int),
    )
}

/// No cell is empty.
pub open spec fn is_full(cells: Seq<CellState>) -> bool {
    forall|i: int| 0 <= i < 9 ==> cells[i] != CellState::Empty
}

/// The game has ended: somebody has won, or no cell is left.
pub open spec fn is_over(cells: Seq<CellState>) -> bool {
    winner_of(cells) is Some || is_full(cells)
}

/// The vacant indices below `bound`, in ascending order.
pub open spec fn vacant_below(cells: Seq<CellState>, bound: int) -> Seq<usize>
    decreases bound,
{
    if bound <= 0 {
        Seq::empty()
    } else if is_vacant(cells, bound - 1) {
        vacant_below(cells, bound - 1).push((bound - 1) as usize)
    } else {
        vacant_below(cells, bound - 1)
    }
}

/// The legal moves of a position: every vacant index, in ascending order.
pub open spec fn legal_moves(cells: Seq<CellState>) -> Seq<usize> {
    vacant_below(cells, 9)
}

/// The position after `mark` is placed on cell `index`.
pub open spec fn place(cells: Seq<CellState>, index: int, mark: CellState) -> Seq<CellState> {
    cells.update(index, mark)
}

/// The mark that moves at step `step` of a game opened by `first`.
pub open spec fn mover_at(first: CellState, step: int) -> CellState {
    if step % 2 == 0 {
        first
    } else {
        first.rival()
    }
}

/// `after` is the position that one move of `mover` makes of `before`.
pub open spec fn is_ply(before: Seq<CellState>, after: Seq<CellState>, mover: CellState) -> bool {
    exists|index: int| is_vacant(before, index) && after == #[trigger] place(before, index, mover)
}

/// `positions` are the successive positions of a game that `first` opens:
/// the marks move in turn, each on a vacant cell.
pub open spec fn is_game(positions: Seq<Seq<CellState>>, first: CellState) -> bool {
    &&& positions.len() > 0
    &&& positions[0].len() == 9
    &&& first.is_mark()
    &&& forall|k: int|
        0 <= k < positions.len() - 1 ==> is_ply(
            #[trigger] positions[k],
            positions[k + 1],
            mover_at(first, k),
        )
}

/// The number of empty cells.
pub open spec fn vacancies(cells: Seq<CellState>) -> nat {
    legal_moves(cells).len()
}

/// A winner is always one of the two marks, never `Empty`.
pub proof fn lemma_winner_is_mark(cells: Seq<CellState>, line: int)
    ensures
        winner_from(cells, line) matches Some(mark) ==> mark.is_mark(),
    decreases 8 - line,
{
    if line < 8 {
        lemma_winner_is_mark(cells, line + 1);
    }
}

/// Scanning from `from`, a line held by `mark` decides the winner unless the
/// rival holds a line that comes before it.
proof fn lemma_held_line_wins_from(cells: Seq<CellState>, from: int, line: int, mark: CellState)
    requires
        0 <= from <= line < 8,
        line_held_by(cells, line, mark),
        forall|k: int| from <= k < line ==> !line_held_by(cells, k, mark.rival()),
    ensures
        winner_from(cells, from) == Some(mark),
    decreases line - from,
{
    if from < line {
        lemma_held_line_wins_from(cells, from + 1, line, mark);
    }
}

/// Scanning from `from`, there is no winner exactly when no line at or after
/// `from` is complete; and a winner holds one of those lines.
proof fn lemma_winner_from_lines(cells: Seq<CellState>, from: int)
    requires
        0 <= from <= 8,
    ensures
        winner_from(cells, from) is None <==> forall|l: int|
            from <= l < 8 ==> !line_complete(cells, l),
        winner_from(cells, from) matches Some(mark) ==> exists|l: int|
            from <= l < 8 && line_held_by(cells, l, mark),
    decreases 8 - from,
{
    if from < 8 {
        lemma_winner_from_lines(cells, from + 1);
        if winner_from(cells, from) is None {
            assert forall|l: int| from <= l < 8 implies !line_complete(cells, l) by {}
        } else {
            assert(line_complete(cells, from) || winner_from(cells, from + 1) is Some);
        }
    }
}

/// If one player holds every cell of a winning line, and the rival holds no
/// line that comes earlier in the fixed order, that player is the winner.
///
/// Without the condition on earlier lines the claim is false of a board on
/// which both players hold a line: there the line that comes first decides.
pub proof fn law_held_line_wins(cells: Seq<CellState>, line: int, mark: CellState)
    requires
        0 <= line < 8,
        line_held_by(cells, line, mark),
        forall|k: int| 0 <= k < line ==> !line_held_by(cells, k, mark.rival()),
    ensures
        winner_of(cells) == Some(mark),
{
    lemma_held_line_wins_from(cells, 0, line, mark);
}

/// While nobody has won, a move can complete a line only for the player who
/// makes it, and that player is then the winner: in a game that stops at
/// the first win, whoever holds a line has won.
pub proof fn law_a_completed_line_wins(
    before: Seq<CellState>,
    index: int,
    mover: CellState,
    line: int,
    mark: CellState,
)
    requires
        before.len() == 9,
        winner_of(before) is None,
        is_vacant(before, index),
        0 <= line < 8,
        line_held_by(place(before, index, mover), line, mark),
    ensures
        mark == mover,
        winner_of(place(before, index, mover)) == Some(mark),
{
    let after = place(before, index, mover);
    law_no_winner_iff_no_line_complete(before);
    assert(!line_complete(before, line));
    assert forall|k: int| 0 <= k < line implies !line_held_by(after, k, mark.rival()) by {
        assert(!line_complete(before, k));
    }
    law_held_line_wins(after, line, mark);
}

/// There is no winner exactly when no winning line is complete.
pub proof fn law_no_winner_iff_no_line_complete(cells: Seq<CellState>)
    ensures
        winner_of(cells) is None <==> forall|l: int| 0 <= l < 8 ==> !line_complete(cells, l),
{
    lemma_winner_from_lines(cells, 0);
}

/// The winner is a mark and holds one of the eight lines.
pub proof fn law_winner_holds_a_line(cells: Seq<CellState>, mark: CellState)
    requires
        winner_of(cells) == Some(mark),
    ensures
        mark.is_mark(),
        exists|l: int| 0 <= l < 8 && line_held_by(cells, l, mark),
{
    lemma_winner_is_mark(cells, 0);
    lemma_winner_from_lines(cells, 0);
}

/// What [`vacant_below`] lists: vacant indices below the bound, strictly
/// ascending, none missing.
pub proof fn lemma_vacant_below(cells: Seq<CellState>, bound: int)
    requires
        bound <= 9,
    ensures
        vacant_below(cells, bound).len() <= if bound < 0 { 0 } else { bound },
        forall|k: int|
            0 <= k < vacant_below(cells, bound).len() ==> is_vacant(
                cells,
                #[trigger] vacant_below(cells, bound)[k] as int,
            ) && vacant_below(cells, bound)[k] < bound,
        forall|j: int, k: int|
            0 <= j < k < vacant_below(cells, bound).len() ==> vacant_below(cells, bound)[j]
                < vacant_below(cells, bound)[k],
        forall|i: int|
            0 <= i < bound && is_vacant(cells, i) ==> exists|k: int|
                0 <= k < vacant_below(cells, bound).len() && #[trigger] vacant_below(
                    cells,
                    bound,
                )[k] == i,
    decreases bound,
{
    if bound > 0 {
        lemma_vacant_below(cells, bound - 1);
        let before = vacant_below(cells, bound - 1);
        let all = vacant_below(cells, bound);
        if is_vacant(cells, bound - 1) {
            assert forall|i: int| 0 <= i < bound && is_vacant(cells, i) implies exists|k: int|
                0 <= k < all.len() && #[trigger] all[k] == i by {
                if i == bound - 1 {
                    assert(all[before.len() as int] == i);
                } else {
                    let k = choose|k: int| 0 <= k < before.len() && #[trigger] before[k] == i;
                    assert(all[k] == i);
                }
            }
        } else {
            assert forall|i: int| 0 <= i < bound && is_vacant(cells, i) implies exists|k: int|
                0 <= k < all.len() && #[trigger] all[k] == i by {
                let k = choose|k: int| 0 <= k < before.len() && #[trigger] before[k] == i;
            }
        }
    }
}

/// The legal moves are exactly the vacant indices, each listed once, in
/// ascending order; there is none exactly when the board is full.
pub proof fn law_legal_moves(cells: Seq<CellState>)
    ensures
        legal_moves(cells).len() <= 9,
        forall|k: int|
            0 <= k < legal_moves(cells).len() ==> is_vacant(
                cells,
                #[trigger] legal_moves(cells)[k] as int,
            ),
        forall|j: int, k: int|
            0 <= j < k < legal_moves(cells).len() ==> legal_moves(cells)[j] < legal_moves(
                cells,
            )[k],
        forall|i: int|
            is_vacant(cells, i) ==> exists|k: int|
                0 <= k < legal_moves(cells).len() && #[trigger] legal_moves(cells)[k] == i,
        is_full(cells) <==> legal_moves(cells).len() == 0,
{
    lemma_vacant_below(cells, 9);
    let moves = legal_moves(cells);
    if moves.len() > 0 {
        assert(is_vacant(cells, moves[0] as int));
    } else {
        assert forall|i: int| 0 <= i < 9 implies cells[i] != CellState::Empty by {
            if is_vacant(cells, i) {
                let k = choose|k: int| 0 <= k < moves.len() && #[trigger] moves[k] == i;
            }
        }
    }
}

/// A move changes the cell it is played on and no other.
pub proof fn law_place_changes_one_cell(cells: Seq<CellState>, index: int, mark: CellState)
    requires
        cells.len() == 9,
        0 <= index < 9,
    ensures
        place(cells, index, mark).len() == 9,
        place(cells, index, mark)[index] == mark,
        forall|i: int| 0 <= i < 9 && i != index ==> place(cells, index, mark)[i] == cells[i],
{
}

/// A legal move never takes a mark off the board: every cell that held a
/// mark before the move holds the same mark after it.
pub proof fn law_marks_stay(cells: Seq<CellState>, index: int, mark: CellState)
    requires
        cells.len() == 9,
        is_vacant(cells, index),
    ensures
        forall|i: int|
            0 <= i < 9 && cells[i].is_mark() ==> place(cells, index, mark)[i] == cells[i],
{
}

/// Placing a mark on a vacant cell leaves one empty cell fewer.
pub proof fn lemma_place_fills(cells: Seq<CellState>, index: int, mark: CellState)
    requires
        cells.len() == 9,
        is_vacant(cells, index),
        mark.is_mark(),
    ensures
        vacancies(place(cells, index, mark)) + 1 == vacancies(cells),
{
    lemma_place_fills_below(cells, index, mark, 9);
}

proof fn lemma_place_fills_below(cells: Seq<CellState>, index: int, mark: CellState, bound: int)
    requires
        cells.len() == 9,
        is_vacant(cells, index),
        mark.is_mark(),
        bound <= 9,
    ensures
        vacant_below(place(cells, index, mark), bound).len() + (if index < bound {
            1int
        } else {
            0int
        }) == vacant_below(cells, bound).len(),
        index >= bound ==> vacant_below(place(cells, index, mark), bound) == vacant_below(
            cells,
            bound,
        ),
    decreases bound,
{
    if bound > 0 {
        lemma_place_fills_below(cells, index, mark, bound - 1);
    }
}

/// Every move of a game fills a cell: after `k` moves the board has `k`
/// empty cells fewer than at the start.
pub proof fn law_each_ply_fills_a_cell(positions: Seq<Seq<CellState>>, first: CellState, k: int)
    requires
        is_game(positions, first),
        0 <= k < positions.len(),
    ensures
        positions[k].len() == 9,
        vacancies(positions[k]) + k == vacancies(positions[0]),
    decreases k,
{
    if k > 0 {
        law_each_ply_fills_a_cell(positions, first, k - 1);
        let before = positions[k - 1];
        let mover = mover_at(first, k - 1);
        let index = choose|index: int|
            is_vacant(before, index) && positions[k] == #[trigger] place(before, index, mover);
        lemma_place_fills(before, index, mover);
    }
}

/// No game is longer than the board has empty cells at its start, so none
/// is longer than nine moves.
pub proof fn law_game_ends_within_nine_plies(positions: Seq<Seq<CellState>>, first: CellState)
    requires
        is_game(positions, first),
    ensures
        positions.len() - 1 <= vacancies(positions[0]) <= 9,
{
    law_each_ply_fills_a_cell(positions, first, positions.len() - 1);
    law_legal_moves(positions[0]);
}

} // verus!
