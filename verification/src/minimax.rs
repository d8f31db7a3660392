//! Exhaustive game-tree search: the value of a position and the move that
//! secures it.

use crate::board::{coord_of, make_move, Board};
use crate::cell::CellState;
use crate::rules::{
    cell_index, is_full, is_over, is_vacant, law_legal_moves, legal_moves, lemma_place_fills,
    lemma_vacant_below, lemma_winner_is_mark, mover_at, place, vacancies, winner_of,
};
use vstd::prelude::*;

verus! {

/// The better of two values from the point of view of the player to move:
/// the greater when that player is the one whose result is optimized, the
/// lesser otherwise.
pub open spec fn prefer(maximizing: bool, a: int, b: int) -> int {
    if maximizing {
        if b > a {
            b
        } else {
            a
        }
    } else {
        if b < a {
            b
        } else {
            a
        }
    }
}

/// The value, for `optimized`, of the position with `mover` to play, both
/// sides playing perfectly from here on: `10` if `optimized` wins, `-10` if
/// the rival wins, `0` for a draw. A win counts the same however late it comes.
pub open spec fn score_of(cells: Seq<CellState>, mover: CellState, optimized: CellState) -> int
    decreases vacancies(cells), 11int,
    when cells.len() == 9 && mover.is_mark()
{
    if winner_of(cells) == Some(optimized) {
        10
    } else if winner_of(cells) == Some(optimized.rival()) {
        -10
    } else if is_full(cells) {
        0
    } else {
        match best_reply_below(cells, mover, optimized, 9) {
            Some(value) => value,
            None => 0,
        }
    }
}

/// The value, for `optimized`, of the position that `mover` reaches by
/// playing on `index`.
pub open spec fn reply_value(
    cells: Seq<CellState>,
    index: int,
    mover: CellState,
    optimized: CellState,
) -> int
    decreases vacancies(cells), 0int,
    when cells.len() == 9 && mover.is_mark() && is_vacant(cells, index)
{
    proof {
        lemma_place_fills(cells, index, mover);
    }
    score_of(place(cells, index, mover), mover.rival(), optimized)
}

/// The value that `mover` prefers among the replies on vacant cells below
/// `bound`; `None` when no cell below `bound` is vacant.
pub open spec fn best_reply_below(
    cells: Seq<CellState>,
    mover: CellState,
    optimized: CellState,
    bound: int,
) -> Option<int>
    decreases vacancies(cells), 1int + bound,
    when cells.len() == 9 && mover.is_mark() && 0 <= bound <= 9
{
    if bound == 0 {
        None
    } else if is_vacant(cells, bound - 1) {
        let value = reply_value(cells, bound - 1, mover, optimized);
        match best_reply_below(cells, mover, optimized, bound - 1) {
            Some(best) => Some(prefer(mover == optimized, best, value)),
            None => Some(value),
        }
    } else {
        best_reply_below(cells, mover, optimized, bound - 1)
    }
}

/// `index` is the move that the search selects for `mark`: a vacant cell
/// whose reply value no other vacant cell exceeds, and the lowest such cell.
pub open spec fn is_minimax_choice(cells: Seq<CellState>, mark: CellState, index: int) -> bool {
    &&& is_vacant(cells, index)
    &&& forall|j: int|
        is_vacant(cells, j) ==> reply_value(cells, j, mark, mark) <= reply_value(
            cells,
            index,
            mark,
            mark,
        )
    &&& forall|j: int|
        is_vacant(cells, j) && j < index ==> reply_value(cells, j, mark, mark) < reply_value(
            cells,
            index,
            mark,
            mark,
        )
}

/// One move of a game in which `mark` follows the search: the game is not
/// over, `mover` places a mark on a vacant cell, and where `mover` is `mark`
/// that cell is the one the search selects.
pub open spec fn is_minimax_step(
    before: Seq<CellState>,
    after: Seq<CellState>,
    mover: CellState,
    mark: CellState,
) -> bool {
    &&& !is_over(before)
    &&& exists|index: int|
        is_vacant(before, index) && after == #[trigger] place(before, index, mover) && (mover
            == mark ==> is_minimax_choice(before, mark, index))
}

/// `positions` are the successive positions of a game opened by `first` in
/// which `mark` plays what the search selects, while the rival plays any
/// legal move.
pub open spec fn is_minimax_game(
    positions: Seq<Seq<CellState>>,
    first: CellState,
    mark: CellState,
) -> bool {
    &&& positions.len() > 0
    &&& positions[0].len() == 9
    &&& forall|k: int|
        0 <= k < positions.len() - 1 ==> is_minimax_step(
            #[trigger] positions[k],
            positions[k + 1],
            mover_at(first, k),
            mark,
        )
}

/// What [`best_reply_below`] picks: nothing exactly when no cell below the
/// bound is vacant; otherwise the value of a reply on one of those cells,
/// which `mover` prefers to the value of every other.
proof fn lemma_best_reply_below(
    cells: Seq<CellState>,
    mover: CellState,
    optimized: CellState,
    bound: int,
)
    requires
        cells.len() == 9,
        mover.is_mark(),
        0 <= bound <= 9,
    ensures
        best_reply_below(cells, mover, optimized, bound) is None <==> forall|i: int|
            0 <= i < bound ==> !is_vacant(cells, i),
        best_reply_below(cells, mover, optimized, bound) matches Some(best) ==> {
            &&& exists|i: int|
                0 <= i < bound && is_vacant(cells, i) && reply_value(cells, i, mover, optimized)
                    == best
            &&& forall|j: int|
                0 <= j < bound && is_vacant(cells, j) ==> if mover == optimized {
                    reply_value(cells, j, mover, optimized) <= best
                } else {
                    reply_value(cells, j, mover, optimized) >= best
                }
        },
    decreases bound,
{
    if bound > 0 {
        lemma_best_reply_below(cells, mover, optimized, bound - 1);
    }
}

/// A score is that of a win, a draw or a loss.
pub proof fn law_score_is_win_draw_or_loss(
    cells: Seq<CellState>,
    mover: CellState,
    optimized: CellState,
)
    requires
        cells.len() == 9,
        mover.is_mark(),
    ensures
        score_of(cells, mover, optimized) == 10 || score_of(cells, mover, optimized) == 0
            || score_of(cells, mover, optimized) == -10,
    decreases vacancies(cells), 11int,
{
    if !(winner_of(cells) == Some(optimized)) && !(winner_of(cells) == Some(optimized.rival()))
        && !is_full(cells) {
        lemma_best_reply_is_win_draw_or_loss(cells, mover, optimized, 9);
    }
}

proof fn lemma_best_reply_is_win_draw_or_loss(
    cells: Seq<CellState>,
    mover: CellState,
    optimized: CellState,
    bound: int,
)
    requires
        cells.len() == 9,
        mover.is_mark(),
        0 <= bound <= 9,
    ensures
        best_reply_below(cells, mover, optimized, bound) matches Some(best) ==> best == 10 || best
            == 0 || best == -10,
    decreases vacancies(cells), 1int + bound,
{
    if bound > 0 {
        lemma_best_reply_is_win_draw_or_loss(cells, mover, optimized, bound - 1);
        if is_vacant(cells, bound - 1) {
            lemma_place_fills(cells, bound - 1, mover);
            law_score_is_win_draw_or_loss(
                place(cells, bound - 1, mover),
                mover.rival(),
                optimized,
            );
            assert(reply_value(cells, bound - 1, mover, optimized) == score_of(
                place(cells, bound - 1, mover),
                mover.rival(),
                optimized,
            ));
        }
    }
}

/// While the game goes on, the score of a position is the value of one of
/// the mover's replies: the greatest when the mover is the optimized player,
/// the least when the mover is the rival.
pub proof fn law_score_is_best_reply(
    cells: Seq<CellState>,
    mover: CellState,
    optimized: CellState,
)
    requires
        cells.len() == 9,
        mover.is_mark(),
        !is_over(cells),
    ensures
        exists|i: int|
            is_vacant(cells, i) && reply_value(cells, i, mover, optimized) == score_of(
                cells,
                mover,
                optimized,
            ),
        forall|j: int|
            is_vacant(cells, j) ==> if mover == optimized {
                reply_value(cells, j, mover, optimized) <= score_of(cells, mover, optimized)
            } else {
                reply_value(cells, j, mover, optimized) >= score_of(cells, mover, optimized)
            },
{
    lemma_best_reply_below(cells, mover, optimized, 9);
    let i = choose|i: int| 0 <= i < 9 && cells[i] == CellState::Empty;
    assert(is_vacant(cells, i));
}

/// The move that the search selects keeps the score: after it, with the
/// rival to move, the position is worth to `mark` what it was worth before.
pub proof fn law_minimax_choice_keeps_score(cells: Seq<CellState>, mark: CellState, index: int)
    requires
        cells.len() == 9,
        mark.is_mark(),
        !is_over(cells),
        is_minimax_choice(cells, mark, index),
    ensures
        score_of(place(cells, index, mark), mark.rival(), mark) == score_of(cells, mark, mark),
{
    law_score_is_best_reply(cells, mark, mark);
}

/// No move of the rival lowers the score: after it, with `mark` to move,
/// the position is worth to `mark` at least what it was worth before.
pub proof fn law_rival_cannot_lower_score(cells: Seq<CellState>, mark: CellState, index: int)
    requires
        cells.len() == 9,
        mark.is_mark(),
        !is_over(cells),
        is_vacant(cells, index),
    ensures
        score_of(place(cells, index, mark.rival()), mark, mark) >= score_of(
            cells,
            mark.rival(),
            mark,
        ),
{
    law_score_is_best_reply(cells, mark.rival(), mark);
}

/// The score of a finished game: `10` when the optimized player has won,
/// `-10` when the rival has, `0` when the board is full without a winner.
pub proof fn law_score_of_finished_game(
    cells: Seq<CellState>,
    mover: CellState,
    optimized: CellState,
)
    requires
        cells.len() == 9,
        mover.is_mark(),
        optimized.is_mark(),
    ensures
        winner_of(cells) == Some(optimized.rival()) ==> score_of(cells, mover, optimized) == -10,
        winner_of(cells) == Some(optimized) ==> score_of(cells, mover, optimized) == 10,
        winner_of(cells) is None && is_full(cells) ==> score_of(cells, mover, optimized) == 0,
{
}

/// The search never loses a game that it can hold: in a game in which
/// `mark` plays what the search selects, from a position whose score for
/// `mark` is that of a draw or a win, the rival never gets a line, whatever
/// the rival plays.
pub proof fn law_minimax_never_loses(
    positions: Seq<Seq<CellState>>,
    first: CellState,
    mark: CellState,
)
    requires
        first.is_mark(),
        mark.is_mark(),
        is_minimax_game(positions, first, mark),
        score_of(positions[0], first, mark) >= 0,
    ensures
        forall|k: int|
            0 <= k < positions.len() ==> winner_of(#[trigger] positions[k]) != Some(
                mark.rival(),
            ),
{
    assert forall|k: int| 0 <= k < positions.len() implies winner_of(#[trigger] positions[k])
        != Some(mark.rival()) by {
        lemma_minimax_holds_score(positions, first, mark, k);
        law_score_of_finished_game(positions[k], mover_at(first, k), mark);
    }
}

/// What one player wins the other loses: the scores of a position for the
/// two marks are opposite numbers.
pub proof fn law_scores_are_opposite(cells: Seq<CellState>, mover: CellState, mark: CellState)
    requires
        cells.len() == 9,
        mover.is_mark(),
        mark.is_mark(),
    ensures
        score_of(cells, mover, mark.rival()) == -score_of(cells, mover, mark),
    decreases vacancies(cells), 11int,
{
    lemma_winner_is_mark(cells, 0);
    if !is_over(cells) {
        lemma_best_replies_are_opposite(cells, mover, mark, 9);
    }
}

proof fn lemma_best_replies_are_opposite(
    cells: Seq<CellState>,
    mover: CellState,
    mark: CellState,
    bound: int,
)
    requires
        cells.len() == 9,
        mover.is_mark(),
        mark.is_mark(),
        0 <= bound <= 9,
    ensures
        best_reply_below(cells, mover, mark.rival(), bound) == match best_reply_below(
            cells,
            mover,
            mark,
            bound,
        ) {
            Some(best) => Some(-best),
            None => None,
        },
    decreases vacancies(cells), 1int + bound,
{
    if bound > 0 {
        lemma_best_replies_are_opposite(cells, mover, mark, bound - 1);
        if is_vacant(cells, bound - 1) {
            lemma_place_fills(cells, bound - 1, mover);
            law_scores_are_opposite(place(cells, bound - 1, mover), mover.rival(), mark);
            assert(reply_value(cells, bound - 1, mover, mark.rival()) == -reply_value(
                cells,
                bound - 1,
                mover,
                mark,
            ));
        }
    }
}

/// Two searches draw: in a game in which both marks play what the search
/// selects, from a position whose score is that of a draw, nobody ever
/// gets a line.
pub proof fn law_minimax_against_minimax_draws(positions: Seq<Seq<CellState>>, first: CellState)
    requires
        first.is_mark(),
        is_minimax_game(positions, first, CellState::X),
        is_minimax_game(positions, first, CellState::O),
        score_of(positions[0], first, CellState::X) == 0,
    ensures
        forall|k: int| 0 <= k < positions.len() ==> winner_of(#[trigger] positions[k]) is None,
{
    law_scores_are_opposite(positions[0], first, CellState::X);
    law_minimax_never_loses(positions, first, CellState::X);
    law_minimax_never_loses(positions, first, CellState::O);
    assert forall|k: int| 0 <= k < positions.len() implies winner_of(#[trigger] positions[k])
        is None by {
        lemma_winner_is_mark(positions[k], 0);
    }
}

/// Throughout such a game the score for `mark` stays that of a draw or a win.
proof fn lemma_minimax_holds_score(
    positions: Seq<Seq<CellState>>,
    first: CellState,
    mark: CellState,
    k: int,
)
    requires
        first.is_mark(),
        mark.is_mark(),
        is_minimax_game(positions, first, mark),
        score_of(positions[0], first, mark) >= 0,
        0 <= k < positions.len(),
    ensures
        positions[k].len() == 9,
        score_of(positions[k], mover_at(first, k), mark) >= 0,
    decreases k,
{
    if k > 0 {
        lemma_minimax_holds_score(positions, first, mark, k - 1);
        let before = positions[k - 1];
        let mover = mover_at(first, k - 1);
        let index = choose|index: int|
            is_vacant(before, index) && positions[k] == #[trigger] place(before, index, mover)
                && (mover == mark ==> is_minimax_choice(before, mark, index));
        if mover == mark {
            law_minimax_choice_keeps_score(before, mark, index);
        } else {
            law_rival_cannot_lower_score(before, mark, index);
        }
    }
}

/// Occupied cells contribute nothing to the preferred reply value.
proof fn lemma_skip_occupied(
    cells: Seq<CellState>,
    mover: CellState,
    optimized: CellState,
    low: int,
    high: int,
)
    requires
        cells.len() == 9,
        mover.is_mark(),
        0 <= low <= high <= 9,
        forall|i: int| low <= i < high ==> !is_vacant(cells, i),
    ensures
        best_reply_below(cells, mover, optimized, high) == best_reply_below(
            cells,
            mover,
            optimized,
            low,
        ),
    decreases high - low,
{
    if low < high {
        lemma_skip_occupied(cells, mover, optimized, low, high - 1);
    }
}

/// The cells strictly between two consecutive legal moves, before the first
/// and after the last, are all occupied.
proof fn lemma_between_legal_moves(cells: Seq<CellState>, k: int)
    requires
        cells.len() == 9,
        0 <= k <= legal_moves(cells).len(),
    ensures
        forall|i: int|
            (if k == 0 {
                0
            } else {
                legal_moves(cells)[k - 1] + 1
            }) <= i < (if k < legal_moves(cells).len() {
                legal_moves(cells)[k] as int
            } else {
                9
            }) ==> !is_vacant(cells, i),
{
    lemma_vacant_below(cells, 9);
    let moves = legal_moves(cells);
    assert forall|i: int|
        (if k == 0 {
            0
        } else {
            moves[k - 1] + 1
        }) <= i < (if k < moves.len() {
            moves[k] as int
        } else {
            9
        }) implies !is_vacant(cells, i) by {
        if is_vacant(cells, i) {
            let p = choose|p: int| 0 <= p < moves.len() && #[trigger] moves[p] == i;
        }
    }
}

/// The score of the position that `mover` reaches by playing on `index`.
fn score_after(board: &Board, index: usize, mover: CellState, optimized: CellState) -> (score: i32)
    requires
        mover.is_mark(),
        optimized.is_mark(),
        is_vacant(board@, index as int),
    ensures
        score == reply_value(board@, index as int, mover, optimized),
    decreases vacancies(board@), 0int,
{
    proof {
        board.lemma_nine_cells();
        lemma_place_fills(board@, index as int, mover);
    }
    let move_coord = coord_of(index);
    let new_board = make_move(board, move_coord, mover);
    let opponent = mover.opposite();
    minimax_score(&new_board, opponent, optimized)
}

/// Returns the score using minimax algorithm: what `player_to_optimize`
/// gets from this position, with `player_turn` to move, when both sides
/// play perfectly.
pub fn minimax_score(
    board: &Board,
    player_turn: CellState,
    player_to_optimize: CellState,
) -> (score: i32)
    requires
        player_turn.is_mark(),
        player_to_optimize.is_mark(),
    ensures
        score == score_of(board@, player_turn, player_to_optimize),
    decreases vacancies(board@), 1int,
{
    proof {
        board.lemma_nine_cells();
    }
    let winner = match board.get_winner() {
        Some(mark) => mark,
        None => CellState::Empty,
    };
    if winner == player_to_optimize {
        return 10;
    } else if winner == player_to_optimize.opposite() {
        return -10;
    } else if board.is_full() {
        return 0;
    }
    let moves = board.get_legal_moves();
    let maximizing = player_turn == player_to_optimize;
    proof {
        law_legal_moves(board@);
        lemma_between_legal_moves(board@, 0);
        lemma_skip_occupied(board@, player_turn, player_to_optimize, 0, moves[0] as int);
    }
    let mut best: i32 = score_after(board, moves[0], player_turn, player_to_optimize);
    let mut k: usize = 1;
    while k < moves.len()
        invariant
            1 <= k <= moves.len(),
            moves@ == legal_moves(board@),
            board@.len() == 9,
            player_turn.is_mark(),
            player_to_optimize.is_mark(),
            maximizing == (player_turn == player_to_optimize),
            best_reply_below(board@, player_turn, player_to_optimize, moves[k - 1] + 1) == Some(
                best as int,
            ),
        decreases moves.len() - k,
    {
        proof {
            lemma_vacant_below(board@, 9);
        }
        let index = moves[k];
        let value = score_after(board, index, player_turn, player_to_optimize);
        proof {
            lemma_between_legal_moves(board@, k as int);
            lemma_skip_occupied(
                board@,
                player_turn,
                player_to_optimize,
                moves[k - 1] + 1,
                index as int,
            );
        }
        if maximizing {
            if value > best {
                best = value;
            }
        } else {
            if value < best {
                best = value;
            }
        }
        k += 1;
    }
    proof {
        lemma_between_legal_moves(board@, moves.len() as int);
        lemma_skip_occupied(board@, player_turn, player_to_optimize, moves[k - 1] + 1, 9);
    }
    best
}

/// The unbeatable AI using minimax algorithm: plays the first legal move
/// whose outcome, against perfect play, no other legal move improves on.
pub fn minimax_ai(board: &Board, player_turn: CellState) -> (move_coord: (usize, usize))
    requires
        !is_full(board@),
        player_turn.is_mark(),
    ensures
        move_coord.0 <= 2,
        move_coord.1 <= 2,
        is_minimax_choice(
            board@,
            player_turn,
            cell_index(move_coord.0 as int, move_coord.1 as int),
        ),
{
    proof {
        board.lemma_nine_cells();
    }
    let moves = board.get_legal_moves();
    proof {
        law_legal_moves(board@);
        lemma_between_legal_moves(board@, 0);
    }
    let mut best_index: usize = moves[0];
    let mut best_score: i32 = score_after(board, best_index, player_turn, player_turn);
    let mut k: usize = 1;
    while k < moves.len()
        invariant
            1 <= k <= moves.len(),
            moves@ == legal_moves(board@),
            board@.len() == 9,
            player_turn.is_mark(),
            is_vacant(board@, best_index as int),
            best_index <= moves[k - 1],
            best_score == reply_value(board@, best_index as int, player_turn, player_turn),
            forall|j: int|
                is_vacant(board@, j) && j <= moves[k - 1] ==> reply_value(
                    board@,
                    j,
                    player_turn,
                    player_turn,
                ) <= best_score,
            forall|j: int|
                is_vacant(board@, j) && j < best_index ==> reply_value(
                    board@,
                    j,
                    player_turn,
                    player_turn,
                ) < best_score,
        decreases moves.len() - k,
    {
        proof {
            lemma_vacant_below(board@, 9);
        }
        let index = moves[k];
        let score = score_after(board, index, player_turn, player_turn);
        proof {
            lemma_between_legal_moves(board@, k as int);
        }
        if score > best_score {
            best_index = index;
            best_score = score;
        }
        k += 1;
    }
    proof {
        lemma_between_legal_moves(board@, moves.len() as int);
    }
    coord_of(best_index)
}

} // verus!
