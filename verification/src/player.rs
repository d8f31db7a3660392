//! Who plays a side: a person at the keyboard or one of the strategies.

use crate::ai::{
    finds_winning_and_losing_moves_ai, finds_winning_moves_ai, is_greedy_win_block_choice,
    is_greedy_win_choice, random_ai,
};
use crate::board::Board;
use crate::cell::CellState;
use crate::minimax::{is_minimax_choice, minimax_ai};
use crate::rules::{cell_index, is_full, is_legal_move};
use vstd::prelude::*;
use vstd::string::StrSliceExecFns;

verus! {

/// Available players.
#[derive(Clone, Copy, Debug, PartialEq, Eq, Structural)]
pub enum Player {
    Human,
    Easy,
    Medium,
    Hard,
    Unbeatable,
}

/// The players asked for on the command line, by name, and the number of
/// games to play.
pub struct Cli {
    /// Player X
    pub player_x: String,
    /// Player O
    pub player_o: String,
    /// No. of times to play
    pub repeat: u32,
}

/// The player that a name designates, if it designates one.
pub open spec fn player_named(name: Seq<char>) -> Option<Player> {
    if name == "human"@ {
        Some(Player::Human)
    } else if name == "easy"@ {
        Some(Player::Easy)
    } else if name == "medium"@ {
        Some(Player::Medium)
    } else if name == "hard"@ {
        Some(Player::Hard)
    } else if name == "unbeatable"@ {
        Some(Player::Unbeatable)
    } else {
        None
    }
}

/// Whether two texts hold the same characters.
fn same_text(left: &str, right: &str) -> (same: bool)
    ensures
        same == (left@ == right@),
{
    let len = left.unicode_len();
    if len != right.unicode_len() {
        return false;
    }
    let mut i: usize = 0;
    while i < len
        invariant
            i <= len,
            len == left@.len(),
            len == right@.len(),
            forall|j: int| 0 <= j < i ==> left@[j] == right@[j],
        decreases len - i,
    {
        if left.get_char(i) != right.get_char(i) {
            return false;
        }
        i += 1;
    }
    assert(left@ =~= right@);
    true
}

impl Player {
    /// What this player may answer on a board when `mark` is to move.
    /// Nothing is said of a person's move.
    pub open spec fn may_answer(
        self,
        cells: Seq<CellState>,
        mark: CellState,
        move_coord: (usize, usize),
    ) -> bool {
        match self {
            Player::Human => false,
            Player::Easy => is_legal_move(cells, move_coord),
            Player::Medium => is_greedy_win_choice(cells, mark, move_coord),
            Player::Hard => is_greedy_win_block_choice(cells, mark, move_coord),
            Player::Unbeatable => move_coord.0 <= 2 && move_coord.1 <= 2 && is_minimax_choice(
                cells,
                mark,
                cell_index(move_coord.0 as int, move_coord.1 as int),
            ),
        }
    }

    /// Reads a player from its name; `None` for a name that designates no
    /// player.
    pub fn from_name(name: &str) -> (player: Option<Player>)
        ensures
            player == player_named(name@),
    {
        if same_text(name, "human") {
            Some(Player::Human)
        } else if same_text(name, "easy") {
            Some(Player::Easy)
        } else if same_text(name, "medium") {
            Some(Player::Medium)
        } else if same_text(name, "hard") {
            Some(Player::Hard)
        } else if same_text(name, "unbeatable") {
            Some(Player::Unbeatable)
        } else {
            None
        }
    }

    /// The move of this player for `mark` on `board`: the answer of its
    /// strategy, or `None` for a person, whose move has to be asked for.
    pub fn select_move(self, board: &Board, mark: CellState) -> (chosen: Option<(usize, usize)>)
        requires
            !is_full(board@),
            mark.is_mark(),
        ensures
            self == Player::Human <==> chosen is None,
            chosen matches Some(move_coord) ==> self.may_answer(board@, mark, move_coord),
    {
        match self {
            Player::Human => None,
            Player::Easy => Some(random_ai(board, mark)),
            Player::Medium => Some(finds_winning_moves_ai(board, mark)),
            Player::Hard => Some(finds_winning_and_losing_moves_ai(board, mark)),
            Player::Unbeatable => Some(minimax_ai(board, mark)),
        }
    }

    /// Whatever a strategy answers is a legal move.
    pub proof fn law_strategies_answer_legal_moves(
        self,
        cells: Seq<CellState>,
        mark: CellState,
        move_coord: (usize, usize),
    )
        requires
            self.may_answer(cells, mark, move_coord),
        ensures
            is_legal_move(cells, move_coord),
    {
    }
}

impl Cli {
    /// The two players that the names designate, X first; `None` when
    /// either name designates no player.
    pub fn players(&self) -> (players: Option<(Player, Player)>)
        ensures
            players == match (player_named(self.player_x@), player_named(self.player_o@)) {
                (Some(x), Some(o)) => Some((x, o)),
                _ => None,
            },
    {
        match Player::from_name(self.player_x.as_str()) {
            Some(x) => match Player::from_name(self.player_o.as_str()) {
                Some(o) => Some((x, o)),
                None => None,
            },
            None => None,
        }
    }
}

} // verus!
