//! The textual board layout: one row per line, the first three characters
//! of each of the first three lines giving the cells of that row.

use crate::board::Board;
use crate::cell::CellState;
use vstd::prelude::*;
use vstd::string::StrSliceExecFns;

verus! {

/// The position of the first line feed at or after `from`, or the length of
/// the text when there is none.
pub open spec fn line_end(text: Seq<char>, from: int) -> int
    decreases text.len() - from,
{
    if from >= text.len() {
        text.len() as int
    } else if text[from] == '\n' {
        from
    } else {
        line_end(text, from + 1)
    }
}

/// The position at which line `row` of the text starts. A position at or
/// past the end of the text means that the text has no such line.
pub open spec fn row_start(text: Seq<char>, row: int) -> int
    decreases row,
{
    if row <= 0 {
        0
    } else {
        line_end(text, row_start(text, row - 1)) + 1
    }
}

/// The text has a line `row`.
pub open spec fn has_row(text: Seq<char>, row: int) -> bool {
    row_start(text, row) < text.len()
}

/// The number of characters on line `row`, its line ending left out: the
/// line feed, and a carriage return directly before that line feed.
pub open spec fn row_len(text: Seq<char>, row: int) -> int {
    let start = row_start(text, row);
    let end = line_end(text, start);
    if start < end < text.len() && text[end - 1] == '\r' {
        end - 1 - start
    } else {
        end - start
    }
}

/// The text has a line `row`, and that line has a character for each of
/// the three cells of a row.
pub open spec fn is_cell_row(text: Seq<char>, row: int) -> bool {
    has_row(text, row) && row_len(text, row) >= 3
}

/// The text describes a whole board: it has three lines of at least three
/// characters each.
pub open spec fn is_layout(text: Seq<char>) -> bool {
    is_cell_row(text, 0) && is_cell_row(text, 1) && is_cell_row(text, 2)
}

/// The state that the layout gives to cell `index`: column `index % 3` of
/// line `index / 3`.
pub open spec fn layout_cell(text: Seq<char>, index: int) -> CellState {
    CellState::of_char(text[row_start(text, index / 3) + index % 3])
}

/// The nine cells that a layout describes.
pub open spec fn layout_cells(text: Seq<char>) -> Seq<CellState> {
    Seq::new(9, |i: int| layout_cell(text, i))
}

/// Finds the end of the line that `from` lies on.
fn find_line_end(text: &str, from: usize, len: usize) -> (end: usize)
    requires
        len == text@.len(),
        from <= len,
    ensures
        end == line_end(text@, from as int),
        from <= end <= len,
{
    let mut end: usize = from;
    while end < len
        invariant
            len == text@.len(),
            from <= end <= len,
            line_end(text@, from as int) == line_end(text@, end as int),
        decreases len - end,
    {
        if text.get_char(end) == '\n' {
            return end;
        }
        end += 1;
    }
    end
}

impl Board {
    /// Reads a board from a layout, or answers `None` when the text has
    /// fewer than three lines or a line of fewer than three characters.
    /// Anything after the third character of a line, and after the third
    /// line, is ignored.
    pub fn parse_layout(text: &str) -> (parsed: Option<Board>)
        ensures
            parsed is Some <==> is_layout(text@),
            parsed matches Some(board) ==> board@ == layout_cells(text@),
    {
        let len = text.unicode_len();
        let mut board = Board::new();
        let mut start: usize = 0;
        let mut row: usize = 0;
        while row < 3
            invariant
                row <= 3,
                len == text@.len(),
                start <= len,
                row < 3 ==> if start < len {
                    start == row_start(text@, row as int)
                } else {
                    !has_row(text@, row as int)
                },
                row > 0 ==> is_cell_row(text@, 0),
                row > 1 ==> is_cell_row(text@, 1),
                row > 2 ==> is_cell_row(text@, 2),
                board@.len() == 9,
                forall|i: int| 0 <= i < 3 * row ==> board@[i] == layout_cell(text@, i),
            decreases 3 - row,
        {
            if start >= len {
                return None;
            }
            let end = find_line_end(text, start, len);
            let content_end = if start < end && end < len && text.get_char(end - 1) == '\r' {
                end - 1
            } else {
                end
            };
            if content_end - start < 3 {
                return None;
            }
            board.set_cell(row * 3, CellState::from_char(text.get_char(start)));
            board.set_cell(row * 3 + 1, CellState::from_char(text.get_char(start + 1)));
            board.set_cell(row * 3 + 2, CellState::from_char(text.get_char(start + 2)));
            start = if end < len {
                end + 1
            } else {
                len
            };
            row += 1;
        }
        Some(board)
    }

    /// Reads a board from a layout: `'X'` and `'O'` are the marks, any other
    /// character is an empty cell.
    pub fn load_from_layout(text: &str) -> (board: Board)
        requires
            is_layout(text@),
        ensures
            board@ == layout_cells(text@),
    {
        match Board::parse_layout(text) {
            Some(board) => board,
            // Only a text that is no layout is refused, and this one is one.
            None => Board::new(),
        }
    }
}

} // verus!
