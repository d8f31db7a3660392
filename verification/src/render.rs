//! The board as text: a grid with the column numbers above it and a row
//! number before each row.

use crate::board::Board;
use crate::cell::CellState;
use vstd::prelude::*;
use vstd::string::StringExecFns;

verus! {

/// The line of the grid that shows row `row`, whose label is `label`.
pub open spec fn row_text(cells: Seq<CellState>, row: int, label: Seq<char>) -> Seq<char> {
    label + seq![cells[3 * row].glyph()] + " | "@ + seq![cells[3 * row + 1].glyph()] + " | "@
        + seq![cells[3 * row + 2].glyph()] + " |\n"@
}

/// The whole display: a blank line, the column numbers, then the three rows
/// between ruled lines, and a blank line.
pub open spec fn board_text(cells: Seq<CellState>) -> Seq<char> {
    "\n    0 | 1 | 2 \n  +---+---+---+\n"@ + row_text(cells, 0, "0 | "@) + "  +---+---+---+\n"@
        + row_text(cells, 1, "1 | "@) + "  +---+---+---+\n"@ + row_text(cells, 2, "2 | "@)
        + "  +---+---+---+\n\n"@
}

/// Appends the line that shows row `row` of the board.
fn append_row(text: &mut String, board: &Board, row: usize, label: &str)
    requires
        row < 3,
    ensures
        final(text)@ == old(text)@ + row_text(board@, row as int, label@),
{
    text.append(label);
    text.append(board.get_cell(3 * row).as_str());
    text.append(" | ");
    text.append(board.get_cell(3 * row + 1).as_str());
    text.append(" | ");
    text.append(board.get_cell(3 * row + 2).as_str());
    text.append(" |\n");
}

/// Renders the board as the text to show on the terminal.
pub fn render_board(board: &Board) -> (text: String)
    ensures
        text@ == board_text(board@),
{
    let mut text = String::from_str("\n    0 | 1 | 2 \n  +---+---+---+\n");
    append_row(&mut text, board, 0, "0 | ");
    text.append("  +---+---+---+\n");
    append_row(&mut text, board, 1, "1 | ");
    text.append("  +---+---+---+\n");
    append_row(&mut text, board, 2, "2 | ");
    text.append("  +---+---+---+\n\n");
    text
}

} // verus!
