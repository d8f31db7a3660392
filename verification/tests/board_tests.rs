use tictactoe::{make_move, Board, CellState};

const X_WINS: &str = "XXX\nOO \n   \n";
const NO_WINNER: &str = "XO \n X \n  O\n";
const FULL: &str = "XOX\nXOO\nOXX\n";

#[test]
fn winner_fn_returns_none_when_no_winner() {
    let board = Board::load_from_layout(NO_WINNER);
    assert_eq!(board.get_winner(), None);
}

#[test]
fn winner_fn_returns_the_correct_winner() {
    let board = Board::load_from_layout(X_WINS);
    assert_eq!(board.get_winner(), Some(CellState::X));
}

#[test]
fn is_full_fn_returns_true_when_board_is_full() {
    let board = Board::load_from_layout(FULL);
    assert_eq!(board.is_full(), true);
}

#[test]
fn new_board_is_empty() {
    let board = Board::new();
    for index in 0..9 {
        assert_eq!(board.get_cell(index), CellState::Empty);
    }
    assert!(!board.is_full());
    assert_eq!(board.get_winner(), None);
    assert_eq!(board.get_legal_moves(), vec![0, 1, 2, 3, 4, 5, 6, 7, 8]);
}

#[test]
fn make_move_leaves_its_input_as_it_was() {
    let board = Board::load_from_layout(NO_WINNER);
    let before: Vec<CellState> = (0..9).map(|i| board.get_cell(i)).collect();
    let next = make_move(&board, (2, 0), CellState::O);
    let after: Vec<CellState> = (0..9).map(|i| board.get_cell(i)).collect();
    assert_eq!(before, after);
    assert_eq!(next.get_cell(2), CellState::O);
    for index in (0..9).filter(|i| *i != 2) {
        assert_eq!(next.get_cell(index), board.get_cell(index));
    }
}

const LINES: [[usize; 3]; 8] = [
    [0, 1, 2],
    [3, 4, 5],
    [6, 7, 8],
    [0, 3, 6],
    [1, 4, 7],
    [2, 5, 8],
    [0, 4, 8],
    [2, 4, 6],
];

#[test]
fn every_line_wins_for_either_mark() {
    for line in LINES {
        for mark in [CellState::X, CellState::O] {
            let mut board = Board::new();
            for index in line {
                board.set_cell(index, mark);
            }
            assert_eq!(board.get_winner(), Some(mark));
        }
    }
}

#[test]
fn two_cells_of_a_line_do_not_win() {
    for line in LINES {
        for left_out in 0..3 {
            let mut board = Board::new();
            for (position, index) in line.into_iter().enumerate() {
                if position != left_out {
                    board.set_cell(index, CellState::X);
                }
            }
            assert_eq!(board.get_winner(), None);
            board.set_cell(line[left_out], CellState::O);
            assert_eq!(board.get_winner(), None);
        }
    }
}

#[test]
fn the_first_complete_line_decides() {
    // Both marks hold a row; the row that comes first in the order of the
    // lines gives the winner.
    let board = Board::load_from_layout("OOO\nXXX\n   \n");
    assert_eq!(board.get_winner(), Some(CellState::O));
    let board = Board::load_from_layout("   \nXXX\nOOO\n");
    assert_eq!(board.get_winner(), Some(CellState::X));
    // Rows come before columns.
    let board = Board::load_from_layout("O X\nO X\nOOO\n");
    assert_eq!(board.get_winner(), Some(CellState::O));
    let board = Board::load_from_layout("OXX\nOX \nOX \n");
    assert_eq!(board.get_winner(), Some(CellState::O));
}

#[test]
fn is_full_needs_every_cell() {
    let mut board = Board::load_from_layout(FULL);
    for index in 0..9 {
        let mark = board.get_cell(index);
        board.set_cell(index, CellState::Empty);
        assert!(!board.is_full());
        board.set_cell(index, mark);
        assert!(board.is_full());
    }
}

#[test]
fn legal_moves_are_the_empty_cells_in_ascending_order() {
    let board = Board::load_from_layout(NO_WINNER);
    assert_eq!(board.get_legal_moves(), vec![2, 3, 5, 6, 7]);
    assert_eq!(Board::load_from_layout(FULL).get_legal_moves(), Vec::<usize>::new());
    let board = Board::load_from_layout("XOX\nXOO\nOX \n");
    assert_eq!(board.get_legal_moves(), vec![8]);
}

#[test]
fn a_move_is_valid_on_an_empty_cell_of_the_board() {
    let board = Board::load_from_layout(NO_WINNER);
    for y in 0..3 {
        for x in 0..3 {
            let empty = board.get_cell(x + y * 3) == CellState::Empty;
            assert_eq!(board.is_valid_move((x, y)), empty);
        }
    }
    assert!(board.is_valid_move((2, 0)));
    assert!(!board.is_valid_move((0, 0)));
    assert!(!board.is_valid_move((3, 0)));
    assert!(!board.is_valid_move((0, 3)));
    // Column 5 of row 0 would fall on cell 5, which is empty, but is off the board.
    assert!(!board.is_valid_move((5, 0)));
    assert!(!board.is_valid_move((usize::MAX, usize::MAX)));
    assert!(!board.is_valid_move((2, usize::MAX)));
}

#[test]
fn make_move_sets_the_cell_at_x_plus_three_y() {
    let board = Board::new();
    for y in 0..3 {
        for x in 0..3 {
            let next = make_move(&board, (x, y), CellState::X);
            assert_eq!(next.get_legal_moves().len(), 8);
            assert_eq!(next.get_cell(x + 3 * y), CellState::X);
        }
    }
}

#[test]
fn coord_of_is_column_then_row() {
    assert_eq!(tictactoe::coord_of(0), (0, 0));
    assert_eq!(tictactoe::coord_of(2), (2, 0));
    assert_eq!(tictactoe::coord_of(3), (0, 1));
    assert_eq!(tictactoe::coord_of(7), (1, 2));
    assert_eq!(tictactoe::coord_of(8), (2, 2));
}
