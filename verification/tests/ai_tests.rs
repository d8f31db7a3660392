use tictactoe::{
    finds_winning_and_losing_moves_ai, finds_winning_moves_ai, random_ai, winning_move, Board,
    CellState,
};

// X holds 0 and 6, O holds 1 and 4: X completes the first column on cell 3,
// O completes the second column on cell 7.
const BOTH_CAN_WIN: &str = "XO \n O \nX  \n";

// X threatens the first row; O has no line of two.
const O_MUST_BLOCK: &str = "XX \n O \n   \n";

#[test]
fn random_ai_returns_random_move() {
    let board = Board::new();
    let (x_coord, y_coord) = random_ai(&board, CellState::X);
    assert!(x_coord < 3);
    assert!(y_coord < 3);
}

#[test]
fn finds_winning_moves_ai_returns_winning_move() {
    let board = Board::load_from_layout(BOTH_CAN_WIN);
    assert_eq!(finds_winning_moves_ai(&board, CellState::X), (0, 1));
    assert_eq!(finds_winning_moves_ai(&board, CellState::O), (1, 2));
}

#[test]
fn finds_winning_and_losing_moves_ai_returns_winning_move() {
    let board = Board::load_from_layout(BOTH_CAN_WIN);
    assert_eq!(
        finds_winning_and_losing_moves_ai(&board, CellState::X),
        (0, 1)
    );
    assert_eq!(
        finds_winning_and_losing_moves_ai(&board, CellState::O),
        (1, 2)
    );
}

#[test]
fn finds_winning_and_losing_moves_ai_blocks_losing_move() {
    let board = Board::load_from_layout(O_MUST_BLOCK);
    assert_eq!(
        finds_winning_and_losing_moves_ai(&board, CellState::O),
        (2, 0)
    );
}

#[test]
fn greedy_win_completes_either_row() {
    let board = Board::load_from_layout("XX \nOO \n   ");
    assert_eq!(finds_winning_moves_ai(&board, CellState::X), (2, 0));
    assert_eq!(finds_winning_moves_ai(&board, CellState::O), (2, 1));
}

#[test]
fn random_ai_always_lands_on_an_empty_cell() {
    let board = Board::load_from_layout("XOX\nO O\nXO \n");
    for _ in 0..200 {
        let move_coord = random_ai(&board, CellState::O);
        assert!(move_coord == (1, 1) || move_coord == (2, 2));
        assert!(board.is_valid_move(move_coord));
    }
}

#[test]
fn random_ai_takes_the_last_empty_cell() {
    let board = Board::load_from_layout("XOX\nXOO\nOX \n");
    assert_eq!(random_ai(&board, CellState::X), (2, 2));
}

#[test]
fn random_ai_reaches_every_empty_cell() {
    let board = Board::new();
    let mut seen = [false; 9];
    for _ in 0..2000 {
        let (x, y) = random_ai(&board, CellState::X);
        seen[x + 3 * y] = true;
    }
    assert_eq!(seen, [true; 9]);
}

#[test]
fn winning_move_is_the_lowest_winning_cell() {
    // X wins on cell 2 (first row) and on cell 6 (first column).
    let board = Board::load_from_layout("XX \nXO \n  O\n");
    assert_eq!(winning_move(&board, CellState::X), Some(2));
    assert_eq!(winning_move(&board, CellState::O), None);
    assert_eq!(winning_move(&Board::new(), CellState::X), None);
    assert_eq!(winning_move(&board, CellState::Empty), None);
}

#[test]
fn winning_move_skips_occupied_cells() {
    // The first row would be O's but for the X on cell 2.
    let board = Board::load_from_layout("OOX\n X \n   \n");
    assert_eq!(winning_move(&board, CellState::O), None);
    assert_eq!(winning_move(&board, CellState::X), Some(6));
}

#[test]
fn greedy_win_falls_back_on_a_legal_move() {
    let board = Board::load_from_layout(O_MUST_BLOCK);
    for _ in 0..50 {
        let move_coord = finds_winning_moves_ai(&board, CellState::O);
        assert!(board.is_valid_move(move_coord));
    }
}

#[test]
fn greedy_block_prefers_its_own_win_to_a_block() {
    // O could block X on cell 2, but wins on cell 5.
    let board = Board::load_from_layout("XX \nOO \n   \n");
    assert_eq!(
        finds_winning_and_losing_moves_ai(&board, CellState::O),
        (2, 1)
    );
}

#[test]
fn greedy_block_overlooks_a_fork() {
    // X holds two opposite corners and O the centre: nothing to win or to
    // block at once, so any empty cell may come back.
    let board = Board::load_from_layout("X  \n O \n  X\n");
    for _ in 0..50 {
        let move_coord = finds_winning_and_losing_moves_ai(&board, CellState::O);
        assert!(board.is_valid_move(move_coord));
    }
}
