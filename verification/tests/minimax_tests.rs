use tictactoe::{
    make_move, minimax_ai, minimax_score, outcome, random_ai, Board, CellState, Game,
    GameOutcome, Player,
};

#[test]
fn minimax_score_of_finished_games() {
    let x_won = Board::load_from_layout("XXX\nOO \n   \n");
    assert_eq!(minimax_score(&x_won, CellState::O, CellState::X), 10);
    assert_eq!(minimax_score(&x_won, CellState::O, CellState::O), -10);
    let drawn = Board::load_from_layout("XOX\nXOO\nOXX\n");
    assert_eq!(minimax_score(&drawn, CellState::X, CellState::X), 0);
    assert_eq!(minimax_score(&drawn, CellState::O, CellState::X), 0);
}

#[test]
fn minimax_score_sees_a_win_one_move_away() {
    let board = Board::load_from_layout("XX \nOO \n   \n");
    assert_eq!(minimax_score(&board, CellState::X, CellState::X), 10);
    assert_eq!(minimax_score(&board, CellState::X, CellState::O), -10);
    assert_eq!(minimax_score(&board, CellState::O, CellState::O), 10);
    assert_eq!(minimax_score(&board, CellState::O, CellState::X), -10);
}

#[test]
fn minimax_score_sees_a_fork() {
    // X to move wins by force: cell 2 threatens both the first row and the
    // diagonal through the centre.
    let board = Board::load_from_layout("X  \nOX \n  O\n");
    assert_eq!(minimax_score(&board, CellState::X, CellState::X), 10);
    assert_eq!(minimax_score(&board, CellState::X, CellState::O), -10);
}

#[test]
fn minimax_score_of_the_empty_board_is_a_draw() {
    let board = Board::new();
    assert_eq!(minimax_score(&board, CellState::X, CellState::X), 0);
    assert_eq!(minimax_score(&board, CellState::X, CellState::O), 0);
}

#[test]
fn minimax_ai_takes_the_win() {
    let board = Board::load_from_layout("XX \nOO \n   \n");
    assert_eq!(minimax_ai(&board, CellState::X), (2, 0));
    let board = Board::load_from_layout("X X\nOO \n X \n");
    assert_eq!(minimax_ai(&board, CellState::O), (2, 1));
}

#[test]
fn minimax_ai_blocks_when_it_cannot_win() {
    let board = Board::load_from_layout("XX \n O \n   \n");
    assert_eq!(minimax_ai(&board, CellState::O), (2, 0));
}

#[test]
fn minimax_ai_breaks_ties_by_the_lowest_cell() {
    // Every opening is worth a draw, so the first cell is played.
    assert_eq!(minimax_ai(&Board::new(), CellState::X), (0, 0));
    // Cells 2 and 6 both win for X; the lower one is played.
    let board = Board::load_from_layout("XX \nXOO\n  O\n");
    assert_eq!(minimax_ai(&board, CellState::X), (2, 0));
}

#[test]
fn minimax_ai_does_not_hurry() {
    // X wins at once on cell 6, yet cell 2 is played: it wins too, two
    // moves later, and a win is a win however late it comes.
    let board = Board::load_from_layout("X  \nXO \n  O\n");
    assert_eq!(minimax_ai(&board, CellState::X), (1, 0));
}

#[test]
fn minimax_ai_takes_the_last_cell() {
    let board = Board::load_from_layout("XOX\nXOO\nOX \n");
    assert_eq!(minimax_ai(&board, CellState::X), (2, 2));
}

#[test]
fn minimax_against_minimax_is_a_draw() {
    let mut game = Game::new(CellState::X);
    let mut plies = 0;
    let result = loop {
        let move_coord = minimax_ai(&game.board, game.turn);
        plies += 1;
        match game.play(move_coord) {
            Some(GameOutcome::InProgress) => {}
            Some(result) => break result,
            None => panic!("the search answered an illegal move"),
        }
    };
    assert_eq!(result, GameOutcome::Draw);
    assert_eq!(plies, 9);
}

#[test]
fn minimax_never_loses_to_random_play() {
    let mut wins = 0;
    for _ in 0..12 {
        let mut game = Game::new(CellState::X);
        let result = loop {
            let move_coord = if game.turn == CellState::X {
                random_ai(&game.board, game.turn)
            } else {
                minimax_ai(&game.board, game.turn)
            };
            match game.play(move_coord) {
                Some(GameOutcome::InProgress) => {}
                Some(result) => break result,
                None => panic!("a strategy answered an illegal move"),
            }
        };
        assert_ne!(result, GameOutcome::Winner(CellState::X));
        if result == GameOutcome::Winner(CellState::O) {
            wins += 1;
        }
    }
    assert!(wins > 0);
}

#[test]
fn minimax_never_loses_to_greedy_play() {
    for opponent in [Player::Medium, Player::Hard] {
        let mut game = Game::new(CellState::X);
        let result = loop {
            let player = if game.turn == CellState::X {
                opponent
            } else {
                Player::Unbeatable
            };
            let move_coord = match player.select_move(&game.board, game.turn) {
                Some(move_coord) => move_coord,
                None => panic!("a strategy has to answer"),
            };
            match game.play(move_coord) {
                Some(GameOutcome::InProgress) => {}
                Some(result) => break result,
                None => panic!("a strategy answered an illegal move"),
            }
        };
        assert_ne!(result, GameOutcome::Winner(CellState::X));
    }
}

#[test]
fn minimax_move_keeps_the_score() {
    let board = Board::load_from_layout("X  \n O \n   \n");
    let before = minimax_score(&board, CellState::X, CellState::X);
    let next = make_move(&board, minimax_ai(&board, CellState::X), CellState::X);
    assert_eq!(minimax_score(&next, CellState::O, CellState::X), before);
    assert_eq!(outcome(&next), GameOutcome::InProgress);
}
