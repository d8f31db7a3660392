use tictactoe::{render_board, Board};

#[test]
fn render_shows_the_grid_with_its_labels() {
    let board = Board::load_from_layout("XO \n X \nO  \n");
    let expected = "\n    0 | 1 | 2 \n  +---+---+---+\n0 | X | O |   |\n  +---+---+---+\n1 |   | X |   |\n  +---+---+---+\n2 | O |   |   |\n  +---+---+---+\n\n";
    assert_eq!(render_board(&board), expected);
}

#[test]
fn render_of_the_empty_board() {
    let lines: Vec<String> = render_board(&Board::new())
        .lines()
        .map(String::from)
        .collect();
    assert_eq!(
        lines,
        vec![
            "",
            "    0 | 1 | 2 ",
            "  +---+---+---+",
            "0 |   |   |   |",
            "  +---+---+---+",
            "1 |   |   |   |",
            "  +---+---+---+",
            "2 |   |   |   |",
            "  +---+---+---+",
            "",
        ]
    );
}

#[test]
fn render_can_be_read_back_as_a_layout() {
    let board = Board::load_from_layout("XOX\nOXO\nOXX\n");
    let text = render_board(&board);
    let rows: Vec<String> = text
        .lines()
        .filter(|line| line.starts_with(|c: char| c.is_ascii_digit()))
        .map(|line| line.chars().skip(4).step_by(4).take(3).collect())
        .collect();
    let again = Board::load_from_layout(&rows.join("\n"));
    for index in 0..9 {
        assert_eq!(again.get_cell(index), board.get_cell(index));
    }
}
