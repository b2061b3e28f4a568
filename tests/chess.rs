use rusty_chess::{initialize_board, make_move, parse_position};

#[test]
fn test_initialize_board() {
    let board = initialize_board();
    assert_eq!(board.square_symbol(0, 0), "R"); // Rook at a8
    assert_eq!(board.square_symbol(1, 0), "P"); // Pawn at a7
    assert_eq!(board.square_symbol(7, 4), "K"); // King at e1
}

#[test]
fn test_parse_position() {
    assert_eq!(parse_position("e2"), Ok((6, 4))); // Row 6, Col 4
    assert_eq!(parse_position("a8"), Ok((0, 0))); // Row 0, Col 0
}

#[test]
fn test_make_move() {
    let mut board = initialize_board();
    assert!(make_move(&mut board, "e2", "e4").is_ok());
    assert_eq!(board.square_symbol(4, 4), "P"); // Pawn at e4
    assert_eq!(board.square_symbol(6, 4), " "); // e2 is empty
}

#[test]
fn test_initialize_board_integration() {
    let board = initialize_board();
    assert_eq!(board.square_symbol(0, 0), "R"); // Rook at a8
    assert_eq!(board.square_symbol(1, 0), "P"); // Pawn at a7
}

#[test]
fn test_parse_position_integration() {
    assert_eq!(parse_position("e2"), Ok((6, 4))); // Row 6, Col 4
}

#[test]
fn test_make_move_integration() {
    let mut board = initialize_board();
    assert!(make_move(&mut board, "e2", "e4").is_ok());
    assert_eq!(board.square_symbol(4, 4), "P"); // Pawn at e4
}
