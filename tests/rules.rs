use rusty_chess::{
    empty_board, execute_move, initialize_board, make_move, parse_move, parse_position,
    piece_symbol, render_chessboard, validate_move, Board, Color, Coordinate, MoveError, Piece,
    PieceKind,
};

fn at(file: usize, rank: usize) -> Coordinate {
    Coordinate { file, rank }
}

fn piece(kind: PieceKind, color: Color) -> Option<Piece> {
    Some(Piece { kind, color })
}

fn board_with(pieces: &[(usize, usize, PieceKind, Color)]) -> Board {
    let mut b = empty_board();
    for &(f, r, k, c) in pieces {
        b.set_square(at(f, r), piece(k, c));
    }
    b
}

#[test]
fn initial_board_layout() {
    let b = initialize_board();
    assert_eq!(b.occupant(at(0, 0)), piece(PieceKind::Rook, Color::Black));
    assert_eq!(b.occupant(at(4, 7)), piece(PieceKind::King, Color::White));
    assert_eq!(b.occupant(at(3, 0)), piece(PieceKind::Queen, Color::Black));
    assert_eq!(b.occupant(at(1, 7)), piece(PieceKind::Knight, Color::White));
    assert_eq!(b.occupant(at(5, 0)), piece(PieceKind::Bishop, Color::Black));
    for f in 0..8 {
        assert_eq!(b.occupant(at(f, 1)), piece(PieceKind::Pawn, Color::Black));
        assert_eq!(b.occupant(at(f, 6)), piece(PieceKind::Pawn, Color::White));
        for r in 2..6 {
            assert_eq!(b.occupant(at(f, r)), None);
        }
    }
}

#[test]
fn parse_move_examples() {
    assert_eq!(parse_move("e2e4"), Ok((at(4, 6), at(4, 4))));
    assert_eq!(parse_move("a8h1"), Ok((at(0, 0), at(7, 7))));
}

#[test]
fn parse_rejects_malformed_text() {
    assert_eq!(parse_move("e2e"), Err(MoveError::InvalidFormat));
    assert_eq!(parse_move("e2e4x"), Err(MoveError::InvalidFormat));
    assert_eq!(parse_move(""), Err(MoveError::InvalidFormat));
    assert_eq!(parse_move("i2e4"), Err(MoveError::InvalidFormat));
    assert_eq!(parse_move("e0e4"), Err(MoveError::InvalidFormat));
    assert_eq!(parse_move("e2e9"), Err(MoveError::InvalidFormat));
    assert_eq!(parse_move("E2e4"), Err(MoveError::InvalidFormat));
    assert_eq!(parse_position("e"), Err(MoveError::InvalidFormat));
    assert_eq!(parse_position("z2"), Err(MoveError::InvalidFormat));
    assert_eq!(parse_position("h1"), Ok((7, 7)));
}

#[test]
fn null_move_is_never_legal() {
    let b = initialize_board();
    for f in 0..8 {
        for r in 0..8 {
            assert!(validate_move(&b, at(f, r), at(f, r)).is_err());
        }
    }
    let lone = board_with(&[(3, 3, PieceKind::Bishop, Color::White)]);
    assert_eq!(validate_move(&lone, at(3, 3), at(3, 3)), Err(MoveError::InvalidBishopMove));
}

#[test]
fn pawn_advances() {
    let mut b = initialize_board();
    assert_eq!(validate_move(&b, at(4, 6), at(4, 4)), Ok(()));
    assert_eq!(validate_move(&b, at(4, 6), at(4, 3)), Err(MoveError::InvalidPawnMove));
    assert_eq!(validate_move(&b, at(4, 6), at(4, 5)), Ok(()));
    assert_eq!(validate_move(&b, at(4, 1), at(4, 3)), Ok(()));
    assert_eq!(validate_move(&b, at(4, 6), at(4, 7)), Err(MoveError::InvalidPawnMove));
    execute_move(&mut b, at(4, 6), at(4, 4));
    assert_eq!(validate_move(&b, at(4, 4), at(4, 2)), Err(MoveError::InvalidPawnMove));
    assert_eq!(validate_move(&b, at(4, 4), at(4, 3)), Ok(()));
}

#[test]
fn pawn_blocked_and_captures() {
    let b = board_with(&[
        (4, 6, PieceKind::Pawn, Color::White),
        (4, 5, PieceKind::Knight, Color::Black),
        (3, 5, PieceKind::Rook, Color::Black),
        (5, 5, PieceKind::Rook, Color::White),
        (0, 6, PieceKind::Pawn, Color::White),
        (0, 4, PieceKind::Pawn, Color::Black),
    ]);
    assert_eq!(validate_move(&b, at(4, 6), at(4, 5)), Err(MoveError::DestinationOccupied));
    assert_eq!(validate_move(&b, at(4, 6), at(4, 4)), Err(MoveError::PathBlocked));
    assert_eq!(validate_move(&b, at(0, 6), at(0, 4)), Err(MoveError::DestinationOccupied));
    assert_eq!(validate_move(&b, at(4, 6), at(3, 5)), Ok(()));
    assert_eq!(validate_move(&b, at(4, 6), at(5, 5)), Err(MoveError::InvalidPawnMove));
    assert_eq!(validate_move(&b, at(0, 6), at(1, 5)), Err(MoveError::InvalidPawnMove));
    assert_eq!(validate_move(&b, at(0, 4), at(0, 5)), Ok(()));
    assert_eq!(validate_move(&b, at(0, 4), at(0, 3)), Err(MoveError::InvalidPawnMove));
}

#[test]
fn rook_capture_and_blocking() {
    let mut b = board_with(&[
        (0, 0, PieceKind::Rook, Color::Black),
        (0, 4, PieceKind::Pawn, Color::White),
    ]);
    assert_eq!(validate_move(&b, at(0, 0), at(0, 4)), Ok(()));
    assert_eq!(validate_move(&b, at(0, 0), at(7, 0)), Ok(()));
    assert_eq!(validate_move(&b, at(0, 0), at(1, 1)), Err(MoveError::InvalidRookMove));
    assert_eq!(validate_move(&b, at(0, 0), at(0, 5)), Err(MoveError::PathBlocked));
    b.set_square(at(0, 2), piece(PieceKind::Pawn, Color::Black));
    assert_eq!(validate_move(&b, at(0, 0), at(0, 4)), Err(MoveError::PathBlocked));
    assert_eq!(validate_move(&b, at(0, 0), at(0, 2)), Ok(()));
}

#[test]
fn knight_jumps() {
    let b = initialize_board();
    assert_eq!(validate_move(&b, at(1, 7), at(2, 5)), Ok(()));
    assert_eq!(validate_move(&b, at(1, 7), at(0, 5)), Ok(()));
    assert_eq!(validate_move(&b, at(1, 7), at(1, 5)), Err(MoveError::InvalidKnightMove));
    assert_eq!(validate_move(&b, at(1, 7), at(3, 6)), Err(MoveError::CannotCaptureOwnPiece));
    let c = board_with(&[
        (4, 4, PieceKind::Knight, Color::White),
        (5, 2, PieceKind::Pawn, Color::Black),
    ]);
    assert_eq!(validate_move(&c, at(4, 4), at(5, 2)), Ok(()));
}

#[test]
fn bishop_diagonals() {
    let b = board_with(&[(2, 7, PieceKind::Bishop, Color::White)]);
    assert_eq!(validate_move(&b, at(2, 7), at(5, 4)), Ok(()));
    assert_eq!(validate_move(&b, at(2, 7), at(0, 5)), Ok(()));
    assert_eq!(validate_move(&b, at(2, 7), at(2, 4)), Err(MoveError::InvalidBishopMove));
    for blocker in [(3, 6), (4, 5)] {
        let mut c = b;
        c.set_square(at(blocker.0, blocker.1), piece(PieceKind::Pawn, Color::Black));
        assert_eq!(validate_move(&c, at(2, 7), at(5, 4)), Err(MoveError::PathBlocked));
    }
    let mut d = b;
    d.set_square(at(5, 4), piece(PieceKind::Knight, Color::White));
    assert_eq!(validate_move(&d, at(2, 7), at(5, 4)), Err(MoveError::CannotCaptureOwnPiece));
    d.set_square(at(5, 4), piece(PieceKind::Knight, Color::Black));
    assert_eq!(validate_move(&d, at(2, 7), at(5, 4)), Ok(()));
}

#[test]
fn source_and_bounds_errors() {
    let b = initialize_board();
    assert_eq!(validate_move(&b, at(4, 4), at(4, 3)), Err(MoveError::EmptySource));
    assert_eq!(validate_move(&b, at(8, 6), at(4, 4)), Err(MoveError::OutOfBounds));
    assert_eq!(validate_move(&b, at(4, 6), at(4, 9)), Err(MoveError::OutOfBounds));
    assert_eq!(validate_move(&b, at(3, 7), at(3, 5)), Err(MoveError::UnsupportedPieceKind));
    assert_eq!(validate_move(&b, at(4, 0), at(4, 1)), Err(MoveError::UnsupportedPieceKind));
}

#[test]
fn execute_is_unconditional() {
    let mut b = initialize_board();
    execute_move(&mut b, at(0, 7), at(5, 2));
    assert_eq!(b.occupant(at(5, 2)), piece(PieceKind::Rook, Color::White));
    assert_eq!(b.occupant(at(0, 7)), None);
    execute_move(&mut b, at(5, 2), at(4, 0));
    assert_eq!(b.occupant(at(4, 0)), piece(PieceKind::Rook, Color::White));
    assert_eq!(b.occupant(at(5, 2)), None);
    execute_move(&mut b, at(3, 3), at(3, 1));
    assert_eq!(b.occupant(at(3, 1)), None);
}

#[test]
fn make_move_checks_then_moves() {
    let mut b = initialize_board();
    assert_eq!(make_move(&mut b, "e2", "e5"), Err(MoveError::InvalidPawnMove));
    assert_eq!(make_move(&mut b, "e4", "e5"), Err(MoveError::EmptySource));
    assert_eq!(make_move(&mut b, "e2", "e44"), Err(MoveError::InvalidFormat));
    assert_eq!(make_move(&mut b, "x2", "e4"), Err(MoveError::InvalidFormat));
    assert_eq!(b.occupant(at(4, 6)), piece(PieceKind::Pawn, Color::White));
    assert_eq!(make_move(&mut b, "g1", "f3"), Ok(()));
    assert_eq!(b.occupant(at(5, 5)), piece(PieceKind::Knight, Color::White));
    assert_eq!(b.occupant(at(6, 7)), None);
}

#[test]
fn symbols() {
    assert_eq!(piece_symbol(None), " ");
    assert_eq!(piece_symbol(piece(PieceKind::Knight, Color::Black)), "Kn");
    assert_eq!(piece_symbol(piece(PieceKind::Queen, Color::White)), "Q");
    assert_eq!(piece_symbol(piece(PieceKind::Bishop, Color::White)), "B");
}

#[test]
fn render_layout() {
    let html = render_chessboard(&initialize_board());
    assert!(html.starts_with("<table style='border-collapse: collapse;'><tr><td style='width: 50px; height: 50px; text-align: center; background-color: #eee; color: #000; border: 1px solid #000;'>R</td><td style='width: 50px; height: 50px; text-align: center; background-color: #333; color: #fff; border: 1px solid #000;'>Kn</td>"));
    assert!(html.ends_with(">R</td></tr></table>"));
    assert_eq!(html.matches("<tr>").count(), 8);
    assert_eq!(html.matches("<td ").count(), 64);
    assert_eq!(html.matches("#333").count(), 32);
    let empty = render_chessboard(&empty_board());
    assert_eq!(empty.matches("'> </td>").count(), 64);
}
