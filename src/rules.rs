use vstd::prelude::*;

use crate::board::Board;

use crate::notation::{lemma_square_in_bounds, parse_position, square_of};
use crate::piece::{Color, Coordinate, MoveError, Piece, PieceKind};

verus! {

/// `|a - b|`.
pub open spec fn dist(a: int, b: int) -> int {
    if a >= b {
        a - b
    } else {
        b - a
    }
}

/// The value `k` steps from `a` toward `b` (`a` itself when `a == b`).
pub open spec fn toward(a: int, b: int, k: int) -> int {
    if b > a {
        a + k
    } else if b < a {
        a - k
    } else {
        a
    }
}

/// The `k`-th square from `from` along the straight or diagonal line to `to`.
pub open spec fn line_square(b: Board, from: Coordinate, to: Coordinate, k: int) -> Option<Piece> {
    b.at(toward(from.file as int, to.file as int, k), toward(from.rank as int, to.rank as int, k))
}

/// The squares at steps `1..n` from `from` toward `to` are all empty.
pub open spec fn path_clear(b: Board, from: Coordinate, to: Coordinate, n: int) -> bool {
    forall|k: int| 1 <= k < n ==> (#[trigger] line_square(b, from, to, k)) is None
}

/// The destination holds a piece of color `c`.
pub open spec fn holds_color(b: Board, sq: Coordinate, c: Color) -> bool {
    match b.at_coord(sq) {
        Some(q) => q.color == c,
        None => false,
    }
}

/// How far a pawn of color `c` advances going from `from` to `to`: White
/// moves toward rank index 0, Black toward rank index 7.
pub open spec fn advance(c: Color, from: Coordinate, to: Coordinate) -> int {
    match c {
        Color::White => from.rank - to.rank,
        Color::Black => to.rank - from.rank,
    }
}

/// The rank index on which pawns of color `c` start.
pub open spec fn pawn_start_rank(c: Color) -> int {
    match c {
        Color::White => 6,
        Color::Black => 1,
    }
}

/// The other color.
pub open spec fn opponent(c: Color) -> Color {
    match c {
        Color::White => Color::Black,
        Color::Black => Color::White,
    }
}

/// Pawn rule: one step forward onto an empty square, two steps forward from
/// the starting rank over an empty square onto an empty square, or one step
/// diagonally forward onto an opposing piece.
pub open spec fn pawn_rule(b: Board, c: Color, from: Coordinate, to: Coordinate) -> Result<
    (),
    MoveError,
> {
    let d = advance(c, from, to);
    let df = dist(from.file as int, to.file as int);
    if d == 1 && df == 0 {
        if b.at_coord(to) is None {
            Ok(())
        } else {
            Err(MoveError::DestinationOccupied)
        }
    } else if d == 2 && df == 0 {
        if from.rank != pawn_start_rank(c) {
            Err(MoveError::InvalidPawnMove)
        } else if line_square(b, from, to, 1) is Some {
            Err(MoveError::PathBlocked)
        } else if b.at_coord(to) is Some {
            Err(MoveError::DestinationOccupied)
        } else {
            Ok(())
        }
    } else if d == 1 && df == 1 {
        if holds_color(b, to, opponent(c)) {
            Ok(())
        } else {
            Err(MoveError::InvalidPawnMove)
        }
    } else {
        Err(MoveError::InvalidPawnMove)
    }
}

/// Rook rule: a purely horizontal or purely vertical move over empty
/// squares. The destination's occupant is not examined.
pub open spec fn rook_rule(b: Board, from: Coordinate, to: Coordinate) -> Result<(), MoveError> {
    let dx = dist(from.file as int, to.file as int);
    let dy = dist(from.rank as int, to.rank as int);
    if (dx == 0) == (dy == 0) {
        Err(MoveError::InvalidRookMove)
    } else if !path_clear(b, from, to, dx + dy) {
        Err(MoveError::PathBlocked)
    } else {
        Ok(())
    }
}

/// Knight rule: an L-shaped jump onto a square without a piece of the
/// knight's own color.
pub open spec fn knight_rule(b: Board, c: Color, from: Coordinate, to: Coordinate) -> Result<
    (),
    MoveError,
> {
    let dx = dist(from.file as int, to.file as int);
    let dy = dist(from.rank as int, to.rank as int);
    if !((dx == 1 && dy == 2) || (dx == 2 && dy == 1)) {
        Err(MoveError::InvalidKnightMove)
    } else if holds_color(b, to, c) {
        Err(MoveError::CannotCaptureOwnPiece)
    } else {
        Ok(())
    }
}

/// Bishop rule: a diagonal move onto a square without a piece of the
/// bishop's own color, over empty squares.
pub open spec fn bishop_rule(b: Board, c: Color, from: Coordinate, to: Coordinate) -> Result<
    (),
    MoveError,
> {
    let dx = dist(from.file as int, to.file as int);
    let dy = dist(from.rank as int, to.rank as int);
    if dx != dy || dx == 0 {
        Err(MoveError::InvalidBishopMove)
    } else if holds_color(b, to, c) {
        Err(MoveError::CannotCaptureOwnPiece)
    } else if !path_clear(b, from, to, dx) {
        Err(MoveError::PathBlocked)
    } else {
        Ok(())
    }
}

/// The verdict on moving the piece at `from` to `to`.
pub open spec fn validate_spec(b: Board, from: Coordinate, to: Coordinate) -> Result<
    (),
    MoveError,
> {
    if !from.in_bounds() || !to.in_bounds() {
        Err(MoveError::OutOfBounds)
    } else {
        match b.at_coord(from) {
            None => Err(MoveError::EmptySource),
            Some(p) => match p.kind {
                PieceKind::Pawn => pawn_rule(b, p.color, from, to),
                PieceKind::Rook => rook_rule(b, from, to),
                PieceKind::Knight => knight_rule(b, p.color, from, to),
                PieceKind::Bishop => bishop_rule(b, p.color, from, to),
                PieceKind::Queen | PieceKind::King => Err(MoveError::UnsupportedPieceKind),
            },
        }
    }
}

/// The board after the piece at `from` is lifted and put down on `to`.
pub open spec fn moved(b: Board, after: Board, from: Coordinate, to: Coordinate) -> bool {
    forall|f: int, r: int|
        0 <= f < 8 && 0 <= r < 8 ==> #[trigger] after.at(f, r) == if f == to.file && r
            == to.rank {
            b.at_coord(from)
        } else if f == from.file && r == from.rank {
            None
        } else {
            b.at(f, r)
        }
}

fn abs_diff(a: usize, b: usize) -> (r: usize)
    ensures
        r == dist(a as int, b as int),
{
    if a >= b {
        a - b
    } else {
        b - a
    }
}

fn step_toward(a: usize, b: usize, k: usize) -> (r: usize)
    requires
        k <= dist(a as int, b as int),
    ensures
        r == toward(a as int, b as int, k as int),
{
    if b > a {
        a + k
    } else if b < a {
        a - k
    } else {
        a
    }
}

/// Whether `c` holds a piece of color `color`.
fn is_color(b: &Board, c: Coordinate, color: Color) -> (r: bool)
    requires
        c.in_bounds(),
    ensures
        r == holds_color(*b, c, color),
{
    match b.occupant(c) {
        Some(q) => q.color == color,
        None => false,
    }
}

/// Scans the squares at steps `1..n` from `from` toward `to`.
fn clear_path(b: &Board, from: Coordinate, to: Coordinate, n: usize) -> (r: bool)
    requires
        from.in_bounds(),
        to.in_bounds(),
        n <= 8,
        n == dist(from.file as int, to.file as int) || dist(from.file as int, to.file as int)
            == 0,
        n == dist(from.rank as int, to.rank as int) || dist(from.rank as int, to.rank as int)
            == 0,
    ensures
        r == path_clear(*b, from, to, n as int),
{
    let mut k: usize = 1;
    while k < n
        invariant
            1 <= k,
            n <= 8,
            n == dist(from.file as int, to.file as int) || dist(from.file as int, to.file as int)
                == 0,
            n == dist(from.rank as int, to.rank as int) || dist(from.rank as int, to.rank as int)
                == 0,
            from.in_bounds(),
            to.in_bounds(),
            forall|j: int| 1 <= j < k ==> (#[trigger] line_square(*b, from, to, j)) is None,
        decreases n - k,
    {
        let sq = Coordinate {
            file: step_toward(from.file, to.file, if from.file == to.file { 0 } else { k }),
            rank: step_toward(from.rank, to.rank, if from.rank == to.rank { 0 } else { k }),
        };
        if b.occupant(sq).is_some() {
            assert(line_square(*b, from, to, k as int) is Some);
            return false;
        }
        k = k + 1;
    }
    true
}

fn pawn_move(b: &Board, c: Color, from: Coordinate, to: Coordinate) -> (r: Result<(), MoveError>)
    requires
        from.in_bounds(),
        to.in_bounds(),
    ensures
        r == pawn_rule(*b, c, from, to),
{
    let forward_ok: bool;
    let d2: bool;
    match c {
        Color::White => {
            forward_ok = to.rank + 1 == from.rank;
            d2 = to.rank + 2 == from.rank;
        },
        Color::Black => {
            forward_ok = from.rank + 1 == to.rank;
            d2 = from.rank + 2 == to.rank;
        },
    }
    let df = abs_diff(from.file, to.file);
    if forward_ok && df == 0 {
        if b.occupant(to).is_none() {
            Ok(())
        } else {
            Err(MoveError::DestinationOccupied)
        }
    } else if d2 && df == 0 {
        let start: usize = match c {
            Color::White => 6,
            Color::Black => 1,
        };
        let mid = Coordinate { file: from.file, rank: step_toward(from.rank, to.rank, 1) };
        if from.rank != start {
            Err(MoveError::InvalidPawnMove)
        } else if b.occupant(mid).is_some() {
            Err(MoveError::PathBlocked)
        } else if b.occupant(to).is_some() {
            Err(MoveError::DestinationOccupied)
        } else {
            Ok(())
        }
    } else if forward_ok && df == 1 {
        let other = match c {
            Color::White => Color::Black,
            Color::Black => Color::White,
        };
        if is_color(b, to, other) {
            Ok(())
        } else {
            Err(MoveError::InvalidPawnMove)
        }
    } else {
        Err(MoveError::InvalidPawnMove)
    }
}

fn rook_move(b: &Board, from: Coordinate, to: Coordinate) -> (r: Result<(), MoveError>)
    requires
        from.in_bounds(),
        to.in_bounds(),
    ensures
        r == rook_rule(*b, from, to),
{
    let dx = abs_diff(from.file, to.file);
    let dy = abs_diff(from.rank, to.rank);
    if (dx == 0) == (dy == 0) {
        Err(MoveError::InvalidRookMove)
    } else if !clear_path(b, from, to, dx + dy) {
        Err(MoveError::PathBlocked)
    } else {
        Ok(())
    }
}

fn knight_move(b: &Board, c: Color, from: Coordinate, to: Coordinate) -> (r: Result<
    (),
    MoveError,
>)
    requires
        from.in_bounds(),
        to.in_bounds(),
    ensures
        r == knight_rule(*b, c, from, to),
{
    let dx = abs_diff(from.file, to.file);
    let dy = abs_diff(from.rank, to.rank);
    if !((dx == 1 && dy == 2) || (dx == 2 && dy == 1)) {
        Err(MoveError::InvalidKnightMove)
    } else if is_color(b, to, c) {
        Err(MoveError::CannotCaptureOwnPiece)
    } else {
        Ok(())
    }
}

fn bishop_move(b: &Board, c: Color, from: Coordinate, to: Coordinate) -> (r: Result<
    (),
    MoveError,
>)
    requires
        from.in_bounds(),
        to.in_bounds(),
    ensures
        r == bishop_rule(*b, c, from, to),
{
    let dx = abs_diff(from.file, to.file);
    let dy = abs_diff(from.rank, to.rank);
    if dx != dy || dx == 0 {
        Err(MoveError::InvalidBishopMove)
    } else if is_color(b, to, c) {
        Err(MoveError::CannotCaptureOwnPiece)
    } else if !clear_path(b, from, to, dx) {
        Err(MoveError::PathBlocked)
    } else {
        Ok(())
    }
}

/// Decides whether the piece at `from` may move to `to` by its kind's
/// geometry and the occupancy of the board. Turn order and check are not
/// considered; queens and kings have no rule.
pub fn validate_move(board: &Board, from: Coordinate, to: Coordinate) -> (r: Result<
    (),
    MoveError,
>)
    ensures
        r == validate_spec(*board, from, to),
{
    if from.file >= 8 || from.rank >= 8 || to.file >= 8 || to.rank >= 8 {
        return Err(MoveError::OutOfBounds);
    }
    match board.occupant(from) {
        None => Err(MoveError::EmptySource),
        Some(p) => match p.kind {
            PieceKind::Pawn => pawn_move(board, p.color, from, to),
            PieceKind::Rook => rook_move(board, from, to),
            PieceKind::Knight => knight_move(board, p.color, from, to),
            PieceKind::Bishop => bishop_move(board, p.color, from, to),
            PieceKind::Queen | PieceKind::King => Err(MoveError::UnsupportedPieceKind),
        },
    }
}

/// Lifts the piece at `from` and puts it down on `to`, replacing whatever
/// stood there. No legality check is made: validate first.
pub fn execute_move(board: &mut Board, from: Coordinate, to: Coordinate)
    requires
        from.in_bounds(),
        to.in_bounds(),
    ensures
        moved(*old(board), *final(board), from, to),
{
    let p = board.occupant(from);
    board.set_square(from, None);
    board.set_square(to, p);
}

/// The verdict on a move given as two squares in notation, such as `e2`
/// and `e4`: a malformed square is `InvalidFormat`, else the move is
/// validated.
pub open spec fn make_move_spec(b: Board, from: Seq<char>, to: Seq<char>) -> Result<
    (),
    MoveError,
> {
    match (square_of(from), square_of(to)) {
        (Some(f), Some(t)) => validate_spec(b, f, t),
        _ => Err(MoveError::InvalidFormat),
    }
}

/// Parses `from` and `to` (such as `e2` and `e4`), validates the move and,
/// when it is legal, executes it. On any failure the board is unchanged.
pub fn make_move(board: &mut Board, from: &str, to: &str) -> (r: Result<(), MoveError>)
    ensures
        r == make_move_spec(*old(board), from@, to@),
        r is Ok ==> moved(
            *old(board),
            *final(board),
            square_of(from@).unwrap(),
            square_of(to@).unwrap(),
        ),
        r is Err ==> *final(board) == *old(board),
{
    let (from_rank, from_file) = match parse_position(from) {
        Ok(p) => p,
        Err(e) => return Err(e),
    };
    let (to_rank, to_file) = match parse_position(to) {
        Ok(p) => p,
        Err(e) => return Err(e),
    };
    let src = Coordinate { file: from_file, rank: from_rank };
    let dst = Coordinate { file: to_file, rank: to_rank };
    proof {
        lemma_square_in_bounds(from@[0], from@[1]);
        lemma_square_in_bounds(to@[0], to@[1]);
    }
    match validate_move(board, src, dst) {
        Ok(()) => {
            execute_move(board, src, dst);
            Ok(())
        },
        Err(e) => Err(e),
    }
}

/// A move whose source and destination coordinates coincide is never
/// judged legal, whatever the board.
pub proof fn lemma_null_move_rejected(b: Board, c: Coordinate)
    ensures
        validate_spec(b, c, c) is Err,
{
}

} // verus!
