use vstd::prelude::*;

verus! {

/// The side a piece belongs to.
#[derive(Clone, Copy, Debug, PartialEq, Eq, Structural)]
pub enum Color {
    White,
    Black,
}

/// The six kinds of chess pieces.
#[derive(Clone, Copy, Debug, PartialEq, Eq, Structural)]
pub enum PieceKind {
    Pawn,
    Knight,
    Bishop,
    Rook,
    Queen,
    King,
}

/// A piece: its kind and its color.
#[derive(Clone, Copy, Debug, PartialEq, Eq, Structural)]
pub struct Piece {
    pub kind: PieceKind,
    pub color: Color,
}

/// A square of the board. `file` 0 is the `a` file; `rank` 0 is the row
/// labelled `8` and `rank` 7 the row labelled `1`.
#[derive(Clone, Copy, Debug, PartialEq, Eq, Structural)]
pub struct Coordinate {
    pub file: usize,
    pub rank: usize,
}

/// Every way that parsing or validating a move can fail.
#[derive(Clone, Copy, Debug, PartialEq, Eq, Structural)]
pub enum MoveError {
    /// The notation is not well-formed coordinate notation.
    InvalidFormat,
    /// A coordinate lies outside the board.
    OutOfBounds,
    /// No piece stands on the source square.
    EmptySource,
    InvalidPawnMove,
    InvalidRookMove,
    InvalidKnightMove,
    InvalidBishopMove,
    /// A pawn advance targets an occupied square.
    DestinationOccupied,
    /// The destination holds a piece of the mover's own color.
    CannotCaptureOwnPiece,
    /// A square strictly between source and destination is occupied.
    PathBlocked,
    /// No movement rule exists for queens and kings.
    UnsupportedPieceKind,
}

impl Coordinate {
    /// Both axes lie in `0..8`.
    pub open spec fn in_bounds(self) -> bool {
        self.file < 8 && self.rank < 8
    }
}

/// The kind standing on `file` of either back rank in the initial setup.
pub open spec fn back_rank_kind(file: int) -> PieceKind {
    if file == 0 || file == 7 {
        PieceKind::Rook
    } else if file == 1 || file == 6 {
        PieceKind::Knight
    } else if file == 2 || file == 5 {
        PieceKind::Bishop
    } else if file == 3 {
        PieceKind::Queen
    } else {
        PieceKind::King
    }
}

/// Executable form of `back_rank_kind`.
pub(crate) fn back_rank_piece_kind(file: usize) -> (k: PieceKind)
    ensures
        k == back_rank_kind(file as int),
{
    if file == 0 || file == 7 {
        PieceKind::Rook
    } else if file == 1 || file == 6 {
        PieceKind::Knight
    } else if file == 2 || file == 5 {
        PieceKind::Bishop
    } else if file == 3 {
        PieceKind::Queen
    } else {
        PieceKind::King
    }
}

} // verus!
