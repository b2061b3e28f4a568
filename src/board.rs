use vstd::prelude::*;

use crate::piece::{back_rank_kind, back_rank_piece_kind, Color, Coordinate, Piece, PieceKind};

verus! {

/// An 8x8 grid of squares, each empty or holding one piece. Squares are
/// stored rank by rank, so `(file, rank)` lives at index `rank * 8 + file`.
#[derive(Clone, Copy, Debug)]
pub struct Board {
    squares: [Option<Piece>; 64],
}

/// What stands on `(file, rank)` in the standard initial position.
pub open spec fn initial_occupant(file: int, rank: int) -> Option<Piece> {
    if rank == 0 {
        Some(Piece { kind: back_rank_kind(file), color: Color::Black })
    } else if rank == 1 {
        Some(Piece { kind: PieceKind::Pawn, color: Color::Black })
    } else if rank == 6 {
        Some(Piece { kind: PieceKind::Pawn, color: Color::White })
    } else if rank == 7 {
        Some(Piece { kind: back_rank_kind(file), color: Color::White })
    } else {
        None
    }
}

impl Board {
    /// The occupant of `(file, rank)`; meaningful for both axes in `0..8`.
    pub closed spec fn at(self, file: int, rank: int) -> Option<Piece> {
        self.squares@[rank * 8 + file]
    }

    /// The occupant of square `c`.
    pub open spec fn at_coord(self, c: Coordinate) -> Option<Piece> {
        self.at(c.file as int, c.rank as int)
    }

    /// Looks up the occupant of square `c`.
    pub fn occupant(&self, c: Coordinate) -> (r: Option<Piece>)
        requires
            c.in_bounds(),
        ensures
            r == self.at_coord(c),
    {
        self.squares[c.rank * 8 + c.file]
    }

    /// Puts `p` on square `c` (or empties it, for `None`), leaving every
    /// other square as it was.
    pub fn set_square(&mut self, c: Coordinate, p: Option<Piece>)
        requires
            c.in_bounds(),
        ensures
            forall|f: int, r: int|
                0 <= f < 8 && 0 <= r < 8 ==> #[trigger] final(self).at(f, r) == if f == c.file
                    && r == c.rank {
                    p
                } else {
                    old(self).at(f, r)
                },
    {
        self.squares[c.rank * 8 + c.file] = p;
    }
}

/// A board with no piece on it.
pub fn empty_board() -> (b: Board)
    ensures
        forall|f: int, r: int| 0 <= f < 8 && 0 <= r < 8 ==> #[trigger] b.at(f, r) is None,
{
    Board { squares: [None; 64] }
}

/// The standard initial position: Black on ranks 0 and 1, White on ranks 6
/// and 7, ranks 2 to 5 empty.
pub fn initialize_board() -> (b: Board)
    ensures
        forall|f: int, r: int|
            0 <= f < 8 && 0 <= r < 8 ==> #[trigger] b.at(f, r) == initial_occupant(f, r),
{
    let mut squares: [Option<Piece>; 64] = [None; 64];
    let mut f: usize = 0;
    while f < 8
        invariant
            f <= 8,
            forall|i: int, r: int|
                0 <= i < 8 && 0 <= r < 8 ==> #[trigger] squares@[r * 8 + i] == if i < f {
                    initial_occupant(i, r)
                } else {
                    None
                },
        decreases 8 - f,
    {
        let kind = back_rank_piece_kind(f);
        squares[f] = Some(Piece { kind, color: Color::Black });
        squares[8 + f] = Some(Piece { kind: PieceKind::Pawn, color: Color::Black });
        squares[48 + f] = Some(Piece { kind: PieceKind::Pawn, color: Color::White });
        squares[56 + f] = Some(Piece { kind, color: Color::White });
        f = f + 1;
    }
    Board { squares }
}

} // verus!
