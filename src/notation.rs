use vstd::prelude::*;
use vstd::string::StrSliceExecFns;

use crate::piece::{Coordinate, MoveError};

verus! {

/// A lowercase file letter `a` to `h`.
pub open spec fn is_file_char(c: char) -> bool {
    'a' as int <= c as int <= 'h' as int
}

/// A rank digit `1` to `8`.
pub open spec fn is_rank_char(c: char) -> bool {
    '1' as int <= c as int <= '8' as int
}

/// The square named by file letter `f` and rank digit `r`: `a` is file 0,
/// and digit `d` is rank index `8 - d`.
pub open spec fn square_spec(f: char, r: char) -> Option<Coordinate> {
    if is_file_char(f) && is_rank_char(r) {
        Some(
            Coordinate {
                file: (f as int - 'a' as int) as usize,
                rank: (8 - (r as int - '0' as int)) as usize,
            },
        )
    } else {
        None
    }
}

/// The square named by a two-character text such as `e2`.
pub open spec fn square_of(s: Seq<char>) -> Option<Coordinate> {
    if s.len() == 2 {
        square_spec(s[0], s[1])
    } else {
        None
    }
}

/// `(rank index, file index)` of the square named by `s`.
pub open spec fn position_spec(s: Seq<char>) -> Result<(usize, usize), MoveError> {
    match square_of(s) {
        Some(c) => Ok((c.rank, c.file)),
        None => Err(MoveError::InvalidFormat),
    }
}

/// `(from, to)` of a four-character move such as `e2e4`.
pub open spec fn move_spec(s: Seq<char>) -> Result<(Coordinate, Coordinate), MoveError> {
    if s.len() == 4 && square_spec(s[0], s[1]) is Some && square_spec(s[2], s[3]) is Some {
        Ok((square_spec(s[0], s[1]).unwrap(), square_spec(s[2], s[3]).unwrap()))
    } else {
        Err(MoveError::InvalidFormat)
    }
}

/// Every square that notation names lies on the board.
pub proof fn lemma_square_in_bounds(f: char, r: char)
    requires
        square_spec(f, r) is Some,
    ensures
        square_spec(f, r).unwrap().in_bounds(),
{
}

/// Reads the square whose file letter is at `i` and rank digit at `i + 1`.
fn square_at(s: &str, i: usize) -> (r: Option<Coordinate>)
    requires
        i + 1 < s@.len(),
        i < 3,
    ensures
        r == square_spec(s@[i as int], s@[i + 1]),
{
    let f = s.get_char(i);
    let d = s.get_char(i + 1);
    if 'a' <= f && f <= 'h' && '1' <= d && d <= '8' {
        Some(Coordinate { file: (f as u32 - 'a' as u32) as usize, rank: 8 - (d as u32 - '0' as u32) as usize })
    } else {
        None
    }
}

/// Parses a square such as `e2` into `(rank index, file index)`: `e2` is
/// `(6, 4)` and `a8` is `(0, 0)`.
pub fn parse_position(pos: &str) -> (r: Result<(usize, usize), MoveError>)
    ensures
        r == position_spec(pos@),
{
    if pos.unicode_len() != 2 {
        return Err(MoveError::InvalidFormat);
    }
    match square_at(pos, 0) {
        Some(c) => Ok((c.rank, c.file)),
        None => Err(MoveError::InvalidFormat),
    }
}

/// Parses a move such as `e2e4` into its source and destination squares.
pub fn parse_move(text: &str) -> (r: Result<(Coordinate, Coordinate), MoveError>)
    ensures
        r == move_spec(text@),
{
    if text.unicode_len() != 4 {
        return Err(MoveError::InvalidFormat);
    }
    match (square_at(text, 0), square_at(text, 2)) {
        (Some(from), Some(to)) => Ok((from, to)),
        _ => Err(MoveError::InvalidFormat),
    }
}

} // verus!
