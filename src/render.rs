use vstd::prelude::*;
use vstd::string::StringExecFns;

use crate::board::Board;
use crate::piece::{Coordinate, Piece, PieceKind};

verus! {

/// The text shown for a square: a one- or two-letter kind symbol, or a
/// single space for an empty square. Colors share symbols.
pub open spec fn symbol_spec(p: Option<Piece>) -> Seq<char> {
    match p {
        None => " "@,
        Some(q) => match q.kind {
            PieceKind::Pawn => "P"@,
            PieceKind::Knight => "Kn"@,
            PieceKind::Bishop => "B"@,
            PieceKind::Rook => "R"@,
            PieceKind::Queen => "Q"@,
            PieceKind::King => "K"@,
        },
    }
}

/// A square is light when its rank and file indices add up to an even number.
pub open spec fn is_light(rank: int, file: int) -> bool {
    (rank + file) % 2 == 0
}

/// The table cell for `(file, rank)`.
pub open spec fn cell_html(b: Board, rank: int, file: int) -> Seq<char> {
    "<td style='width: 50px; height: 50px; text-align: center; background-color: "@ + (if is_light(
        rank,
        file,
    ) {
        "#eee"@
    } else {
        "#333"@
    }) + "; color: "@ + (if is_light(rank, file) {
        "#000"@
    } else {
        "#fff"@
    }) + "; border: 1px solid #000;'>"@ + symbol_spec(b.at(file, rank)) + "</td>"@
}

/// The cells of files `0..n` of rank `rank`, in order.
pub open spec fn row_cells(b: Board, rank: int, n: int) -> Seq<char>
    decreases n,
{
    if n <= 0 {
        Seq::empty()
    } else {
        row_cells(b, rank, n - 1) + cell_html(b, rank, n - 1)
    }
}

/// The table row for rank index `rank`.
pub open spec fn row_html(b: Board, rank: int) -> Seq<char> {
    "<tr>"@ + row_cells(b, rank, 8) + "</tr>"@
}

/// The rows for rank indices `0..n`, in order.
pub open spec fn rows_html(b: Board, n: int) -> Seq<char>
    decreases n,
{
    if n <= 0 {
        Seq::empty()
    } else {
        rows_html(b, n - 1) + row_html(b, n - 1)
    }
}

/// The whole board as an HTML table, rank index 0 first.
pub open spec fn board_html(b: Board) -> Seq<char> {
    "<table style='border-collapse: collapse;'>"@ + rows_html(b, 8) + "</table>"@
}

/// The symbol for a square's occupant.
pub fn piece_symbol(p: Option<Piece>) -> (r: &'static str)
    ensures
        r@ == symbol_spec(p),
{
    match p {
        None => " ",
        Some(q) => match q.kind {
            PieceKind::Pawn => "P",
            PieceKind::Knight => "Kn",
            PieceKind::Bishop => "B",
            PieceKind::Rook => "R",
            PieceKind::Queen => "Q",
            PieceKind::King => "K",
        },
    }
}

impl Board {
    /// The symbol of the piece at rank index `rank` and file index `file`
    /// (`" "` for an empty square).
    pub fn square_symbol(&self, rank: usize, file: usize) -> (r: &'static str)
        requires
            rank < 8,
            file < 8,
        ensures
            r@ == symbol_spec(self.at(file as int, rank as int)),
    {
        piece_symbol(self.occupant(Coordinate { file, rank }))
    }
}

fn cell_markup(b: &Board, rank: usize, file: usize) -> (s: String)
    requires
        rank < 8,
        file < 8,
    ensures
        s@ == cell_html(*b, rank as int, file as int),
{
    let light = (rank + file) % 2 == 0;
    let mut s = String::from_str(
        "<td style='width: 50px; height: 50px; text-align: center; background-color: ",
    );
    s.append(
        if light {
            "#eee"
        } else {
            "#333"
        },
    );
    s.append("; color: ");
    s.append(
        if light {
            "#000"
        } else {
            "#fff"
        },
    );
    s.append("; border: 1px solid #000;'>");
    s.append(b.square_symbol(rank, file));
    s.append("</td>");
    s
}

/// Renders the board as an HTML table with alternating light and dark
/// squares, one row per rank index from 0 to 7.
pub fn render_chessboard(board: &Board) -> (html: String)
    ensures
        html@ == board_html(*board),
{
    let mut html = String::from_str("<table style='border-collapse: collapse;'>");
    let mut i: usize = 0;
    while i < 8
        invariant
            i <= 8,
            html@ == "<table style='border-collapse: collapse;'>"@ + rows_html(*board, i as int),
        decreases 8 - i,
    {
        let ghost before = html@;
        html.append("<tr>");
        let mut j: usize = 0;
        while j < 8
            invariant
                i < 8,
                j <= 8,
                html@ == before + "<tr>"@ + row_cells(*board, i as int, j as int),
            decreases 8 - j,
        {
            let cell = cell_markup(board, i, j);
            html.append(cell.as_str());
            proof {
                assert(html@ =~= before + "<tr>"@ + row_cells(*board, i as int, j + 1));
            }
            j = j + 1;
        }
        html.append("</tr>");
        proof {
            assert(html@ =~= "<table style='border-collapse: collapse;'>"@ + rows_html(
                *board,
                i + 1,
            ));
        }
        i = i + 1;
    }
    html.append("</table>");
    html
}

} // verus!
