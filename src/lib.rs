//! A chess board model with per-piece move legality, coordinate notation
//! parsing and HTML rendering, verified with Verus.
pub mod board;
pub mod notation;
pub mod piece;
pub mod render;
pub mod rules;

pub use board::{empty_board, initialize_board, Board};
pub use notation::{parse_move, parse_position};
pub use piece::{Color, Coordinate, MoveError, Piece, PieceKind};
pub use render::{piece_symbol, render_chessboard};
pub use rules::{execute_move, make_move, validate_move};
