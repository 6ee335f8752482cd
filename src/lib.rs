//! A chess move-legality engine: board model, square coordinates, move
//! parsing, per-piece movement rules, attack detection and move execution.
pub mod attack;
pub mod board;
pub mod coords;
pub mod executor;
pub mod parser;
pub mod rules;

pub use attack::{
    is_checked, is_checked_diagonal, is_checked_horizontal, is_checked_l_shape, is_checked_vertical,
    is_checkmated,
};
pub use board::{ChessBoard, ChessPiece, Piece, Player, Square};
pub use coords::{get_col, get_row, to_idx};
pub use executor::execute_move;
pub use parser::{convert_to_idx, parse, Operation, ParseError};
pub use rules::{
    validate_diagonals, validate_horizontal_or_vertical, validate_l_shape, validate_move,
    validate_move_by_piece, validate_move_by_pieces,
};
