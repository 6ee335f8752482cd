//! Attack detection by ray walks, and the check and checkmate signals of a
//! move.
//!
//! A walk starts on a square, steps away from it in one direction, and looks
//! at each square it reaches: a piece of the other side that attacks along
//! that geometry means the start is attacked, any other piece blocks the
//! walk, and an empty square lets the walk go on unless the square lies on
//! the board's border (row or column 0 or 7), where the walk stops.
use vstd::prelude::*;
use crate::board::{ChessBoard, ChessPiece, Piece, Player};
use crate::coords::{col_of, get_col, get_row, index_of, row_of, to_idx, BOARD_SIZE};
use crate::parser::Operation;

verus! {

/// The geometry a walk follows, which decides the pieces that attack along
/// it.
#[derive(Clone, Copy, Debug, PartialEq, Eq, Structural)]
pub enum Geometry {
    /// Along a row or a column: rooks and queens.
    Line,
    /// Along a diagonal: pawns, bishops and queens.
    Diagonal,
    /// By knight offsets: knights.
    Jump,
}

/// Whether a piece of the given kind attacks along the geometry.
pub open spec fn threatens(g: Geometry, p: Piece) -> bool {
    match g {
        Geometry::Line => p == Piece::Rook || p == Piece::Queen,
        Geometry::Diagonal => p == Piece::Pawn || p == Piece::Bishop || p == Piece::Queen,
        Geometry::Jump => p == Piece::Knight,
    }
}

/// The square lies on the border of the board.
pub open spec fn on_border(row: int, col: int) -> bool {
    row == 0 || col == 0 || row == 7 || col == 7
}

/// The walk from (`row`, `col`) in direction (`dr`, `dc`) reaches a piece of
/// the side other than `player` that attacks along `g`.
pub open spec fn ray_attacked(
    v: Seq<Option<ChessPiece>>,
    row: int,
    col: int,
    dr: int,
    dc: int,
    player: Player,
    g: Geometry,
) -> bool
    decreases
            (if dr > 0 {
                8 - row
            } else if dr < 0 {
                row
            } else if dc > 0 {
                8 - col
            } else {
                col
            }),
{
    let r = row + dr;
    let c = col + dc;
    if (dr == 0 && dc == 0) || !(0 <= r < 8 && 0 <= c < 8) {
        false
    } else {
        match v[index_of(r, c)] {
            Some(p) => threatens(g, p.piece) && p.player != player,
            None => !on_border(r, c) && ray_attacked(v, r, c, dr, dc, player, g),
        }
    }
}

/// Walks from (`row`, `col`) in direction (`dr`, `dc`); see `ray_attacked`.
fn walk(
    chess_board: &ChessBoard,
    row: usize,
    col: usize,
    dr: i64,
    dc: i64,
    player: Player,
    g: Geometry,
) -> (r: bool)
    requires
        row < 8,
        col < 8,
        -2 <= dr <= 2,
        -2 <= dc <= 2,
    ensures
        r == ray_attacked(chess_board@, row as int, col as int, dr as int, dc as int, player, g),
    decreases
            (if dr > 0 {
                8 - row
            } else if dr < 0 {
                row as int
            } else if dc > 0 {
                8 - col
            } else {
                col as int
            }),
{
    let r = row as i64 + dr;
    let c = col as i64 + dc;
    if (dr == 0 && dc == 0) || r < 0 || r >= 8 || c < 0 || c >= 8 {
        return false;
    }
    let idx = to_idx(r as usize, c as usize);
    match chess_board.board[idx].value {
        Some(p) => {
            let hits = match g {
                Geometry::Line => p.piece == Piece::Rook || p.piece == Piece::Queen,
                Geometry::Diagonal => p.piece == Piece::Pawn || p.piece == Piece::Bishop
                    || p.piece == Piece::Queen,
                Geometry::Jump => p.piece == Piece::Knight,
            };
            hits && p.player != player
        },
        None => {
            if r == 0 || c == 0 || r == 7 || c == 7 {
                false
            } else {
                walk(chess_board, r as usize, c as usize, dr, dc, player, g)
            }
        },
    }
}

/// Whether a rook or queen of the side other than `player` attacks the
/// square (`row`, `col`) along its row, walking left and right. A square off
/// the board is not attacked.
pub fn is_checked_horizontal(chess_board: &ChessBoard, row: usize, col: usize, player: Player) -> (r: bool)
    ensures
        r == (row < 8 && col < 8 && (ray_attacked(chess_board@, row as int, col as int, 0, -1, player, Geometry::Line)
            || ray_attacked(chess_board@, row as int, col as int, 0, 1, player, Geometry::Line))),
{
    if row >= 8 || col >= 8 {
        return false;
    }
    walk(chess_board, row, col, 0, -1, player, Geometry::Line)
        || walk(chess_board, row, col, 0, 1, player, Geometry::Line)
}

/// Whether a rook or queen of the side other than `player` attacks the
/// square (`row`, `col`) along its column, walking up and down. A square off
/// the board is not attacked.
pub fn is_checked_vertical(chess_board: &ChessBoard, row: usize, col: usize, player: Player) -> (r: bool)
    ensures
        r == (row < 8 && col < 8 && (ray_attacked(chess_board@, row as int, col as int, 1, 0, player, Geometry::Line)
            || ray_attacked(chess_board@, row as int, col as int, -1, 0, player, Geometry::Line))),
{
    if row >= 8 || col >= 8 {
        return false;
    }
    walk(chess_board, row, col, 1, 0, player, Geometry::Line)
        || walk(chess_board, row, col, -1, 0, player, Geometry::Line)
}

/// Whether a pawn, bishop or queen of the side other than `player` attacks
/// the square (`row`, `col`) along one of its four diagonals. A square off
/// the board is not attacked.
pub fn is_checked_diagonal(chess_board: &ChessBoard, row: usize, col: usize, player: Player) -> (r: bool)
    ensures
        r == (row < 8 && col < 8 && (ray_attacked(chess_board@, row as int, col as int, 1, 1, player, Geometry::Diagonal)
            || ray_attacked(chess_board@, row as int, col as int, 1, -1, player, Geometry::Diagonal)
            || ray_attacked(chess_board@, row as int, col as int, -1, 1, player, Geometry::Diagonal)
            || ray_attacked(chess_board@, row as int, col as int, -1, -1, player, Geometry::Diagonal))),
{
    if row >= 8 || col >= 8 {
        return false;
    }
    walk(chess_board, row, col, 1, 1, player, Geometry::Diagonal)
        || walk(chess_board, row, col, 1, -1, player, Geometry::Diagonal)
        || walk(chess_board, row, col, -1, 1, player, Geometry::Diagonal)
        || walk(chess_board, row, col, -1, -1, player, Geometry::Diagonal)
}

/// Whether a knight of the side other than `player` attacks the square
/// (`row`, `col`), walking each of the eight knight offsets on through empty
/// inner squares. A square off the board is not attacked.
pub fn is_checked_l_shape(chess_board: &ChessBoard, row: usize, col: usize, player: Player) -> (r: bool)
    ensures
        r == (row < 8 && col < 8 && (ray_attacked(chess_board@, row as int, col as int, 2, 1, player, Geometry::Jump)
            || ray_attacked(chess_board@, row as int, col as int, 2, -1, player, Geometry::Jump)
            || ray_attacked(chess_board@, row as int, col as int, 1, 2, player, Geometry::Jump)
            || ray_attacked(chess_board@, row as int, col as int, -1, 2, player, Geometry::Jump)
            || ray_attacked(chess_board@, row as int, col as int, 1, -2, player, Geometry::Jump)
            || ray_attacked(chess_board@, row as int, col as int, -1, -2, player, Geometry::Jump)
            || ray_attacked(chess_board@, row as int, col as int, -2, -1, player, Geometry::Jump)
            || ray_attacked(chess_board@, row as int, col as int, -2, 1, player, Geometry::Jump))),
{
    if row >= 8 || col >= 8 {
        return false;
    }
    walk(chess_board, row, col, 2, 1, player, Geometry::Jump)
        || walk(chess_board, row, col, 2, -1, player, Geometry::Jump)
        || walk(chess_board, row, col, 1, 2, player, Geometry::Jump)
        || walk(chess_board, row, col, -1, 2, player, Geometry::Jump)
        || walk(chess_board, row, col, 1, -2, player, Geometry::Jump)
        || walk(chess_board, row, col, -1, -2, player, Geometry::Jump)
        || walk(chess_board, row, col, -2, -1, player, Geometry::Jump)
        || walk(chess_board, row, col, -2, 1, player, Geometry::Jump)
}

/// The square holds a king (of either side).
pub open spec fn holds_king(v: Seq<Option<ChessPiece>>, idx: int) -> bool {
    0 <= idx < 64 && v[idx] is Some && v[idx]->0.piece == Piece::King
}

/// The square (`row`, `col`) is off the board or occupied.
pub open spec fn closed(v: Seq<Option<ChessPiece>>, row: int, col: int) -> bool {
    !(0 <= row < 8 && 0 <= col < 8) || v[index_of(row, col)] is Some
}

/// Every square of the board next to `idx` in its row or column is
/// occupied, whatever side the occupants are on.
pub open spec fn surrounded(v: Seq<Option<ChessPiece>>, idx: int) -> bool {
    let row = row_of(idx);
    let col = col_of(idx);
    &&& closed(v, row + 1, col)
    &&& closed(v, row - 1, col)
    &&& closed(v, row, col - 1)
    &&& closed(v, row, col + 1)
}

/// Whether the move `op` is a king capture, taken as the signal that it
/// gives check: its destination holds a king. A destination off the board
/// gives `false`.
pub fn is_checked(op: Operation, chess_board: &ChessBoard) -> (r: bool)
    ensures
        r == holds_king(chess_board@, op.to as int),
{
    if op.to >= BOARD_SIZE {
        return false;
    }
    match chess_board.board[op.to].value {
        Some(a) => a.piece == Piece::King,
        None => false,
    }
}

/// Whether the square (`row`, `col`) is off the board or occupied.
fn is_closed(chess_board: &ChessBoard, row: i64, col: i64) -> (r: bool)
    requires
        -1 <= row <= 8,
        -1 <= col <= 8,
    ensures
        r == closed(chess_board@, row as int, col as int),
{
    if row < 0 || row >= 8 || col < 0 || col >= 8 {
        return true;
    }
    chess_board.board[to_idx(row as usize, col as usize)].value.is_some()
}

/// A coarse checkmate signal, not real mate detection: the destination of
/// `op` holds a king, and each square next to it in its row or column that
/// lies on the board is occupied, by either side. Diagonal escapes and
/// whether the king could move at all are not considered.
pub fn is_checkmated(op: Operation, chess_board: &ChessBoard) -> (r: bool)
    ensures
        r == (holds_king(chess_board@, op.to as int) && surrounded(chess_board@, op.to as int)),
{
    let to = op.to;
    if to >= BOARD_SIZE {
        return false;
    }
    match chess_board.board[to].value {
        Some(a) => {
            if a.piece != Piece::King {
                return false;
            }
        },
        None => {
            return false;
        },
    }
    let row = get_row(to) as i64;
    let col = get_col(to) as i64;
    is_closed(chess_board, row + 1, col) && is_closed(chess_board, row - 1, col)
        && is_closed(chess_board, row, col - 1) && is_closed(chess_board, row, col + 1)
}

} // verus!
