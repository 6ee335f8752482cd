//! Applying a move to a board.
use vstd::prelude::*;
use crate::attack::holds_king;
use crate::board::{ChessBoard, ChessPiece, Piece, Square};
use crate::coords::BOARD_SIZE;
use crate::parser::Operation;

verus! {

/// The move from `from` to `to` changes the board: both squares are on it,
/// the origin holds a piece, and the destination holds no king.
pub open spec fn move_applies(v: Seq<Option<ChessPiece>>, from: int, to: int) -> bool {
    &&& 0 <= from < 64
    &&& 0 <= to < 64
    &&& v[from] is Some
    &&& !holds_king(v, to)
}

/// Occupant of square `idx` after the piece on `from` has moved to `to`.
pub open spec fn moved_occupant(v: Seq<Option<ChessPiece>>, from: int, to: int, idx: int) -> Option<ChessPiece> {
    if idx == to {
        v[from]
    } else if idx == from {
        None
    } else {
        v[idx]
    }
}

/// The board after the move `op`: the piece on the origin goes to the
/// destination, replacing what stood there, and the origin is left empty.
/// A move onto a king is not made, nor one from an empty square or with an
/// index off the board: then the board comes back unchanged. Legality is not
/// checked here.
pub fn execute_move(op: Operation, chess_board: &ChessBoard) -> (r: ChessBoard)
    ensures
        move_applies(chess_board@, op.from as int, op.to as int) ==> forall|i: int|
            0 <= i < 64 ==> r@[i] == moved_occupant(chess_board@, op.from as int, op.to as int, i),
        !move_applies(chess_board@, op.from as int, op.to as int) ==> r@ == chess_board@,
        holds_king(chess_board@, op.to as int) ==> r@[op.to as int] == chess_board@[op.to as int],
{
    let from = op.from;
    let to = op.to;
    let mut board = chess_board.board;
    if from >= BOARD_SIZE || to >= BOARD_SIZE {
        return ChessBoard { board };
    }
    match (board[from].value, board[to].value) {
        (Some(_), Some(b)) => {
            if b.piece != Piece::King {
                board[to] = board[from];
                if from != to {
                    board[from] = Square::new();
                }
            }
        },
        (Some(_), None) => {
            board[to] = board[from];
            if from != to {
                board[from] = Square::new();
            }
        },
        (None, _) => {},
    }
    let r = ChessBoard { board };
    assert(!move_applies(chess_board@, from as int, to as int) ==> r@ =~= chess_board@);
    r
}

} // verus!
