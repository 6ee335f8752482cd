//! Per-piece movement rules and the legality of a move on a board.
//!
//! Every predicate here is total: an index outside the board makes the move
//! illegal, never an error. Two simplifications of real chess are kept on
//! purpose and documented where they apply: a pawn or king that moves onto an
//! empty square may only go one rank up (`to == from + 8`), and a queen's
//! move must pass both the diagonal and the straight-line test, which no move
//! with a displacement does.
use vstd::prelude::*;
use crate::board::{ChessBoard, ChessPiece, Piece, Player};
use crate::coords::{col_of, get_col, get_row, index_of, row_of, to_idx, BOARD_SIZE};
use crate::parser::Operation;

verus! {

/// The index names a square of the board.
pub open spec fn on_board(idx: int) -> bool {
    0 <= idx < 64
}

/// Absolute difference of two integers.
pub open spec fn distance(a: int, b: int) -> int {
    if a <= b {
        b - a
    } else {
        a - b
    }
}

/// Coordinate reached after `s` steps from `a` toward `b` (staying on `a`
/// when both are equal).
pub open spec fn toward(a: int, b: int, s: int) -> int {
    if a < b {
        a + s
    } else if b < a {
        a - s
    } else {
        a
    }
}

/// The squares passed on the first `n - 1` steps from `from` toward `to`
/// are all empty (the endpoints are not looked at).
pub open spec fn clear_between(v: Seq<Option<ChessPiece>>, from: int, to: int, n: int) -> bool {
    forall|s: int|
        0 < s < n ==> (#[trigger] v[index_of(
            toward(row_of(from), row_of(to), s),
            toward(col_of(from), col_of(to), s),
        )]) is None
}

/// A rook-like move: `from` and `to` are distinct squares of one row or one
/// column, and every square strictly between them is empty.
pub open spec fn straight_path(v: Seq<Option<ChessPiece>>, from: int, to: int) -> bool {
    let dr = distance(row_of(from), row_of(to));
    let dc = distance(col_of(from), col_of(to));
    &&& on_board(from)
    &&& on_board(to)
    &&& from != to
    &&& (dr == 0 || dc == 0)
    &&& clear_between(v, from, to, dr + dc)
}

/// A bishop-like move: `from` and `to` are distinct squares of one diagonal
/// (`|Δrow| == |Δcol|`), and every square strictly between them is empty.
pub open spec fn diagonal_path(v: Seq<Option<ChessPiece>>, from: int, to: int) -> bool {
    let dr = distance(row_of(from), row_of(to));
    let dc = distance(col_of(from), col_of(to));
    &&& on_board(from)
    &&& on_board(to)
    &&& from != to
    &&& dr == dc
    &&& clear_between(v, from, to, dr)
}

/// A knight's jump: the row and column distances are 1 and 2 in some order.
/// Nothing between the squares matters.
pub open spec fn knight_jump(from: int, to: int) -> bool {
    let dr = distance(row_of(from), row_of(to));
    let dc = distance(col_of(from), col_of(to));
    &&& on_board(from)
    &&& on_board(to)
    &&& ((dr == 1 && dc == 2) || (dr == 2 && dc == 1))
}

/// Whether `piece`, standing on `from`, may move to the empty square `to`.
/// Pawns and kings may only go one rank up; a queen needs both a diagonal
/// and a straight path.
pub open spec fn step_legal(v: Seq<Option<ChessPiece>>, piece: ChessPiece, from: int, to: int) -> bool {
    on_board(from) && on_board(to) && match piece.piece {
        Piece::Pawn | Piece::King => to == from + 8,
        Piece::Rook => straight_path(v, from, to),
        Piece::Bishop => diagonal_path(v, from, to),
        Piece::Queen => diagonal_path(v, from, to) && straight_path(v, from, to),
        Piece::Knight => knight_jump(from, to),
    }
}

/// Row a pawn of the given side captures on, from the given row: White
/// advances toward higher rows, Black toward lower ones.
pub open spec fn pawn_capture_row(player: Player, row: int) -> int {
    match player {
        Player::White => row + 1,
        Player::Black => row - 1,
    }
}

/// Whether `mover`, standing on `from`, may capture `target` on `to`. A piece
/// never captures one of its own side. A pawn captures one square diagonally
/// forward, a king one square diagonally in any direction; the other pieces
/// capture along the same paths they move on.
pub open spec fn capture_legal(
    v: Seq<Option<ChessPiece>>,
    mover: ChessPiece,
    target: ChessPiece,
    from: int,
    to: int,
) -> bool {
    &&& on_board(from)
    &&& on_board(to)
    &&& mover.player != target.player
    &&& match mover.piece {
        Piece::Pawn => distance(col_of(from), col_of(to)) == 1 && row_of(to) == pawn_capture_row(
            mover.player,
            row_of(from),
        ),
        Piece::King => distance(col_of(from), col_of(to)) == 1 && distance(
            row_of(from),
            row_of(to),
        ) == 1,
        Piece::Queen => diagonal_path(v, from, to) && straight_path(v, from, to),
        Piece::Bishop => diagonal_path(v, from, to),
        Piece::Knight => knight_jump(from, to),
        Piece::Rook => straight_path(v, from, to),
    }
}

/// Whether moving what stands on `from` to `to` is legal on the board `v`:
/// both squares are on the board, `from` holds a piece, and that piece may
/// move to the empty square `to` or capture what stands there.
pub open spec fn move_legal(v: Seq<Option<ChessPiece>>, from: int, to: int) -> bool {
    on_board(from) && on_board(to) && match v[from] {
        None => false,
        Some(mover) => match v[to] {
            None => step_legal(v, mover, from, to),
            Some(target) => capture_legal(v, mover, target, from, to),
        },
    }
}

/// Absolute difference of two indices or coordinates.
fn abs_diff(a: usize, b: usize) -> (r: usize)
    ensures
        r == distance(a as int, b as int),
{
    if a <= b {
        b - a
    } else {
        a - b
    }
}

/// Coordinate reached after `s` steps from `a` toward `b`.
fn step_toward(a: usize, b: usize, s: usize) -> (r: usize)
    requires
        a < 8,
        b < 8,
        a == b || s <= distance(a as int, b as int),
    ensures
        r == toward(a as int, b as int, s as int),
        r < 8,
{
    if a < b {
        a + s
    } else if b < a {
        a - s
    } else {
        a
    }
}

/// Whether the squares on the first `n - 1` steps from `from` toward `to`
/// are all empty. Each coordinate either stays put or moves `n` in all.
fn path_clear(chess_board: &ChessBoard, from: usize, to: usize, n: usize) -> (r: bool)
    requires
        from < BOARD_SIZE,
        to < BOARD_SIZE,
        row_of(from as int) == row_of(to as int) || distance(row_of(from as int), row_of(to as int)) == n,
        col_of(from as int) == col_of(to as int) || distance(col_of(from as int), col_of(to as int)) == n,
    ensures
        r == clear_between(chess_board@, from as int, to as int, n as int),
{
    let from_row = get_row(from);
    let from_col = get_col(from);
    let to_row = get_row(to);
    let to_col = get_col(to);
    let mut s: usize = 1;
    while s < n
        invariant
            1 <= s,
            from_row < 8 && from_col < 8 && to_row < 8 && to_col < 8,
            from_row == row_of(from as int) && to_row == row_of(to as int),
            from_col == col_of(from as int) && to_col == col_of(to as int),
            from_row == to_row || distance(from_row as int, to_row as int) == n,
            from_col == to_col || distance(from_col as int, to_col as int) == n,
            forall|t: int|
                0 < t < s ==> (#[trigger] chess_board@[index_of(
                    toward(from_row as int, to_row as int, t),
                    toward(from_col as int, to_col as int, t),
                )]) is None,
        decreases n - s,
    {
        let row = step_toward(from_row, to_row, s);
        let col = step_toward(from_col, to_col, s);
        let idx = to_idx(row, col);
        if chess_board.board[idx].value.is_some() {
            assert(chess_board@[idx as int] is Some);
            return false;
        }
        s = s + 1;
    }
    true
}

/// Whether a rook-like move from `from` to `to` is open: both on the board,
/// distinct, on one row or one column, with every square strictly between
/// them empty. The endpoints themselves are not looked at.
pub fn validate_horizontal_or_vertical(chess_board: &ChessBoard, from: usize, to: usize) -> (r: bool)
    ensures
        r == straight_path(chess_board@, from as int, to as int),
{
    if from >= BOARD_SIZE || to >= BOARD_SIZE || from == to {
        return false;
    }
    let dr = abs_diff(get_row(from), get_row(to));
    let dc = abs_diff(get_col(from), get_col(to));
    if dr != 0 && dc != 0 {
        return false;
    }
    path_clear(chess_board, from, to, dr + dc)
}

/// Whether a bishop-like move from `from` to `to` is open: both on the board,
/// distinct, on one diagonal, with every square strictly between them empty.
/// The endpoints themselves are not looked at.
pub fn validate_diagonals(chess_board: &ChessBoard, from: usize, to: usize) -> (r: bool)
    ensures
        r == diagonal_path(chess_board@, from as int, to as int),
{
    if from >= BOARD_SIZE || to >= BOARD_SIZE || from == to {
        return false;
    }
    let dr = abs_diff(get_row(from), get_row(to));
    let dc = abs_diff(get_col(from), get_col(to));
    if dr != dc {
        return false;
    }
    path_clear(chess_board, from, to, dr)
}

/// Whether `from` to `to` is a knight's jump: row and column distances of 1
/// and 2 in some order, both squares on the board.
pub fn validate_l_shape(from: usize, to: usize) -> (r: bool)
    ensures
        r == knight_jump(from as int, to as int),
{
    if from >= BOARD_SIZE || to >= BOARD_SIZE {
        return false;
    }
    let dr = abs_diff(get_row(from), get_row(to));
    let dc = abs_diff(get_col(from), get_col(to));
    (dr == 1 && dc == 2) || (dr == 2 && dc == 1)
}

/// Whether `chess_piece`, standing on `from`, may move to the empty square
/// `to`. A pawn or a king may only go one rank up (`to == from + 8`); a rook
/// needs a straight path, a bishop a diagonal one, a knight a jump; a queen
/// needs both a diagonal and a straight path, which no move with a
/// displacement has.
pub fn validate_move_by_piece(chess_board: &ChessBoard, chess_piece: ChessPiece, from: usize, to: usize) -> (r: bool)
    ensures
        r == step_legal(chess_board@, chess_piece, from as int, to as int),
{
    if from >= BOARD_SIZE || to >= BOARD_SIZE {
        return false;
    }
    match chess_piece.piece {
        Piece::Pawn => from + 8 == to,
        Piece::King => from + 8 == to,
        Piece::Rook => validate_horizontal_or_vertical(chess_board, from, to),
        Piece::Knight => validate_l_shape(from, to),
        Piece::Bishop => validate_diagonals(chess_board, from, to),
        Piece::Queen => validate_diagonals(chess_board, from, to)
            && validate_horizontal_or_vertical(chess_board, from, to),
    }
}

/// Whether `from_piece`, standing on `from`, may capture `to_piece` on `to`.
/// Capturing a piece of one's own side is never legal. A pawn captures one
/// square diagonally forward (White toward higher rows, Black toward lower
/// ones), a king one square diagonally in any direction; rooks, bishops,
/// queens and knights capture along the paths they move on.
pub fn validate_move_by_pieces(
    chess_board: &ChessBoard,
    from_piece: ChessPiece,
    to_piece: ChessPiece,
    from: usize,
    to: usize,
) -> (r: bool)
    ensures
        r == capture_legal(chess_board@, from_piece, to_piece, from as int, to as int),
{
    if from >= BOARD_SIZE || to >= BOARD_SIZE || from_piece.player == to_piece.player {
        return false;
    }
    let from_row = get_row(from);
    let to_row = get_row(to);
    let dc = abs_diff(get_col(from), get_col(to));
    match from_piece.piece {
        Piece::Pawn => match from_piece.player {
            Player::White => dc == 1 && from_row + 1 == to_row,
            Player::Black => dc == 1 && to_row + 1 == from_row,
        },
        Piece::King => dc == 1 && abs_diff(from_row, to_row) == 1,
        Piece::Queen => validate_diagonals(chess_board, from, to)
            && validate_horizontal_or_vertical(chess_board, from, to),
        Piece::Bishop => validate_diagonals(chess_board, from, to),
        Piece::Knight => validate_l_shape(from, to),
        Piece::Rook => validate_horizontal_or_vertical(chess_board, from, to),
    }
}

/// Whether the move `op` is legal on the board: both indices are on the
/// board, the origin holds a piece, and that piece may move to the empty
/// destination or capture what stands there. Never fails: an illegal move,
/// an index off the board included, gives `false`.
pub fn validate_move(op: Operation, chess_board: ChessBoard) -> (r: bool)
    ensures
        r == move_legal(chess_board@, op.from as int, op.to as int),
{
    if op.from >= BOARD_SIZE || op.to >= BOARD_SIZE {
        return false;
    }
    let from = op.from;
    let to = op.to;
    match (chess_board.board[from].value, chess_board.board[to].value) {
        (Some(a), None) => validate_move_by_piece(&chess_board, a, from, to),
        (Some(a), Some(b)) => validate_move_by_pieces(&chess_board, a, b, from, to),
        (None, _) => false,
    }
}

/// An index off the board makes any move illegal.
pub proof fn lemma_off_board_illegal(v: Seq<Option<ChessPiece>>, from: int, to: int)
    requires
        from >= 64 || to >= 64,
    ensures
        !move_legal(v, from, to),
{
}

/// A piece never captures a piece of its own side.
pub proof fn lemma_no_same_side_capture(v: Seq<Option<ChessPiece>>, from: int, to: int)
    requires
        v.len() == 64,
        0 <= from < 64,
        0 <= to < 64,
        v[from] is Some,
        v[to] is Some,
        v[from]->0.player == v[to]->0.player,
    ensures
        !move_legal(v, from, to),
{
}

/// A rook on A1 may go to H1, when that square is empty or holds a piece of
/// the other side, exactly when B1 to G1 are all empty; so a piece on D1
/// bars the move.
pub proof fn lemma_rook_along_first_rank(v: Seq<Option<ChessPiece>>)
    requires
        v.len() == 64,
        v[0] is Some,
        v[0]->0.piece == Piece::Rook,
        v[7] is None || v[7]->0.player != v[0]->0.player,
    ensures
        move_legal(v, 0, 7) <==> (forall|i: int| 1 <= i <= 6 ==> v[i] is None),
        v[3] is Some ==> !move_legal(v, 0, 7),
{
    assert(forall|s: int| 0 < s < 7 ==> index_of(toward(row_of(0), row_of(7), s), toward(col_of(0), col_of(7), s)) == s);
    if forall|i: int| 1 <= i <= 6 ==> v[i] is None {
        assert(clear_between(v, 0, 7, 7));
    }
    if move_legal(v, 0, 7) {
        assert forall|i: int| 1 <= i <= 6 implies v[i] is None by {
            assert(index_of(toward(row_of(0), row_of(7), i), toward(col_of(0), col_of(7), i)) == i);
        }
    }
}

/// A bishop may move to a square that is empty or holds a piece of the other
/// side exactly when the two squares are distinct, lie on one diagonal
/// (`|Δrow| == |Δcol|`), and every square strictly between them is empty.
pub proof fn lemma_bishop_moves_diagonally(v: Seq<Option<ChessPiece>>, from: int, to: int)
    requires
        v.len() == 64,
        0 <= from < 64,
        0 <= to < 64,
        v[from] is Some,
        v[from]->0.piece == Piece::Bishop,
        v[to] is None || v[to]->0.player != v[from]->0.player,
    ensures
        move_legal(v, from, to) <==> {
            let dr = distance(row_of(from), row_of(to));
            let dc = distance(col_of(from), col_of(to));
            from != to && dr == dc && clear_between(v, from, to, dr)
        },
{
}

/// A knight may move to a square that is empty or holds a piece of the
/// other side exactly when the move is a knight's jump, whatever stands in
/// between.
pub proof fn lemma_knight_jumps(v: Seq<Option<ChessPiece>>, from: int, to: int)
    requires
        v.len() == 64,
        0 <= from < 64,
        0 <= to < 64,
        v[from] is Some,
        v[from]->0.piece == Piece::Knight,
        v[to] is None || v[to]->0.player != v[from]->0.player,
    ensures
        move_legal(v, from, to) <==> knight_jump(from, to),
{
}

/// The queen's rule asks for a diagonal and a straight path at once, so a
/// queen is never given a legal move or capture.
pub proof fn lemma_queen_never_moves(v: Seq<Option<ChessPiece>>, from: int, to: int)
    requires
        v.len() == 64,
        0 <= from < 64,
        v[from] is Some,
        v[from]->0.piece == Piece::Queen,
    ensures
        !move_legal(v, from, to),
{
    if diagonal_path(v, from, to) && straight_path(v, from, to) {
        assert(from == index_of(row_of(from), col_of(from)));
        assert(to == index_of(row_of(to), col_of(to)));
    }
}

} // verus!
