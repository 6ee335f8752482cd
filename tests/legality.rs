use chess_moves::{
    validate_diagonals, validate_horizontal_or_vertical, validate_l_shape, validate_move,
    validate_move_by_piece, validate_move_by_pieces, ChessBoard, ChessPiece, Operation, Piece,
    Player, Square,
};

fn empty_board() -> ChessBoard {
    ChessBoard { board: [Square::new(); 64] }
}

fn put(b: &mut ChessBoard, idx: usize, piece: Piece, player: Player) {
    b.board[idx].init(ChessPiece { piece, player });
}

fn op(from: usize, to: usize) -> Operation {
    Operation { op: String::from("move"), from, to }
}

#[test]
fn rook_along_first_rank() {
    let mut b = empty_board();
    put(&mut b, 0, Piece::Rook, Player::White);
    assert!(validate_move(op(0, 7), b));
    put(&mut b, 3, Piece::Pawn, Player::Black);
    assert!(!validate_move(op(0, 7), b));
}

#[test]
fn rook_captures_along_open_rank_only() {
    let mut b = empty_board();
    put(&mut b, 0, Piece::Rook, Player::White);
    put(&mut b, 7, Piece::Knight, Player::Black);
    assert!(validate_move(op(0, 7), b));
    put(&mut b, 7, Piece::Knight, Player::White);
    assert!(!validate_move(op(0, 7), b));
}

#[test]
fn rook_vertical_and_blocked() {
    let mut b = empty_board();
    put(&mut b, 0, Piece::Rook, Player::White);
    assert!(validate_move(op(0, 56), b));
    assert!(!validate_move(op(0, 9), b));
    put(&mut b, 24, Piece::Pawn, Player::White);
    assert!(!validate_move(op(0, 56), b));
    assert!(validate_move(op(0, 16), b));
}

#[test]
fn bishop_diagonal_legality() {
    let mut b = empty_board();
    put(&mut b, 2, Piece::Bishop, Player::White);
    assert!(validate_move(op(2, 20), b));
    assert!(validate_move(op(2, 16), b));
    assert!(!validate_move(op(2, 10), b));
    assert!(!validate_move(op(2, 19), b));
    put(&mut b, 11, Piece::Pawn, Player::White);
    assert!(!validate_move(op(2, 20), b));
    assert!(validate_move(op(2, 9), b));
}

#[test]
fn knight_jumps_over_pieces() {
    let b = ChessBoard::new();
    assert!(validate_move(op(1, 18), b));
    assert!(validate_move(op(1, 16), b));
    assert!(!validate_move(op(1, 17), b));
}

#[test]
fn same_side_capture_is_illegal() {
    let b = ChessBoard::new();
    assert!(!validate_move(op(0, 1), b));
    assert!(!validate_move(op(4, 3), b));
}

#[test]
fn off_board_moves_are_illegal() {
    let b = ChessBoard::new();
    assert!(!validate_move(op(64, 0), b));
    assert!(!validate_move(op(0, 64), b));
    assert!(!validate_move(op(usize::MAX, usize::MAX), b));
    assert!(!validate_l_shape(64, 81));
    assert!(!validate_diagonals(&b, 63, 72));
    assert!(!validate_horizontal_or_vertical(&b, 70, 71));
    let rook = ChessPiece { piece: Piece::Rook, player: Player::White };
    let pawn = ChessPiece { piece: Piece::Pawn, player: Player::Black };
    assert!(!validate_move_by_piece(&b, pawn, 60, 68));
    assert!(!validate_move_by_pieces(&b, rook, pawn, 0, 64));
}

#[test]
fn empty_origin_is_illegal() {
    let b = ChessBoard::new();
    assert!(!validate_move(op(20, 28), b));
    assert!(!validate_move(op(20, 1), b));
}

#[test]
fn pawn_and_king_step_one_rank_up() {
    let b = ChessBoard::new();
    assert!(validate_move(op(8, 16), b));
    assert!(!validate_move(op(8, 24), b));
    assert!(!validate_move(op(48, 40), b));
    let mut e = empty_board();
    put(&mut e, 27, Piece::King, Player::Black);
    assert!(validate_move(op(27, 35), e));
    assert!(!validate_move(op(27, 28), e));
    assert!(!validate_move(op(27, 19), e));
}

#[test]
fn pawn_captures_diagonally_forward() {
    let mut b = empty_board();
    put(&mut b, 8, Piece::Pawn, Player::White);
    put(&mut b, 17, Piece::Knight, Player::Black);
    put(&mut b, 16, Piece::Rook, Player::Black);
    assert!(validate_move(op(8, 17), b));
    assert!(!validate_move(op(8, 16), b));
    put(&mut b, 49, Piece::Pawn, Player::Black);
    put(&mut b, 40, Piece::Bishop, Player::White);
    put(&mut b, 58, Piece::Bishop, Player::White);
    assert!(validate_move(op(49, 40), b));
    assert!(!validate_move(op(49, 58), b));
}

#[test]
fn king_captures_one_diagonal_step() {
    let mut b = empty_board();
    put(&mut b, 27, Piece::King, Player::White);
    put(&mut b, 18, Piece::Pawn, Player::Black);
    put(&mut b, 36, Piece::Pawn, Player::Black);
    put(&mut b, 26, Piece::Pawn, Player::Black);
    assert!(validate_move(op(27, 18), b));
    assert!(validate_move(op(27, 36), b));
    assert!(!validate_move(op(27, 26), b));
}

#[test]
fn queen_needs_both_paths() {
    let mut b = empty_board();
    put(&mut b, 3, Piece::Queen, Player::White);
    assert!(!validate_move(op(3, 11), b));
    assert!(!validate_move(op(3, 12), b));
    assert!(!validate_move(op(3, 3), b));
}

#[test]
fn knight_geometry() {
    assert!(validate_l_shape(1, 18));
    assert!(validate_l_shape(1, 11));
    assert!(validate_l_shape(18, 1));
    assert!(!validate_l_shape(1, 9));
    assert!(!validate_l_shape(6, 8));
    assert!(!validate_l_shape(7, 8));
}

#[test]
fn diagonal_geometry_does_not_wrap() {
    let b = empty_board();
    assert!(validate_diagonals(&b, 7, 14));
    assert!(!validate_diagonals(&b, 7, 16));
    assert!(!validate_diagonals(&b, 9, 9));
    assert!(validate_diagonals(&b, 63, 0));
}

#[test]
fn straight_geometry_does_not_wrap() {
    let b = empty_board();
    assert!(validate_horizontal_or_vertical(&b, 0, 7));
    assert!(!validate_horizontal_or_vertical(&b, 7, 8));
    assert!(!validate_horizontal_or_vertical(&b, 5, 5));
    assert!(validate_horizontal_or_vertical(&b, 63, 7));
}

#[test]
fn path_predicates_ignore_endpoints() {
    let b = ChessBoard::new();
    assert!(validate_horizontal_or_vertical(&b, 0, 1));
    assert!(!validate_horizontal_or_vertical(&b, 0, 2));
    assert!(validate_diagonals(&b, 2, 9));
    assert!(!validate_diagonals(&b, 2, 20));
}
