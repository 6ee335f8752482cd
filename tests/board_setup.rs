use chess_moves::{ChessBoard, ChessPiece, Piece, Player, Square};

fn piece(piece: Piece, player: Player) -> Option<ChessPiece> {
    Some(ChessPiece { piece, player })
}

#[test]
fn standard_setup() {
    let b = ChessBoard::new();
    assert_eq!(b.board[4].value, piece(Piece::King, Player::White));
    assert_eq!(b.board[60].value, piece(Piece::King, Player::Black));
    for i in 8..15 {
        assert_eq!(b.board[i].value, piece(Piece::Pawn, Player::White));
    }
    assert_eq!(b.board[0].value, piece(Piece::Rook, Player::White));
    assert_eq!(b.board[7].value, piece(Piece::Rook, Player::White));
}

#[test]
fn standard_setup_back_ranks_and_gaps() {
    let b = ChessBoard::new();
    let order = [
        Piece::Rook,
        Piece::Knight,
        Piece::Bishop,
        Piece::Queen,
        Piece::King,
        Piece::Bishop,
        Piece::Knight,
        Piece::Rook,
    ];
    for (c, p) in order.iter().enumerate() {
        assert_eq!(b.board[c].value, piece(*p, Player::White));
        assert_eq!(b.board[56 + c].value, piece(*p, Player::Black));
    }
    for i in 48..55 {
        assert_eq!(b.board[i].value, piece(Piece::Pawn, Player::Black));
    }
    assert_eq!(b.board[15].value, None);
    assert_eq!(b.board[55].value, None);
    for i in 16..48 {
        assert_eq!(b.board[i].value, None);
    }
}

#[test]
fn square_new_and_init() {
    let mut s = Square::new();
    assert_eq!(s.value, None);
    s.init(ChessPiece { piece: Piece::Queen, player: Player::Black });
    assert_eq!(s.value, piece(Piece::Queen, Player::Black));
}
