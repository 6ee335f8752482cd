//! Pieces, sides, squares and the 64-square board.
use vstd::prelude::*;

verus! {

/// Kind of a chess piece.
#[derive(Clone, Copy, Debug, PartialEq, Eq, Structural)]
pub enum Piece {
    King,
    Queen,
    Knight,
    Bishop,
    Rook,
    Pawn,
}

/// Side a piece belongs to.
#[derive(Clone, Copy, Debug, PartialEq, Eq, Structural)]
pub enum Player {
    Black,
    White,
}

/// A piece of one side.
#[derive(Clone, Copy, Debug, PartialEq, Eq, Structural)]
pub struct ChessPiece {
    pub piece: Piece,
    pub player: Player,
}

/// One square of the board: empty, or holding one piece.
#[derive(Clone, Copy, Debug, PartialEq, Eq, Structural)]
pub struct Square {
    pub value: Option<ChessPiece>,
}

impl Square {
    /// An empty square.
    pub fn new() -> (r: Self)
        ensures
            r.value is None,
    {
        Square { value: None }
    }

    /// Places a piece on the square, replacing what it held.
    pub fn init(&mut self, piece: ChessPiece)
        ensures
            final(self).value == Some(piece),
    {
        self.value = Some(piece);
    }
}

/// The board: 64 squares addressed by square index (see `coords`).
#[derive(Clone, Copy)]
pub struct ChessBoard {
    pub board: [Square; 64],
}

impl View for ChessBoard {
    type V = Seq<Option<ChessPiece>>;

    /// What each square holds, by square index.
    open spec fn view(&self) -> Seq<Option<ChessPiece>> {
        Seq::new(64, |i: int| self.board@[i].value)
    }
}

/// Piece of the back rank standing on the given column.
pub open spec fn back_rank_piece(col: int) -> Piece {
    if col == 0 || col == 7 {
        Piece::Rook
    } else if col == 1 || col == 6 {
        Piece::Knight
    } else if col == 2 || col == 5 {
        Piece::Bishop
    } else if col == 3 {
        Piece::Queen
    } else {
        Piece::King
    }
}

/// Occupant of each square in the starting position. Rank 1 and rank 8 hold
/// the back ranks; seven pawns of each side stand on indices 8..15 (White)
/// and 48..55 (Black); the last square of each pawn rank starts empty.
pub open spec fn initial_occupant(idx: int) -> Option<ChessPiece> {
    if 0 <= idx < 8 {
        Some(ChessPiece { piece: back_rank_piece(idx), player: Player::White })
    } else if 8 <= idx < 15 {
        Some(ChessPiece { piece: Piece::Pawn, player: Player::White })
    } else if 48 <= idx < 55 {
        Some(ChessPiece { piece: Piece::Pawn, player: Player::Black })
    } else if 56 <= idx < 64 {
        Some(ChessPiece { piece: back_rank_piece(idx - 56), player: Player::Black })
    } else {
        None
    }
}

impl ChessBoard {
    /// A board in the starting position.
    pub fn new() -> (r: Self)
        ensures
            forall|i: int| 0 <= i < 64 ==> r@[i] == initial_occupant(i),
    {
        let mut chess_board = [Square::new();64];
        chess_board[0].init(ChessPiece { piece: Piece::Rook, player: Player::White });
        chess_board[7].init(ChessPiece { piece: Piece::Rook, player: Player::White });
        chess_board[1].init(ChessPiece { piece: Piece::Knight, player: Player::White });
        chess_board[6].init(ChessPiece { piece: Piece::Knight, player: Player::White });
        chess_board[2].init(ChessPiece { piece: Piece::Bishop, player: Player::White });
        chess_board[5].init(ChessPiece { piece: Piece::Bishop, player: Player::White });
        chess_board[3].init(ChessPiece { piece: Piece::Queen, player: Player::White });
        chess_board[4].init(ChessPiece { piece: Piece::King, player: Player::White });

        chess_board[56].init(ChessPiece { piece: Piece::Rook, player: Player::Black });
        chess_board[63].init(ChessPiece { piece: Piece::Rook, player: Player::Black });
        chess_board[57].init(ChessPiece { piece: Piece::Knight, player: Player::Black });
        chess_board[62].init(ChessPiece { piece: Piece::Knight, player: Player::Black });
        chess_board[58].init(ChessPiece { piece: Piece::Bishop, player: Player::Black });
        chess_board[61].init(ChessPiece { piece: Piece::Bishop, player: Player::Black });
        chess_board[59].init(ChessPiece { piece: Piece::Queen, player: Player::Black });
        chess_board[60].init(ChessPiece { piece: Piece::King, player: Player::Black });

        for idx in 8..15usize
            invariant
                forall|i: int| 0 <= i < 8 ==> chess_board@[i].value == initial_occupant(i),
                forall|i: int| 8 <= i < idx ==> chess_board@[i].value == initial_occupant(i),
                forall|i: int| 15 <= i < 64 && !(56 <= i < 64) ==> chess_board@[i].value is None,
                forall|i: int| 56 <= i < 64 ==> chess_board@[i].value == initial_occupant(i),
        {
            chess_board[idx].init(ChessPiece { piece: Piece::Pawn, player: Player::White });
        }
        for idx in 48..55usize
            invariant
                forall|i: int| 0 <= i < 15 ==> chess_board@[i].value == initial_occupant(i),
                forall|i: int| 15 <= i < 48 ==> chess_board@[i].value is None,
                forall|i: int| 48 <= i < idx ==> chess_board@[i].value == initial_occupant(i),
                forall|i: int| 55 <= i < 56 ==> chess_board@[i].value is None,
                forall|i: int| 56 <= i < 64 ==> chess_board@[i].value == initial_occupant(i),
        {
            chess_board[idx].init(ChessPiece { piece: Piece::Pawn, player: Player::Black });
        }
        ChessBoard { board: chess_board }
    }
}

} // verus!
