//! Chess piece symbols.
use vstd::prelude::*;

verus! {

/// Represents chess piece symbols available in Unicode.
#[derive(Debug, Clone, Copy, PartialEq, Eq, Structural)]
pub enum ChessPieceSymbol {
    WhiteKing,
    WhiteQueen,
    WhiteRook,
    WhiteBishop,
    WhiteKnight,
    WhitePawn,
    BlackKing,
    BlackQueen,
    BlackRook,
    BlackBishop,
    BlackKnight,
    BlackPawn,
}

/// The glyph of each piece.
pub open spec fn chess_glyph(piece: ChessPieceSymbol) -> char {
    match piece {
        ChessPieceSymbol::WhiteKing => '♔',
        ChessPieceSymbol::WhiteQueen => '♕',
        ChessPieceSymbol::WhiteRook => '♖',
        ChessPieceSymbol::WhiteBishop => '♗',
        ChessPieceSymbol::WhiteKnight => '♘',
        ChessPieceSymbol::WhitePawn => '♙',
        ChessPieceSymbol::BlackKing => '♚',
        ChessPieceSymbol::BlackQueen => '♛',
        ChessPieceSymbol::BlackRook => '♜',
        ChessPieceSymbol::BlackBishop => '♝',
        ChessPieceSymbol::BlackKnight => '♞',
        ChessPieceSymbol::BlackPawn => '♟',
    }
}

/// Whether a piece is one of the white ones.
pub open spec fn is_white(piece: ChessPieceSymbol) -> bool {
    ||| piece is WhiteKing
    ||| piece is WhiteQueen
    ||| piece is WhiteRook
    ||| piece is WhiteBishop
    ||| piece is WhiteKnight
    ||| piece is WhitePawn
}

/// The kind of a piece whatever its colour: king 0, queen 1, rook 2,
/// bishop 3, knight 4, pawn 5.
pub open spec fn piece_kind(piece: ChessPieceSymbol) -> nat {
    match piece {
        ChessPieceSymbol::WhiteKing | ChessPieceSymbol::BlackKing => 0,
        ChessPieceSymbol::WhiteQueen | ChessPieceSymbol::BlackQueen => 1,
        ChessPieceSymbol::WhiteRook | ChessPieceSymbol::BlackRook => 2,
        ChessPieceSymbol::WhiteBishop | ChessPieceSymbol::BlackBishop => 3,
        ChessPieceSymbol::WhiteKnight | ChessPieceSymbol::BlackKnight => 4,
        ChessPieceSymbol::WhitePawn | ChessPieceSymbol::BlackPawn => 5,
    }
}

/// Converts the ChessPieceSymbol enum variant to its corresponding Unicode character.
pub fn chess_piece_to_char(piece: ChessPieceSymbol) -> (r: char)
    ensures
        r == chess_glyph(piece),
{
    match piece {
        ChessPieceSymbol::WhiteKing => '♔',
        ChessPieceSymbol::WhiteQueen => '♕',
        ChessPieceSymbol::WhiteRook => '♖',
        ChessPieceSymbol::WhiteBishop => '♗',
        ChessPieceSymbol::WhiteKnight => '♘',
        ChessPieceSymbol::WhitePawn => '♙',
        ChessPieceSymbol::BlackKing => '♚',
        ChessPieceSymbol::BlackQueen => '♛',
        ChessPieceSymbol::BlackRook => '♜',
        ChessPieceSymbol::BlackBishop => '♝',
        ChessPieceSymbol::BlackKnight => '♞',
        ChessPieceSymbol::BlackPawn => '♟',
    }
}

/// Returns true if the piece is white, false otherwise.
pub fn is_white_piece(piece: ChessPieceSymbol) -> (r: bool)
    ensures
        r == is_white(piece),
{
    match piece {
        ChessPieceSymbol::WhiteKing
        | ChessPieceSymbol::WhiteQueen
        | ChessPieceSymbol::WhiteRook
        | ChessPieceSymbol::WhiteBishop
        | ChessPieceSymbol::WhiteKnight
        | ChessPieceSymbol::WhitePawn => true,
        _ => false,
    }
}

/// Returns the piece of the same kind and the other colour.
pub fn opposite_color_piece(piece: ChessPieceSymbol) -> (r: ChessPieceSymbol)
    ensures
        piece_kind(r) == piece_kind(piece),
        is_white(r) == !is_white(piece),
{
    match piece {
        ChessPieceSymbol::WhiteKing => ChessPieceSymbol::BlackKing,
        ChessPieceSymbol::WhiteQueen => ChessPieceSymbol::BlackQueen,
        ChessPieceSymbol::WhiteRook => ChessPieceSymbol::BlackRook,
        ChessPieceSymbol::WhiteBishop => ChessPieceSymbol::BlackBishop,
        ChessPieceSymbol::WhiteKnight => ChessPieceSymbol::BlackKnight,
        ChessPieceSymbol::WhitePawn => ChessPieceSymbol::BlackPawn,
        ChessPieceSymbol::BlackKing => ChessPieceSymbol::WhiteKing,
        ChessPieceSymbol::BlackQueen => ChessPieceSymbol::WhiteQueen,
        ChessPieceSymbol::BlackRook => ChessPieceSymbol::WhiteRook,
        ChessPieceSymbol::BlackBishop => ChessPieceSymbol::WhiteBishop,
        ChessPieceSymbol::BlackKnight => ChessPieceSymbol::WhiteKnight,
        ChessPieceSymbol::BlackPawn => ChessPieceSymbol::WhitePawn,
    }
}

} // verus!
