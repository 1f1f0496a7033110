use rpian_terminal::arrow::{arrow_symbol_to_char, ArrowSymbol};
use rpian_terminal::braille::BrailleSymbol;
use rpian_terminal::chess::{chess_piece_to_char, is_white_piece, opposite_color_piece, ChessPieceSymbol};
use rpian_terminal::circle::circle_symbol_to_char;
use rpian_terminal::emoji::{smiley_symbol_to_char, EmojiSymbol};
use rpian_terminal::math::{math_symbol_to_char, MathSymbol};
use rpian_terminal::rbox::{
    block_char_to_char, box_char_to_char, double_box_to_char, double_rounded_box_to_char,
    get_box_char, get_corner_char, single_box_to_char, single_rounded_box_to_char, BlockChar,
    BoxChar, DoubleBox, DoubleRoundedBox, SingleBox, SingleRoundedBox,
};
use rpian_terminal::star::{star_symbol_to_char, StarSymbol};
use rpian_terminal::triangle::{triangle_symbol_to_char, TriangleSymbol};
use rpian_terminal::{BoxStyle, CircleSymbol};

#[test]
fn arrow_glyphs() {
    assert_eq!(arrow_symbol_to_char(ArrowSymbol::LeftArrow), '←');
    assert_eq!(arrow_symbol_to_char(ArrowSymbol::UpHeavyArrow), '⟰');
    assert_eq!(arrow_symbol_to_char(ArrowSymbol::CircularArrow), '↻');
}

#[test]
fn braille_glyphs_are_offsets_of_the_blank_pattern() {
    assert_eq!(BrailleSymbol::Blank.to_char(), '\u{2800}');
    assert_eq!(BrailleSymbol::Dot1.to_char(), '\u{2801}');
    assert_eq!(BrailleSymbol::Dot12.to_char(), '\u{2803}');
    assert_eq!(BrailleSymbol::Dot1346.to_char(), '\u{282D}');
    assert_eq!(BrailleSymbol::Dot123456.to_char(), '\u{283F}');
}

#[test]
fn chess_glyphs_and_colours() {
    assert_eq!(chess_piece_to_char(ChessPieceSymbol::WhiteKing), '♔');
    assert_eq!(chess_piece_to_char(ChessPieceSymbol::BlackPawn), '♟');
    assert!(is_white_piece(ChessPieceSymbol::WhiteKnight));
    assert!(!is_white_piece(ChessPieceSymbol::BlackQueen));
    assert_eq!(opposite_color_piece(ChessPieceSymbol::WhiteRook), ChessPieceSymbol::BlackRook);
    assert_eq!(opposite_color_piece(ChessPieceSymbol::BlackBishop), ChessPieceSymbol::WhiteBishop);
}

#[test]
fn opposite_colour_twice_is_the_same_piece() {
    let pieces = [
        ChessPieceSymbol::WhiteKing,
        ChessPieceSymbol::WhiteQueen,
        ChessPieceSymbol::WhiteRook,
        ChessPieceSymbol::WhiteBishop,
        ChessPieceSymbol::WhiteKnight,
        ChessPieceSymbol::WhitePawn,
        ChessPieceSymbol::BlackKing,
        ChessPieceSymbol::BlackQueen,
        ChessPieceSymbol::BlackRook,
        ChessPieceSymbol::BlackBishop,
        ChessPieceSymbol::BlackKnight,
        ChessPieceSymbol::BlackPawn,
    ];
    for p in pieces.iter() {
        let q = opposite_color_piece(*p);
        assert_ne!(is_white_piece(q), is_white_piece(*p));
        assert_eq!(opposite_color_piece(q), *p);
    }
}

#[test]
fn circle_emoji_math_star_triangle_glyphs() {
    assert_eq!(circle_symbol_to_char(CircleSymbol::FilledCircle), '●');
    assert_eq!(circle_symbol_to_char(CircleSymbol::RedCircle), '🔴');
    assert_eq!(smiley_symbol_to_char(EmojiSymbol::HappyFace), '☺');
    assert_eq!(smiley_symbol_to_char(EmojiSymbol::Robot), '🤖');
    assert_eq!(math_symbol_to_char(MathSymbol::Minus), '−');
    assert_eq!(math_symbol_to_char(MathSymbol::Proportional), '∝');
    assert_eq!(star_symbol_to_char(StarSymbol::BlackStar), '★');
    assert_eq!(star_symbol_to_char(StarSymbol::EightPointedBlackStar), '✴');
    assert_eq!(triangle_symbol_to_char(TriangleSymbol::BlackRightPointing), '▶');
    assert_eq!(triangle_symbol_to_char(TriangleSymbol::BlackRightPointingDouble), '⏵');
}

#[test]
fn box_glyph_tables() {
    assert_eq!(block_char_to_char(BlockChar::Full), '█');
    assert_eq!(block_char_to_char(BlockChar::RightHalf), '▐');
    assert_eq!(single_box_to_char(SingleBox::VerticalHorizontal), '┼');
    assert_eq!(double_box_to_char(DoubleBox::HorizontalDown), '╦');
    assert_eq!(single_rounded_box_to_char(SingleRoundedBox::BottomRight), '╯');
    assert_eq!(double_rounded_box_to_char(DoubleRoundedBox::VerticalLeft), '╞');
    assert_eq!(box_char_to_char(BoxChar::Double(DoubleBox::TopLeft)), '╔');
    assert_eq!(box_char_to_char(BoxChar::Block(BlockChar::DarkShade)), '▓');
}

#[test]
fn box_char_by_part_name() {
    assert_eq!(get_box_char(BoxStyle::Single, "Horizontal"), Some(BoxChar::Single(SingleBox::Horizontal)));
    assert_eq!(get_box_char(BoxStyle::Double, "VerticalHorizontal"), Some(BoxChar::Double(DoubleBox::VerticalHorizontal)));
    assert_eq!(
        get_box_char(BoxStyle::SingleRounded, "TopRight"),
        Some(BoxChar::SingleRounded(SingleRoundedBox::TopRight))
    );
    assert_eq!(
        get_box_char(BoxStyle::DoubleRounded, "HorizontalUp"),
        Some(BoxChar::DoubleRounded(DoubleRoundedBox::HorizontalUp))
    );
    assert_eq!(get_box_char(BoxStyle::Dashed, "VerticalLeft"), Some(BoxChar::Single(SingleBox::VerticalLeft)));
    assert_eq!(get_box_char(BoxStyle::Dotted, "BottomLeft"), Some(BoxChar::Single(SingleBox::BottomLeft)));
}

#[test]
fn box_char_unknown_part_name() {
    assert_eq!(get_box_char(BoxStyle::Single, "Diagonal"), None);
    assert_eq!(get_box_char(BoxStyle::Double, ""), None);
    assert_eq!(get_box_char(BoxStyle::Double, "horizontal"), None);
    assert_eq!(get_box_char(BoxStyle::Double, "Horizontal "), None);
}

#[test]
fn corner_char_by_name() {
    assert_eq!(get_corner_char(BoxStyle::Single, "TopLeft"), Some('┌'));
    assert_eq!(get_corner_char(BoxStyle::Double, "BottomRight"), Some('╝'));
    assert_eq!(get_corner_char(BoxStyle::SingleRounded, "TopRight"), Some('╮'));
    assert_eq!(get_corner_char(BoxStyle::DoubleRounded, "BottomLeft"), Some('╘'));
    assert_eq!(get_corner_char(BoxStyle::Dotted, "BottomLeft"), Some('└'));
    assert_eq!(get_corner_char(BoxStyle::Single, "Horizontal"), None);
    assert_eq!(get_corner_char(BoxStyle::Single, "Middle"), None);
}
