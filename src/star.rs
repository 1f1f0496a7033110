//! Star symbols.
use vstd::prelude::*;

verus! {

/// Represents various star symbols available in Unicode.
#[derive(Debug, Clone, Copy, PartialEq, Eq, Structural)]
pub enum StarSymbol {
    BlackStar,
    WhiteStar,
    FourPointedBlackStar,
    FourPointedWhiteStar,
    FivePointedBlackStar,
    FivePointedWhiteStar,
    SixPointedBlackStar,
    SixPointedWhiteStar,
    EightPointedBlackStar,
    EightPointedWhiteStar,
    CircledWhiteStar,
    CircledBlackStar,
    OpenCenterBlackStar,
    HeavyEightPointedStar,
    SparklingStar,
    SunStar,
    Asterisk,
    BoldFivePointedBlackStar,
    OutlinedBlackStar,
    HeavyFourBalloonStar,
}

/// The glyph of each symbol.
pub open spec fn star_glyph(symbol: StarSymbol) -> char {
    match symbol {
        StarSymbol::BlackStar => '★',
        StarSymbol::WhiteStar => '☆',
        StarSymbol::FourPointedBlackStar => '✦',
        StarSymbol::FourPointedWhiteStar => '✧',
        StarSymbol::FivePointedBlackStar => '✭',
        StarSymbol::FivePointedWhiteStar => '✮',
        StarSymbol::SixPointedBlackStar => '✶',
        StarSymbol::SixPointedWhiteStar => '✴',
        StarSymbol::EightPointedBlackStar => '✴',
        StarSymbol::EightPointedWhiteStar => '✵',
        StarSymbol::CircledWhiteStar => '✪',
        StarSymbol::CircledBlackStar => '✫',
        StarSymbol::OpenCenterBlackStar => '✯',
        StarSymbol::HeavyEightPointedStar => '✷',
        StarSymbol::SparklingStar => '❈',
        StarSymbol::SunStar => '☀',
        StarSymbol::Asterisk => '✱',
        StarSymbol::BoldFivePointedBlackStar => '⭐',
        StarSymbol::OutlinedBlackStar => '✰',
        StarSymbol::HeavyFourBalloonStar => '✣',
    }
}

/// Converts a StarSymbol to its corresponding Unicode character.
pub fn star_symbol_to_char(symbol: StarSymbol) -> (r: char)
    ensures
        r == star_glyph(symbol),
{
    match symbol {
        StarSymbol::BlackStar => '★',
        StarSymbol::WhiteStar => '☆',
        StarSymbol::FourPointedBlackStar => '✦',
        StarSymbol::FourPointedWhiteStar => '✧',
        StarSymbol::FivePointedBlackStar => '✭',
        StarSymbol::FivePointedWhiteStar => '✮',
        StarSymbol::SixPointedBlackStar => '✶',
        StarSymbol::SixPointedWhiteStar => '✴',
        StarSymbol::EightPointedBlackStar => '✴',
        StarSymbol::EightPointedWhiteStar => '✵',
        StarSymbol::CircledWhiteStar => '✪',
        StarSymbol::CircledBlackStar => '✫',
        StarSymbol::OpenCenterBlackStar => '✯',
        StarSymbol::HeavyEightPointedStar => '✷',
        StarSymbol::SparklingStar => '❈',
        StarSymbol::SunStar => '☀',
        StarSymbol::Asterisk => '✱',
        StarSymbol::BoldFivePointedBlackStar => '⭐',
        StarSymbol::OutlinedBlackStar => '✰',
        StarSymbol::HeavyFourBalloonStar => '✣',
    }
}

} // verus!
