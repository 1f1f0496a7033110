//! Circle symbols.
use vstd::prelude::*;

verus! {

/// Represents circle symbols available in Unicode.
#[derive(Debug, Clone, Copy, PartialEq, Eq, Structural)]
pub enum CircleSymbol {
    Circle,
    FilledCircle,
    LargeCircle,
    MediumFilledCircle,
    DottedCircle,
    CircleWithLeftHalfBlack,
    CircleWithRightHalfBlack,
    CircledDot,
    CircleWithVerticalFill,
    CircleWithHorizontalFill,
    Bullseye,
    SunSymbol,
    FishEye,
    CircleWithTwoDotsInside,
    FilledCircleWithTwoDotsInside,
    RedCircle,
    BlueCircle,
    CircledPlus,
    CircledMinus,
    CircledTimes,
}

/// The glyph of each symbol.
pub open spec fn circle_glyph(symbol: CircleSymbol) -> char {
    match symbol {
        CircleSymbol::Circle => '○',
        CircleSymbol::FilledCircle => '●',
        CircleSymbol::LargeCircle => '◯',
        CircleSymbol::MediumFilledCircle => '⬤',
        CircleSymbol::DottedCircle => '◌',
        CircleSymbol::CircleWithLeftHalfBlack => '◐',
        CircleSymbol::CircleWithRightHalfBlack => '◑',
        CircleSymbol::CircledDot => '◍',
        CircleSymbol::CircleWithVerticalFill => '◓',
        CircleSymbol::CircleWithHorizontalFill => '◒',
        CircleSymbol::Bullseye => '◎',
        CircleSymbol::SunSymbol => '☉',
        CircleSymbol::FishEye => '◉',
        CircleSymbol::CircleWithTwoDotsInside => '⚇',
        CircleSymbol::FilledCircleWithTwoDotsInside => '⚉',
        CircleSymbol::RedCircle => '🔴',
        CircleSymbol::BlueCircle => '🔵',
        CircleSymbol::CircledPlus => '⊕',
        CircleSymbol::CircledMinus => '⊖',
        CircleSymbol::CircledTimes => '⊗',
    }
}

/// Converts a CircleSymbol to its corresponding Unicode character.
pub fn circle_symbol_to_char(symbol: CircleSymbol) -> (r: char)
    ensures
        r == circle_glyph(symbol),
{
    match symbol {
        CircleSymbol::Circle => '○',
        CircleSymbol::FilledCircle => '●',
        CircleSymbol::LargeCircle => '◯',
        CircleSymbol::MediumFilledCircle => '⬤',
        CircleSymbol::DottedCircle => '◌',
        CircleSymbol::CircleWithLeftHalfBlack => '◐',
        CircleSymbol::CircleWithRightHalfBlack => '◑',
        CircleSymbol::CircledDot => '◍',
        CircleSymbol::CircleWithVerticalFill => '◓',
        CircleSymbol::CircleWithHorizontalFill => '◒',
        CircleSymbol::Bullseye => '◎',
        CircleSymbol::SunSymbol => '☉',
        CircleSymbol::FishEye => '◉',
        CircleSymbol::CircleWithTwoDotsInside => '⚇',
        CircleSymbol::FilledCircleWithTwoDotsInside => '⚉',
        CircleSymbol::RedCircle => '🔴',
        CircleSymbol::BlueCircle => '🔵',
        CircleSymbol::CircledPlus => '⊕',
        CircleSymbol::CircledMinus => '⊖',
        CircleSymbol::CircledTimes => '⊗',
    }
}

} // verus!
