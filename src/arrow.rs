//! Arrow symbols.
use vstd::prelude::*;

verus! {

/// Represents various arrow symbols available in Unicode.
#[derive(Debug, Clone, Copy, PartialEq, Eq, Structural)]
pub enum ArrowSymbol {
    LeftArrow,
    UpArrow,
    RightArrow,
    DownArrow,
    LeftDoubleArrow,
    UpDoubleArrow,
    RightDoubleArrow,
    DownDoubleArrow,
    LeftHeavyArrow,
    UpHeavyArrow,
    RightHeavyArrow,
    DownHeavyArrow,
    LeftDashedArrow,
    UpDashedArrow,
    RightDashedArrow,
    DownDashedArrow,
    LeftCurvedArrow,
    UpCurvedArrow,
    RightCurvedArrow,
    DownCurvedArrow,
    UpLeftArrow,
    UpRightArrow,
    DownRightArrow,
    DownLeftArrow,
    LeftRightArrow,
    UpDownArrow,
    LeftwardsTailArrow,
    RightwardsTailArrow,
    CircularArrow,
}

/// The glyph of each symbol.
pub open spec fn arrow_glyph(symbol: ArrowSymbol) -> char {
    match symbol {
        ArrowSymbol::LeftArrow => '←',
        ArrowSymbol::UpArrow => '↑',
        ArrowSymbol::RightArrow => '→',
        ArrowSymbol::DownArrow => '↓',
        ArrowSymbol::LeftDoubleArrow => '⇐',
        ArrowSymbol::UpDoubleArrow => '⇑',
        ArrowSymbol::RightDoubleArrow => '⇒',
        ArrowSymbol::DownDoubleArrow => '⇓',
        ArrowSymbol::LeftHeavyArrow => '⟵',
        ArrowSymbol::UpHeavyArrow => '⟰',
        ArrowSymbol::RightHeavyArrow => '⟶',
        ArrowSymbol::DownHeavyArrow => '⟱',
        ArrowSymbol::LeftDashedArrow => '⇠',
        ArrowSymbol::UpDashedArrow => '⇡',
        ArrowSymbol::RightDashedArrow => '⇢',
        ArrowSymbol::DownDashedArrow => '⇣',
        ArrowSymbol::LeftCurvedArrow => '↶',
        ArrowSymbol::UpCurvedArrow => '⤴',
        ArrowSymbol::RightCurvedArrow => '↷',
        ArrowSymbol::DownCurvedArrow => '⤵',
        ArrowSymbol::UpLeftArrow => '↖',
        ArrowSymbol::UpRightArrow => '↗',
        ArrowSymbol::DownRightArrow => '↘',
        ArrowSymbol::DownLeftArrow => '↙',
        ArrowSymbol::LeftRightArrow => '↔',
        ArrowSymbol::UpDownArrow => '↕',
        ArrowSymbol::LeftwardsTailArrow => '↢',
        ArrowSymbol::RightwardsTailArrow => '↣',
        ArrowSymbol::CircularArrow => '↻',
    }
}

/// Converts an ArrowSymbol to its corresponding Unicode character.
pub fn arrow_symbol_to_char(symbol: ArrowSymbol) -> (r: char)
    ensures
        r == arrow_glyph(symbol),
{
    match symbol {
        ArrowSymbol::LeftArrow => '←',
        ArrowSymbol::UpArrow => '↑',
        ArrowSymbol::RightArrow => '→',
        ArrowSymbol::DownArrow => '↓',
        ArrowSymbol::LeftDoubleArrow => '⇐',
        ArrowSymbol::UpDoubleArrow => '⇑',
        ArrowSymbol::RightDoubleArrow => '⇒',
        ArrowSymbol::DownDoubleArrow => '⇓',
        ArrowSymbol::LeftHeavyArrow => '⟵',
        ArrowSymbol::UpHeavyArrow => '⟰',
        ArrowSymbol::RightHeavyArrow => '⟶',
        ArrowSymbol::DownHeavyArrow => '⟱',
        ArrowSymbol::LeftDashedArrow => '⇠',
        ArrowSymbol::UpDashedArrow => '⇡',
        ArrowSymbol::RightDashedArrow => '⇢',
        ArrowSymbol::DownDashedArrow => '⇣',
        ArrowSymbol::LeftCurvedArrow => '↶',
        ArrowSymbol::UpCurvedArrow => '⤴',
        ArrowSymbol::RightCurvedArrow => '↷',
        ArrowSymbol::DownCurvedArrow => '⤵',
        ArrowSymbol::UpLeftArrow => '↖',
        ArrowSymbol::UpRightArrow => '↗',
        ArrowSymbol::DownRightArrow => '↘',
        ArrowSymbol::DownLeftArrow => '↙',
        ArrowSymbol::LeftRightArrow => '↔',
        ArrowSymbol::UpDownArrow => '↕',
        ArrowSymbol::LeftwardsTailArrow => '↢',
        ArrowSymbol::RightwardsTailArrow => '↣',
        ArrowSymbol::CircularArrow => '↻',
    }
}

} // verus!
