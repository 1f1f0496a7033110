//! Triangle symbols.
use vstd::prelude::*;

verus! {

/// Represents various triangle symbols available in Unicode.
#[derive(Debug, Clone, Copy, PartialEq, Eq, Structural)]
pub enum TriangleSymbol {
    WhiteUpPointing,
    WhiteDownPointing,
    WhiteLeftPointing,
    WhiteRightPointing,
    BlackUpPointing,
    BlackDownPointing,
    BlackLeftPointing,
    BlackRightPointing,
    SmallBlackUpPointing,
    SmallBlackDownPointing,
    SmallBlackLeftPointing,
    SmallBlackRightPointing,
    UpPointingTriangle,
    RightPointingTriangle,
    DownPointingTriangle,
    LeftPointingTriangle,
    BlackUpPointingDouble,
    BlackDownPointingDouble,
    BlackLeftPointingDouble,
    BlackRightPointingDouble,
}

/// The glyph of each symbol.
pub open spec fn triangle_glyph(symbol: TriangleSymbol) -> char {
    match symbol {
        TriangleSymbol::WhiteUpPointing => '△',
        TriangleSymbol::WhiteDownPointing => '▽',
        TriangleSymbol::WhiteLeftPointing => '◁',
        TriangleSymbol::WhiteRightPointing => '▷',
        TriangleSymbol::BlackUpPointing => '▲',
        TriangleSymbol::BlackDownPointing => '▼',
        TriangleSymbol::BlackLeftPointing => '◀',
        TriangleSymbol::BlackRightPointing => '▶',
        TriangleSymbol::SmallBlackUpPointing => '▴',
        TriangleSymbol::SmallBlackDownPointing => '▾',
        TriangleSymbol::SmallBlackLeftPointing => '◂',
        TriangleSymbol::SmallBlackRightPointing => '▸',
        TriangleSymbol::UpPointingTriangle => '▵',
        TriangleSymbol::RightPointingTriangle => '▹',
        TriangleSymbol::DownPointingTriangle => '▿',
        TriangleSymbol::LeftPointingTriangle => '◃',
        TriangleSymbol::BlackUpPointingDouble => '⏶',
        TriangleSymbol::BlackDownPointingDouble => '⏷',
        TriangleSymbol::BlackLeftPointingDouble => '⏴',
        TriangleSymbol::BlackRightPointingDouble => '⏵',
    }
}

/// Converts a TriangleSymbol to its corresponding Unicode character.
pub fn triangle_symbol_to_char(symbol: TriangleSymbol) -> (r: char)
    ensures
        r == triangle_glyph(symbol),
{
    match symbol {
        TriangleSymbol::WhiteUpPointing => '△',
        TriangleSymbol::WhiteDownPointing => '▽',
        TriangleSymbol::WhiteLeftPointing => '◁',
        TriangleSymbol::WhiteRightPointing => '▷',
        TriangleSymbol::BlackUpPointing => '▲',
        TriangleSymbol::BlackDownPointing => '▼',
        TriangleSymbol::BlackLeftPointing => '◀',
        TriangleSymbol::BlackRightPointing => '▶',
        TriangleSymbol::SmallBlackUpPointing => '▴',
        TriangleSymbol::SmallBlackDownPointing => '▾',
        TriangleSymbol::SmallBlackLeftPointing => '◂',
        TriangleSymbol::SmallBlackRightPointing => '▸',
        TriangleSymbol::UpPointingTriangle => '▵',
        TriangleSymbol::RightPointingTriangle => '▹',
        TriangleSymbol::DownPointingTriangle => '▿',
        TriangleSymbol::LeftPointingTriangle => '◃',
        TriangleSymbol::BlackUpPointingDouble => '⏶',
        TriangleSymbol::BlackDownPointingDouble => '⏷',
        TriangleSymbol::BlackLeftPointingDouble => '⏴',
        TriangleSymbol::BlackRightPointingDouble => '⏵',
    }
}

} // verus!
