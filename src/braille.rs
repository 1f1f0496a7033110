//! Braille patterns, U+2800 to U+283F.
use vstd::prelude::*;

verus! {

/// Represents Braille symbols available in Unicode.
#[derive(Debug, Clone, Copy, PartialEq, Eq, Structural)]
pub enum BrailleSymbol {
    Blank,
    Dot1,
    Dot2,
    Dot12,
    Dot3,
    Dot13,
    Dot23,
    Dot123,
    Dot4,
    Dot14,
    Dot24,
    Dot124,
    Dot34,
    Dot134,
    Dot234,
    Dot1234,
    Dot5,
    Dot15,
    Dot25,
    Dot125,
    Dot35,
    Dot135,
    Dot235,
    Dot1235,
    Dot45,
    Dot145,
    Dot245,
    Dot1245,
    Dot345,
    Dot1345,
    Dot2345,
    Dot12345,
    Dot6,
    Dot16,
    Dot26,
    Dot126,
    Dot36,
    Dot136,
    Dot236,
    Dot1236,
    Dot46,
    Dot146,
    Dot246,
    Dot1246,
    Dot346,
    Dot1346,
    Dot2346,
    Dot12346,
    Dot56,
    Dot156,
    Dot256,
    Dot1256,
    Dot356,
    Dot1356,
    Dot2356,
    Dot12356,
    Dot456,
    Dot1456,
    Dot2456,
    Dot12456,
    Dot3456,
    Dot13456,
    Dot23456,
    Dot123456,
}

impl BrailleSymbol {
    /// The glyph of each symbol.
    pub open spec fn glyph(self) -> char {
        match self {
            BrailleSymbol::Blank => '⠀',
            BrailleSymbol::Dot1 => '⠁',
            BrailleSymbol::Dot2 => '⠂',
            BrailleSymbol::Dot12 => '⠃',
            BrailleSymbol::Dot3 => '⠄',
            BrailleSymbol::Dot13 => '⠅',
            BrailleSymbol::Dot23 => '⠆',
            BrailleSymbol::Dot123 => '⠇',
            BrailleSymbol::Dot4 => '⠈',
            BrailleSymbol::Dot14 => '⠉',
            BrailleSymbol::Dot24 => '⠊',
            BrailleSymbol::Dot124 => '⠋',
            BrailleSymbol::Dot34 => '⠌',
            BrailleSymbol::Dot134 => '⠍',
            BrailleSymbol::Dot234 => '⠎',
            BrailleSymbol::Dot1234 => '⠏',
            BrailleSymbol::Dot5 => '⠐',
            BrailleSymbol::Dot15 => '⠑',
            BrailleSymbol::Dot25 => '⠒',
            BrailleSymbol::Dot125 => '⠓',
            BrailleSymbol::Dot35 => '⠔',
            BrailleSymbol::Dot135 => '⠕',
            BrailleSymbol::Dot235 => '⠖',
            BrailleSymbol::Dot1235 => '⠗',
            BrailleSymbol::Dot45 => '⠘',
            BrailleSymbol::Dot145 => '⠙',
            BrailleSymbol::Dot245 => '⠚',
            BrailleSymbol::Dot1245 => '⠛',
            BrailleSymbol::Dot345 => '⠜',
            BrailleSymbol::Dot1345 => '⠝',
            BrailleSymbol::Dot2345 => '⠞',
            BrailleSymbol::Dot12345 => '⠟',
            BrailleSymbol::Dot6 => '⠠',
            BrailleSymbol::Dot16 => '⠡',
            BrailleSymbol::Dot26 => '⠢',
            BrailleSymbol::Dot126 => '⠣',
            BrailleSymbol::Dot36 => '⠤',
            BrailleSymbol::Dot136 => '⠥',
            BrailleSymbol::Dot236 => '⠦',
            BrailleSymbol::Dot1236 => '⠧',
            BrailleSymbol::Dot46 => '⠨',
            BrailleSymbol::Dot146 => '⠩',
            BrailleSymbol::Dot246 => '⠪',
            BrailleSymbol::Dot1246 => '⠫',
            BrailleSymbol::Dot346 => '⠬',
            BrailleSymbol::Dot1346 => '⠭',
            BrailleSymbol::Dot2346 => '⠮',
            BrailleSymbol::Dot12346 => '⠯',
            BrailleSymbol::Dot56 => '⠰',
            BrailleSymbol::Dot156 => '⠱',
            BrailleSymbol::Dot256 => '⠲',
            BrailleSymbol::Dot1256 => '⠳',
            BrailleSymbol::Dot356 => '⠴',
            BrailleSymbol::Dot1356 => '⠵',
            BrailleSymbol::Dot2356 => '⠶',
            BrailleSymbol::Dot12356 => '⠷',
            BrailleSymbol::Dot456 => '⠸',
            BrailleSymbol::Dot1456 => '⠹',
            BrailleSymbol::Dot2456 => '⠺',
            BrailleSymbol::Dot12456 => '⠻',
            BrailleSymbol::Dot3456 => '⠼',
            BrailleSymbol::Dot13456 => '⠽',
            BrailleSymbol::Dot23456 => '⠾',
            BrailleSymbol::Dot123456 => '⠿',
        }
    }

    /// Converts the BrailleSymbol enum variant to its corresponding Unicode character.
    pub fn to_char(self) -> (r: char)
        ensures
            r == self.glyph(),
    {
        match self {
            BrailleSymbol::Blank => '⠀',
            BrailleSymbol::Dot1 => '⠁',
            BrailleSymbol::Dot2 => '⠂',
            BrailleSymbol::Dot12 => '⠃',
            BrailleSymbol::Dot3 => '⠄',
            BrailleSymbol::Dot13 => '⠅',
            BrailleSymbol::Dot23 => '⠆',
            BrailleSymbol::Dot123 => '⠇',
            BrailleSymbol::Dot4 => '⠈',
            BrailleSymbol::Dot14 => '⠉',
            BrailleSymbol::Dot24 => '⠊',
            BrailleSymbol::Dot124 => '⠋',
            BrailleSymbol::Dot34 => '⠌',
            BrailleSymbol::Dot134 => '⠍',
            BrailleSymbol::Dot234 => '⠎',
            BrailleSymbol::Dot1234 => '⠏',
            BrailleSymbol::Dot5 => '⠐',
            BrailleSymbol::Dot15 => '⠑',
            BrailleSymbol::Dot25 => '⠒',
            BrailleSymbol::Dot125 => '⠓',
            BrailleSymbol::Dot35 => '⠔',
            BrailleSymbol::Dot135 => '⠕',
            BrailleSymbol::Dot235 => '⠖',
            BrailleSymbol::Dot1235 => '⠗',
            BrailleSymbol::Dot45 => '⠘',
            BrailleSymbol::Dot145 => '⠙',
            BrailleSymbol::Dot245 => '⠚',
            BrailleSymbol::Dot1245 => '⠛',
            BrailleSymbol::Dot345 => '⠜',
            BrailleSymbol::Dot1345 => '⠝',
            BrailleSymbol::Dot2345 => '⠞',
            BrailleSymbol::Dot12345 => '⠟',
            BrailleSymbol::Dot6 => '⠠',
            BrailleSymbol::Dot16 => '⠡',
            BrailleSymbol::Dot26 => '⠢',
            BrailleSymbol::Dot126 => '⠣',
            BrailleSymbol::Dot36 => '⠤',
            BrailleSymbol::Dot136 => '⠥',
            BrailleSymbol::Dot236 => '⠦',
            BrailleSymbol::Dot1236 => '⠧',
            BrailleSymbol::Dot46 => '⠨',
            BrailleSymbol::Dot146 => '⠩',
            BrailleSymbol::Dot246 => '⠪',
            BrailleSymbol::Dot1246 => '⠫',
            BrailleSymbol::Dot346 => '⠬',
            BrailleSymbol::Dot1346 => '⠭',
            BrailleSymbol::Dot2346 => '⠮',
            BrailleSymbol::Dot12346 => '⠯',
            BrailleSymbol::Dot56 => '⠰',
            BrailleSymbol::Dot156 => '⠱',
            BrailleSymbol::Dot256 => '⠲',
            BrailleSymbol::Dot1256 => '⠳',
            BrailleSymbol::Dot356 => '⠴',
            BrailleSymbol::Dot1356 => '⠵',
            BrailleSymbol::Dot2356 => '⠶',
            BrailleSymbol::Dot12356 => '⠷',
            BrailleSymbol::Dot456 => '⠸',
            BrailleSymbol::Dot1456 => '⠹',
            BrailleSymbol::Dot2456 => '⠺',
            BrailleSymbol::Dot12456 => '⠻',
            BrailleSymbol::Dot3456 => '⠼',
            BrailleSymbol::Dot13456 => '⠽',
            BrailleSymbol::Dot23456 => '⠾',
            BrailleSymbol::Dot123456 => '⠿',
        }
    }
}

} // verus!
