//! Face symbols.
use vstd::prelude::*;

verus! {

/// Represents various smiley face symbols available in Unicode.
#[derive(Debug, Clone, Copy, PartialEq, Eq, Structural)]
pub enum EmojiSymbol {
    HappyFace,
    SmilingFace,
    GrinningFace,
    LaughingFace,
    TearsOfJoy,
    WinkingFace,
    SmilingEyes,
    SadFace,
    SlightlyFrowningFace,
    FrowningFace,
    CryingFace,
    LoudlyCryingFace,
    AngryFace,
    PoutingFace,
    NeutralFace,
    ExpressionlessFace,
    ConfusedFace,
    ThinkingFace,
    ZipperMouthFace,
    StuckOutTongue,
    WinkingTongue,
    Zany,
    SleepyFace,
    SleepingFace,
    NerdFace,
    CowboyHatFace,
    ClownFace,
    Alien,
    Robot,
}

/// The glyph of each symbol.
pub open spec fn smiley_glyph(symbol: EmojiSymbol) -> char {
    match symbol {
        EmojiSymbol::HappyFace => '☺',
        EmojiSymbol::SmilingFace => '😊',
        EmojiSymbol::GrinningFace => '😀',
        EmojiSymbol::LaughingFace => '😄',
        EmojiSymbol::TearsOfJoy => '😂',
        EmojiSymbol::WinkingFace => '😉',
        EmojiSymbol::SmilingEyes => '😊',
        EmojiSymbol::SadFace => '☹',
        EmojiSymbol::SlightlyFrowningFace => '🙁',
        EmojiSymbol::FrowningFace => '😦',
        EmojiSymbol::CryingFace => '😢',
        EmojiSymbol::LoudlyCryingFace => '😭',
        EmojiSymbol::AngryFace => '😠',
        EmojiSymbol::PoutingFace => '😡',
        EmojiSymbol::NeutralFace => '😐',
        EmojiSymbol::ExpressionlessFace => '😑',
        EmojiSymbol::ConfusedFace => '😕',
        EmojiSymbol::ThinkingFace => '🤔',
        EmojiSymbol::ZipperMouthFace => '🤐',
        EmojiSymbol::StuckOutTongue => '😛',
        EmojiSymbol::WinkingTongue => '😜',
        EmojiSymbol::Zany => '🤪',
        EmojiSymbol::SleepyFace => '😪',
        EmojiSymbol::SleepingFace => '😴',
        EmojiSymbol::NerdFace => '🤓',
        EmojiSymbol::CowboyHatFace => '🤠',
        EmojiSymbol::ClownFace => '🤡',
        EmojiSymbol::Alien => '👽',
        EmojiSymbol::Robot => '🤖',
    }
}

/// Converts a SmileySymbol to its corresponding Unicode character.
pub fn smiley_symbol_to_char(symbol: EmojiSymbol) -> (r: char)
    ensures
        r == smiley_glyph(symbol),
{
    match symbol {
        EmojiSymbol::HappyFace => '☺',
        EmojiSymbol::SmilingFace => '😊',
        EmojiSymbol::GrinningFace => '😀',
        EmojiSymbol::LaughingFace => '😄',
        EmojiSymbol::TearsOfJoy => '😂',
        EmojiSymbol::WinkingFace => '😉',
        EmojiSymbol::SmilingEyes => '😊',
        EmojiSymbol::SadFace => '☹',
        EmojiSymbol::SlightlyFrowningFace => '🙁',
        EmojiSymbol::FrowningFace => '😦',
        EmojiSymbol::CryingFace => '😢',
        EmojiSymbol::LoudlyCryingFace => '😭',
        EmojiSymbol::AngryFace => '😠',
        EmojiSymbol::PoutingFace => '😡',
        EmojiSymbol::NeutralFace => '😐',
        EmojiSymbol::ExpressionlessFace => '😑',
        EmojiSymbol::ConfusedFace => '😕',
        EmojiSymbol::ThinkingFace => '🤔',
        EmojiSymbol::ZipperMouthFace => '🤐',
        EmojiSymbol::StuckOutTongue => '😛',
        EmojiSymbol::WinkingTongue => '😜',
        EmojiSymbol::Zany => '🤪',
        EmojiSymbol::SleepyFace => '😪',
        EmojiSymbol::SleepingFace => '😴',
        EmojiSymbol::NerdFace => '🤓',
        EmojiSymbol::CowboyHatFace => '🤠',
        EmojiSymbol::ClownFace => '🤡',
        EmojiSymbol::Alien => '👽',
        EmojiSymbol::Robot => '🤖',
    }
}

} // verus!
