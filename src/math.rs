//! Mathematical symbols.
use vstd::prelude::*;

verus! {

/// Represents various mathematical symbols available in Unicode.
#[derive(Debug, Clone, Copy, PartialEq, Eq, Structural)]
pub enum MathSymbol {
    Plus,
    Minus,
    Multiply,
    Divide,
    Equals,
    NotEquals,
    LessThan,
    GreaterThan,
    LessThanOrEqual,
    GreaterThanOrEqual,
    ElementOf,
    NotElementOf,
    Subset,
    Superset,
    Union,
    Intersection,
    And,
    Or,
    Not,
    Therefore,
    Because,
    PartialDerivative,
    Integral,
    ContourIntegral,
    Infinity,
    Degree,
    Perpendicular,
    Angle,
    MeasuredAngle,
    Alpha,
    Beta,
    Gamma,
    Delta,
    Pi,
    Sigma,
    PlusMinus,
    Sqrt,
    NthRoot,
    Dot,
    Proportional,
}

/// The glyph of each symbol.
pub open spec fn math_glyph(symbol: MathSymbol) -> char {
    match symbol {
        MathSymbol::Plus => '+',
        MathSymbol::Minus => '−',
        MathSymbol::Multiply => '×',
        MathSymbol::Divide => '÷',
        MathSymbol::Equals => '=',
        MathSymbol::NotEquals => '≠',
        MathSymbol::LessThan => '<',
        MathSymbol::GreaterThan => '>',
        MathSymbol::LessThanOrEqual => '≤',
        MathSymbol::GreaterThanOrEqual => '≥',
        MathSymbol::ElementOf => '∈',
        MathSymbol::NotElementOf => '∉',
        MathSymbol::Subset => '⊂',
        MathSymbol::Superset => '⊃',
        MathSymbol::Union => '∪',
        MathSymbol::Intersection => '∩',
        MathSymbol::And => '∧',
        MathSymbol::Or => '∨',
        MathSymbol::Not => '¬',
        MathSymbol::Therefore => '∴',
        MathSymbol::Because => '∵',
        MathSymbol::PartialDerivative => '∂',
        MathSymbol::Integral => '∫',
        MathSymbol::ContourIntegral => '∮',
        MathSymbol::Infinity => '∞',
        MathSymbol::Degree => '°',
        MathSymbol::Perpendicular => '⟂',
        MathSymbol::Angle => '∠',
        MathSymbol::MeasuredAngle => '∡',
        MathSymbol::Alpha => 'α',
        MathSymbol::Beta => 'β',
        MathSymbol::Gamma => 'γ',
        MathSymbol::Delta => 'δ',
        MathSymbol::Pi => 'π',
        MathSymbol::Sigma => 'σ',
        MathSymbol::PlusMinus => '±',
        MathSymbol::Sqrt => '√',
        MathSymbol::NthRoot => '∛',
        MathSymbol::Dot => '⋅',
        MathSymbol::Proportional => '∝',
    }
}

/// Converts a MathSymbol to its corresponding Unicode character.
pub fn math_symbol_to_char(symbol: MathSymbol) -> (r: char)
    ensures
        r == math_glyph(symbol),
{
    match symbol {
        MathSymbol::Plus => '+',
        MathSymbol::Minus => '−',
        MathSymbol::Multiply => '×',
        MathSymbol::Divide => '÷',
        MathSymbol::Equals => '=',
        MathSymbol::NotEquals => '≠',
        MathSymbol::LessThan => '<',
        MathSymbol::GreaterThan => '>',
        MathSymbol::LessThanOrEqual => '≤',
        MathSymbol::GreaterThanOrEqual => '≥',
        MathSymbol::ElementOf => '∈',
        MathSymbol::NotElementOf => '∉',
        MathSymbol::Subset => '⊂',
        MathSymbol::Superset => '⊃',
        MathSymbol::Union => '∪',
        MathSymbol::Intersection => '∩',
        MathSymbol::And => '∧',
        MathSymbol::Or => '∨',
        MathSymbol::Not => '¬',
        MathSymbol::Therefore => '∴',
        MathSymbol::Because => '∵',
        MathSymbol::PartialDerivative => '∂',
        MathSymbol::Integral => '∫',
        MathSymbol::ContourIntegral => '∮',
        MathSymbol::Infinity => '∞',
        MathSymbol::Degree => '°',
        MathSymbol::Perpendicular => '⟂',
        MathSymbol::Angle => '∠',
        MathSymbol::MeasuredAngle => '∡',
        MathSymbol::Alpha => 'α',
        MathSymbol::Beta => 'β',
        MathSymbol::Gamma => 'γ',
        MathSymbol::Delta => 'δ',
        MathSymbol::Pi => 'π',
        MathSymbol::Sigma => 'σ',
        MathSymbol::PlusMinus => '±',
        MathSymbol::Sqrt => '√',
        MathSymbol::NthRoot => '∛',
        MathSymbol::Dot => '⋅',
        MathSymbol::Proportional => '∝',
    }
}

} // verus!
