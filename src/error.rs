//! The errors that terminal operations report.
use vstd::prelude::*;

verus! {

/// Why an operation did not complete.
#[derive(Debug, Clone, Copy, PartialEq, Eq, Structural)]
pub enum TermError {
    /// The coordinates of the operation fall outside the current viewport.
    Boundary,
    /// A box or rectangle is too small to be drawn (its width or height is under 2).
    TooSmall,
    /// Writing to or reading from the terminal failed.
    Io,
}

} // verus!
