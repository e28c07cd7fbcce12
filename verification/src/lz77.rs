//! The settings of the LZ77 stage of the compression engine, as far as the
//! container has to know them.

use vstd::prelude::*;

verus! {

/// The longest distance that DEFLATE lets a back-reference span.
pub const MAX_WINDOW_SIZE: u16 = 0x8000;

/// How hard the LZ77 stage looks for repetitions.
#[derive(Debug, Clone, Copy, PartialEq, Eq, Hash, Structural)]
pub enum EffortLevel {
    /// It looks for none: every byte is coded as a literal.
    Minimal,
    /// It prefers speed.
    Fast,
    /// It weighs speed against size.
    Balance,
    /// It prefers small output.
    Best,
}

/// The two settings of the LZ77 stage that a stream's header reflects.
#[derive(Debug, Clone, Copy, PartialEq, Eq, Hash, Structural)]
pub struct Lz77Settings {
    /// The longest distance of a back-reference, in bytes.
    pub window_size: u16,
    /// The effort spent on the search.
    pub level: EffortLevel,
}

impl Lz77Settings {
    /// The usual settings: the whole window and balanced effort.
    pub fn new() -> (r: Self)
        ensures
            r == (Lz77Settings { window_size: MAX_WINDOW_SIZE, level: EffortLevel::Balance }),
    {
        Lz77Settings { window_size: MAX_WINDOW_SIZE, level: EffortLevel::Balance }
    }
}

} // verus!
