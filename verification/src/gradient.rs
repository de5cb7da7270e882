//! Gradient spread modes.

use vstd::prelude::*;

verus! {

/// How a gradient fills the area outside its defined range.
#[derive(Debug, Clone, Copy, PartialEq, Eq, Hash, Structural)]
#[non_exhaustive]
pub enum FillSpread {
    /// Extend the end colors.
    Pad,
    /// Mirror the gradient.
    Reflect,
    /// Repeat the gradient.
    Repeat,
}

/// The engine's raw code for each `FillSpread` value.
pub open spec fn spread_code(v: FillSpread) -> u32 {
    match v {
        FillSpread::Pad => 0,
        FillSpread::Reflect => 1,
        FillSpread::Repeat => 2,
    }
}

impl FillSpread {
    /// The engine's `Tvg_Stroke_Fill` code.
    pub fn to_raw(self) -> (r: u32)
        ensures
            r == spread_code(self),
            self == FillSpread::Pad ==> r == 0,
            self == FillSpread::Reflect ==> r == 1,
            self == FillSpread::Repeat ==> r == 2,
    {
        match self {
            FillSpread::Pad => 0,
            FillSpread::Reflect => 1,
            FillSpread::Repeat => 2,
        }
    }

    /// Decodes a raw code; a code outside the engine's set reads as `Pad`.
    pub fn from_raw(c: u32) -> (r: FillSpread)
        ensures
            r == spread_code_decode(c),
            c == 0 ==> r == FillSpread::Pad,
            c == 1 ==> r == FillSpread::Reflect,
            c == 2 ==> r == FillSpread::Repeat,
    {
        match c {
            1 => FillSpread::Reflect,
            2 => FillSpread::Repeat,
            _ => FillSpread::Pad,
        }
    }
}

/// The value a raw code decodes to.
pub open spec fn spread_code_decode(c: u32) -> FillSpread {
    if c == 1 {
        FillSpread::Reflect
    } else if c == 2 {
        FillSpread::Repeat
    } else {
        FillSpread::Pad
    }
}

/// Decoding the raw code of a spread mode gives the same value back.
pub proof fn lemma_spread_code_round_trip(v: FillSpread)
    ensures
        spread_code_decode(spread_code(v)) == v,
{
}

/// The engine's fixed `FillSpread` codes, value by value, and what every other code decodes to.
pub proof fn lemma_spread_code_values()
    ensures
        spread_code(FillSpread::Pad) == 0u32,
        spread_code(FillSpread::Reflect) == 1u32,
        spread_code(FillSpread::Repeat) == 2u32,
        spread_code_decode(0u32) == FillSpread::Pad,
        spread_code_decode(1u32) == FillSpread::Reflect,
        spread_code_decode(2u32) == FillSpread::Repeat,
        forall|c: u32| c != 0u32 && c != 1u32 && c != 2u32 ==> #[trigger] spread_code_decode(c) == FillSpread::Pad,
{
}

} // verus!
