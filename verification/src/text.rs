//! Text wrapping modes.

use vstd::prelude::*;

verus! {

/// How text is wrapped within its layout box.
#[derive(Debug, Clone, Copy, PartialEq, Eq, Hash, Structural)]
#[non_exhaustive]
pub enum TextWrap {
    /// No wrapping (the engine's `NONE`).
    NoWrap,
    /// Wrap at any character.
    Character,
    /// Wrap at word boundaries.
    Word,
    /// Wrap at words, falling back to characters.
    Smart,
    /// Truncate with an ellipsis.
    Ellipsis,
}

/// The engine's raw code for each `TextWrap` value.
pub open spec fn text_wrap_code(v: TextWrap) -> u32 {
    match v {
        TextWrap::NoWrap => 0,
        TextWrap::Character => 1,
        TextWrap::Word => 2,
        TextWrap::Smart => 3,
        TextWrap::Ellipsis => 4,
    }
}

impl TextWrap {
    /// The engine's `Tvg_Text_Wrap` code.
    pub fn to_raw(self) -> (r: u32)
        ensures
            r == text_wrap_code(self),
            self == TextWrap::NoWrap ==> r == 0,
            self == TextWrap::Character ==> r == 1,
            self == TextWrap::Word ==> r == 2,
            self == TextWrap::Smart ==> r == 3,
            self == TextWrap::Ellipsis ==> r == 4,
    {
        match self {
            TextWrap::NoWrap => 0,
            TextWrap::Character => 1,
            TextWrap::Word => 2,
            TextWrap::Smart => 3,
            TextWrap::Ellipsis => 4,
        }
    }
}

/// Distinct wrap modes have distinct raw codes, so the engine can tell them apart.
pub proof fn lemma_text_wrap_code_injective(a: TextWrap, b: TextWrap)
    requires
        text_wrap_code(a) == text_wrap_code(b),
    ensures
        a == b,
{
}

/// The engine's fixed `TextWrap` codes, value by value.
pub proof fn lemma_text_wrap_code_values()
    ensures
        text_wrap_code(TextWrap::NoWrap) == 0u32,
        text_wrap_code(TextWrap::Character) == 1u32,
        text_wrap_code(TextWrap::Word) == 2u32,
        text_wrap_code(TextWrap::Smart) == 3u32,
        text_wrap_code(TextWrap::Ellipsis) == 4u32,
{
}

} // verus!
