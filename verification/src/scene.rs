//! Scene effect parameters.

use vstd::prelude::*;

use crate::color::Rgb;

verus! {

/// Direction of a Gaussian blur.
#[derive(Debug, Clone, Copy, PartialEq, Eq, Hash, Structural)]
pub enum BlurDirection {
    /// Blur horizontally and vertically.
    Both,
    /// Blur horizontally only.
    Horizontal,
    /// Blur vertically only.
    Vertical,
}

/// The engine's raw code for each `BlurDirection` value.
pub open spec fn blur_direction_code(v: BlurDirection) -> i32 {
    match v {
        BlurDirection::Both => 0,
        BlurDirection::Horizontal => 1,
        BlurDirection::Vertical => 2,
    }
}

impl BlurDirection {
    /// The integer the engine takes for this direction.
    pub fn to_raw(self) -> (r: i32)
        ensures
            r == blur_direction_code(self),
            self == BlurDirection::Both ==> r == 0,
            self == BlurDirection::Horizontal ==> r == 1,
            self == BlurDirection::Vertical ==> r == 2,
    {
        match self {
            BlurDirection::Both => 0,
            BlurDirection::Horizontal => 1,
            BlurDirection::Vertical => 2,
        }
    }
}

/// Distinct directions have distinct raw codes, so the engine can tell them apart.
pub proof fn lemma_blur_direction_code_injective(a: BlurDirection, b: BlurDirection)
    requires
        blur_direction_code(a) == blur_direction_code(b),
    ensures
        a == b,
{
}

/// How a Gaussian blur treats pixels past the border.
#[derive(Debug, Clone, Copy, PartialEq, Eq, Hash, Structural)]
pub enum BlurBorder {
    /// Repeat the edge pixels.
    Duplicate,
    /// Wrap around to the opposite edge.
    Wrap,
}

/// The engine's raw code for each `BlurBorder` value.
pub open spec fn blur_border_code(v: BlurBorder) -> i32 {
    match v {
        BlurBorder::Duplicate => 0,
        BlurBorder::Wrap => 1,
    }
}

impl BlurBorder {
    /// The integer the engine takes for this border mode.
    pub fn to_raw(self) -> (r: i32)
        ensures
            r == blur_border_code(self),
            self == BlurBorder::Duplicate ==> r == 0,
            self == BlurBorder::Wrap ==> r == 1,
    {
        match self {
            BlurBorder::Duplicate => 0,
            BlurBorder::Wrap => 1,
        }
    }
}

/// Distinct border modes have distinct raw codes, so the engine can tell them apart.
pub proof fn lemma_blur_border_code_injective(a: BlurBorder, b: BlurBorder)
    requires
        blur_border_code(a) == blur_border_code(b),
    ensures
        a == b,
{
}

/// Parameters of a tritone effect: shadows, midtones and highlights are
/// mapped to three colors, mixed with the original by `blend`.
#[derive(Debug, Clone, Copy, PartialEq, Eq, Hash, Structural)]
pub struct Tritone {
    /// Color for the shadows.
    pub shadow: Rgb,
    /// Color for the midtones.
    pub midtone: Rgb,
    /// Color for the highlights.
    pub highlight: Rgb,
    /// Mix with the original, `0..=255`.
    pub blend: u8,
}

/// The tritone parameters a new `Tritone` starts from.
pub open spec fn tritone_default() -> Tritone {
    Tritone {
        shadow: Rgb { r: 0, g: 0, b: 0 },
        midtone: Rgb { r: 128, g: 128, b: 128 },
        highlight: Rgb { r: 255, g: 255, b: 255 },
        blend: 128,
    }
}

/// The integer arguments the engine's tritone effect takes, in its order:
/// shadow, midtone and highlight channels, then the blend.
pub open spec fn tritone_args(t: Tritone) -> Seq<i32> {
    seq![
        t.shadow.r as i32, t.shadow.g as i32, t.shadow.b as i32,
        t.midtone.r as i32, t.midtone.g as i32, t.midtone.b as i32,
        t.highlight.r as i32, t.highlight.g as i32, t.highlight.b as i32,
        t.blend as i32,
    ]
}

impl Tritone {
    /// Black shadows, mid-gray midtones, white highlights, blend 128.
    pub fn new() -> (t: Tritone)
        ensures
            t == tritone_default(),
    {
        Tritone {
            shadow: Rgb { r: 0, g: 0, b: 0 },
            midtone: Rgb { r: 128, g: 128, b: 128 },
            highlight: Rgb { r: 255, g: 255, b: 255 },
            blend: 128,
        }
    }

    /// Replaces the shadow color.
    pub fn shadow(self, shadow: Rgb) -> (t: Tritone)
        ensures
            t == (Tritone { shadow, ..self }),
    {
        Tritone { shadow, ..self }
    }

    /// Replaces the midtone color.
    pub fn midtone(self, midtone: Rgb) -> (t: Tritone)
        ensures
            t == (Tritone { midtone, ..self }),
    {
        Tritone { midtone, ..self }
    }

    /// Replaces the highlight color.
    pub fn highlight(self, highlight: Rgb) -> (t: Tritone)
        ensures
            t == (Tritone { highlight, ..self }),
    {
        Tritone { highlight, ..self }
    }

    /// Replaces the blend.
    pub fn blend(self, blend: u8) -> (t: Tritone)
        ensures
            t == (Tritone { blend, ..self }),
    {
        Tritone { blend, ..self }
    }

    /// The integer arguments of the engine's tritone effect, each channel
    /// widened unchanged.
    pub fn effect_args(&self) -> (a: [i32; 10])
        ensures
            a@ == tritone_args(*self),
    {
        let a: [i32; 10] = [
            self.shadow.r as i32, self.shadow.g as i32, self.shadow.b as i32,
            self.midtone.r as i32, self.midtone.g as i32, self.midtone.b as i32,
            self.highlight.r as i32, self.highlight.g as i32, self.highlight.b as i32,
            self.blend as i32,
        ];
        assert(a@ =~= tritone_args(*self));
        a
    }
}

impl Default for Tritone {
    /// Same as `Tritone::new`.
    fn default() -> (t: Tritone)
        ensures
            t == tritone_default(),
    {
        Tritone::new()
    }
}

/// Each builder step changes only its own field: setting the four fields
/// of any tritone gives the tritone made of those four values.
pub proof fn lemma_tritone_builders(t: Tritone, s: Rgb, m: Rgb, h: Rgb, b: u8)
    ensures
        (Tritone { blend: b, ..Tritone { highlight: h, ..Tritone { midtone: m, ..Tritone { shadow: s, ..t } } } })
            == (Tritone { shadow: s, midtone: m, highlight: h, blend: b }),
{
}

/// The effect arguments are exactly the parameter channels, in range
/// `0..=255`, so the engine receives the values the caller chose.
pub proof fn lemma_tritone_args_in_range(t: Tritone, i: int)
    requires
        0 <= i < 10,
    ensures
        0 <= tritone_args(t)[i] <= 255,
{
}

/// The engine's fixed `BlurDirection` codes, value by value.
pub proof fn lemma_blur_direction_code_values()
    ensures
        blur_direction_code(BlurDirection::Both) == 0i32,
        blur_direction_code(BlurDirection::Horizontal) == 1i32,
        blur_direction_code(BlurDirection::Vertical) == 2i32,
{
}

/// The engine's fixed `BlurBorder` codes, value by value.
pub proof fn lemma_blur_border_code_values()
    ensures
        blur_border_code(BlurBorder::Duplicate) == 0i32,
        blur_border_code(BlurBorder::Wrap) == 1i32,
{
}

} // verus!
