//! Color types shared across the API, and the pixel layout of a target buffer.

use vstd::prelude::*;

verus! {

/// An 8-bit-per-channel RGB color. Channels range over `0..=255`.
#[derive(Debug, Clone, Copy, PartialEq, Eq, Hash, Default, Structural)]
pub struct Rgb {
    /// Red channel.
    pub r: u8,
    /// Green channel.
    pub g: u8,
    /// Blue channel.
    pub b: u8,
}

impl Rgb {
    /// Creates an `Rgb` from its red, green and blue channels.
    pub fn new(r: u8, g: u8, b: u8) -> (c: Rgb)
        ensures
            c == (Rgb { r, g, b }),
    {
        Rgb { r, g, b }
    }
}

/// An 8-bit-per-channel RGB color with alpha; `a == 0` is fully
/// transparent and `a == 255` fully opaque.
#[derive(Debug, Clone, Copy, PartialEq, Eq, Hash, Default, Structural)]
pub struct Rgba {
    /// Red channel.
    pub r: u8,
    /// Green channel.
    pub g: u8,
    /// Blue channel.
    pub b: u8,
    /// Alpha (opacity) channel.
    pub a: u8,
}

impl Rgba {
    /// Creates an `Rgba` from its red, green, blue and alpha channels.
    pub fn new(r: u8, g: u8, b: u8, a: u8) -> (c: Rgba)
        ensures
            c == (Rgba { r, g, b, a }),
    {
        Rgba { r, g, b, a }
    }
}

/// Pixel layout of a rendering buffer.
///
/// The four `8888` layouts are 32 bits per pixel; the `S` suffix marks
/// straight (non-premultiplied) alpha, the others are premultiplied.
/// `Grayscale8` is a single 8-bit channel.
#[derive(Debug, Clone, Copy, PartialEq, Eq, Hash, Structural)]
#[non_exhaustive]
pub enum ColorSpace {
    /// Alpha, blue, green, red; premultiplied alpha.
    ABGR8888,
    /// Alpha, red, green, blue; premultiplied alpha.
    ARGB8888,
    /// Alpha, blue, green, red; straight alpha.
    ABGR8888S,
    /// Alpha, red, green, blue; straight alpha.
    ARGB8888S,
    /// Single 8-bit grayscale channel.
    Grayscale8,
}

/// The engine's raw code for each `ColorSpace` value.
pub open spec fn colorspace_code(v: ColorSpace) -> u32 {
    match v {
        ColorSpace::ABGR8888 => 0,
        ColorSpace::ARGB8888 => 1,
        ColorSpace::ABGR8888S => 2,
        ColorSpace::ARGB8888S => 3,
        ColorSpace::Grayscale8 => 4,
    }
}

impl ColorSpace {
    /// The engine's `Tvg_Colorspace` code.
    pub fn to_raw(self) -> (r: u32)
        ensures
            r == colorspace_code(self),
            self == ColorSpace::ABGR8888 ==> r == 0,
            self == ColorSpace::ARGB8888 ==> r == 1,
            self == ColorSpace::ABGR8888S ==> r == 2,
            self == ColorSpace::ARGB8888S ==> r == 3,
            self == ColorSpace::Grayscale8 ==> r == 4,
    {
        match self {
            ColorSpace::ABGR8888 => 0,
            ColorSpace::ARGB8888 => 1,
            ColorSpace::ABGR8888S => 2,
            ColorSpace::ARGB8888S => 3,
            ColorSpace::Grayscale8 => 4,
        }
    }
}

/// Distinct color spaces have distinct raw codes, so the engine can tell them apart.
pub proof fn lemma_colorspace_code_injective(a: ColorSpace, b: ColorSpace)
    requires
        colorspace_code(a) == colorspace_code(b),
    ensures
        a == b,
{
}

/// The engine's fixed `ColorSpace` codes, value by value.
pub proof fn lemma_colorspace_code_values()
    ensures
        colorspace_code(ColorSpace::ABGR8888) == 0u32,
        colorspace_code(ColorSpace::ARGB8888) == 1u32,
        colorspace_code(ColorSpace::ABGR8888S) == 2u32,
        colorspace_code(ColorSpace::ARGB8888S) == 3u32,
        colorspace_code(ColorSpace::Grayscale8) == 4u32,
{
}

} // verus!
