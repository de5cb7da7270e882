//! Decoders from fuzzer-chosen bytes to the library's enums, so that a
//! byte stream reaches every variant.

use vstd::prelude::*;

use crate::color::{colorspace_code, ColorSpace};
use crate::gradient::{spread_code, FillSpread};
use crate::paint::{blend_code, mask_code, BlendMethod, MaskMethod};
use crate::path::{command_code, PathCommand};
use crate::picture::MimeType;
use crate::shape::{fill_rule_code, stroke_cap_code, stroke_join_code, FillRule, StrokeCap, StrokeJoin};

verus! {

/// Spread mode picked by `b % 3`: pad, reflect, repeat.
pub fn to_spread(b: u8) -> (s: FillSpread)
    ensures
        spread_code(s) == (b % 3) as u32,
{
    match b % 3 {
        0 => FillSpread::Pad,
        1 => FillSpread::Reflect,
        _ => FillSpread::Repeat,
    }
}

/// Blend method picked by `b % 17`, in the engine's code order.
pub fn to_blend(b: u8) -> (m: BlendMethod)
    ensures
        blend_code(m) == (b % 17) as u32,
{
    match b % 17 {
        0 => BlendMethod::Normal,
        1 => BlendMethod::Multiply,
        2 => BlendMethod::Screen,
        3 => BlendMethod::Overlay,
        4 => BlendMethod::Darken,
        5 => BlendMethod::Lighten,
        6 => BlendMethod::ColorDodge,
        7 => BlendMethod::ColorBurn,
        8 => BlendMethod::HardLight,
        9 => BlendMethod::SoftLight,
        10 => BlendMethod::Difference,
        11 => BlendMethod::Exclusion,
        12 => BlendMethod::Hue,
        13 => BlendMethod::Saturation,
        14 => BlendMethod::Color,
        15 => BlendMethod::Luminosity,
        _ => BlendMethod::Add,
    }
}

/// Mask method picked by `b % 11`, in the engine's code order.
pub fn to_mask(b: u8) -> (m: MaskMethod)
    ensures
        mask_code(m) == (b % 11) as u32,
{
    match b % 11 {
        0 => MaskMethod::NoMask,
        1 => MaskMethod::Alpha,
        2 => MaskMethod::InvAlpha,
        3 => MaskMethod::Luma,
        4 => MaskMethod::InvLuma,
        5 => MaskMethod::Add,
        6 => MaskMethod::Subtract,
        7 => MaskMethod::Intersect,
        8 => MaskMethod::Difference,
        9 => MaskMethod::Lighten,
        _ => MaskMethod::Darken,
    }
}

/// Fill rule picked by the lowest bit of `b`: non-zero, then even-odd.
pub fn to_fill_rule(b: u8) -> (r: FillRule)
    ensures
        fill_rule_code(r) == (b % 2) as u32,
{
    if b & 1 == 0 {
        assert(b % 2 == 0) by (bit_vector)
            requires
                b & 1 == 0,
        ;
        FillRule::NonZero
    } else {
        assert(b % 2 == 1) by (bit_vector)
            requires
                b & 1 != 0,
        ;
        FillRule::EvenOdd
    }
}

/// Stroke cap picked by `b % 3`: square, round, butt.
pub fn to_cap(b: u8) -> (c: StrokeCap)
    ensures
        stroke_cap_code(c) == 2 - (b % 3) as u32,
{
    match b % 3 {
        0 => StrokeCap::Square,
        1 => StrokeCap::Round,
        _ => StrokeCap::Butt,
    }
}

/// Stroke join picked by `b % 3`: bevel, round, miter.
pub fn to_join(b: u8) -> (j: StrokeJoin)
    ensures
        stroke_join_code(j) == 2 - (b % 3) as u32,
{
    match b % 3 {
        0 => StrokeJoin::Bevel,
        1 => StrokeJoin::Round,
        _ => StrokeJoin::Miter,
    }
}

/// A fuzzer byte standing for a path command.
#[derive(Debug, Clone, Copy)]
pub struct CmdIn(pub u8);

impl CmdIn {
    /// The command picked by the byte modulo 4: close, move, line, cubic.
    pub fn to_command(self) -> (c: PathCommand)
        ensures
            command_code(c) == self.0 % 4,
    {
        match self.0 % 4 {
            0 => PathCommand::Close,
            1 => PathCommand::MoveTo,
            2 => PathCommand::LineTo,
            _ => PathCommand::CubicTo,
        }
    }
}

/// The data formats a fuzzer feeds to the picture loader.
#[derive(Debug, Clone, Copy)]
pub enum FuzzMime {
    /// SVG.
    Svg,
    /// PNG.
    Png,
    /// JPEG.
    Jpg,
    /// WebP.
    Webp,
    /// Lottie JSON.
    Lottie,
    /// Raw pixels.
    Raw,
}

impl FuzzMime {
    /// The format of the same name.
    pub fn to_mime(&self) -> (m: MimeType)
        ensures
            m == match *self {
                FuzzMime::Svg => MimeType::Svg,
                FuzzMime::Png => MimeType::Png,
                FuzzMime::Jpg => MimeType::Jpg,
                FuzzMime::Webp => MimeType::Webp,
                FuzzMime::Lottie => MimeType::Lottie,
                FuzzMime::Raw => MimeType::Raw,
            },
    {
        match self {
            FuzzMime::Svg => MimeType::Svg,
            FuzzMime::Png => MimeType::Png,
            FuzzMime::Jpg => MimeType::Jpg,
            FuzzMime::Webp => MimeType::Webp,
            FuzzMime::Lottie => MimeType::Lottie,
            FuzzMime::Raw => MimeType::Raw,
        }
    }
}

/// The 32-bit color spaces a fuzzer feeds to a software canvas target.
#[derive(Debug, Clone, Copy)]
pub enum FuzzCs {
    /// ABGR, premultiplied.
    Abgr8888,
    /// ARGB, premultiplied.
    Argb8888,
    /// ABGR, straight alpha.
    Abgr8888s,
    /// ARGB, straight alpha.
    Argb8888s,
}

impl FuzzCs {
    /// The color space of the same layout.
    pub fn to_cs(&self) -> (c: ColorSpace)
        ensures
            colorspace_code(c) == match *self {
                FuzzCs::Abgr8888 => 0u32,
                FuzzCs::Argb8888 => 1u32,
                FuzzCs::Abgr8888s => 2u32,
                FuzzCs::Argb8888s => 3u32,
            },
    {
        match self {
            FuzzCs::Abgr8888 => ColorSpace::ABGR8888,
            FuzzCs::Argb8888 => ColorSpace::ARGB8888,
            FuzzCs::Abgr8888s => ColorSpace::ABGR8888S,
            FuzzCs::Argb8888s => ColorSpace::ARGB8888S,
        }
    }
}

} // verus!
