//! Compositing choices shared by all paints, and the runtime type of a paint.

use vstd::prelude::*;

verus! {

/// Blending method for compositing a paint onto what lies below it.
///
/// Covers the engine's user-facing modes; its internal composition mode
/// is not one a caller selects, so it has no variant here.
#[derive(Debug, Clone, Copy, PartialEq, Eq, Hash, Structural)]
#[non_exhaustive]
pub enum BlendMethod {
    /// Source drawn over the destination; no blending.
    Normal,
    /// Source times destination; always darkens.
    Multiply,
    /// Inverse multiply; always lightens.
    Screen,
    /// `Multiply` in dark areas, `Screen` in light ones.
    Overlay,
    /// The darker of source and destination per channel.
    Darken,
    /// The lighter of source and destination per channel.
    Lighten,
    /// Brightens the destination to reflect the source.
    ColorDodge,
    /// Darkens the destination to reflect the source.
    ColorBurn,
    /// `Overlay` with source and destination swapped.
    HardLight,
    /// A softer `HardLight`.
    SoftLight,
    /// Absolute difference per channel.
    Difference,
    /// Like `Difference` with lower contrast.
    Exclusion,
    /// Source hue, destination saturation and luminosity.
    Hue,
    /// Source saturation, destination hue and luminosity.
    Saturation,
    /// Source hue and saturation, destination luminosity.
    Color,
    /// Source luminosity, destination hue and saturation.
    Luminosity,
    /// Source plus destination per channel.
    Add,
}

/// The engine's raw code for each `BlendMethod` value.
pub open spec fn blend_code(v: BlendMethod) -> u32 {
    match v {
        BlendMethod::Normal => 0,
        BlendMethod::Multiply => 1,
        BlendMethod::Screen => 2,
        BlendMethod::Overlay => 3,
        BlendMethod::Darken => 4,
        BlendMethod::Lighten => 5,
        BlendMethod::ColorDodge => 6,
        BlendMethod::ColorBurn => 7,
        BlendMethod::HardLight => 8,
        BlendMethod::SoftLight => 9,
        BlendMethod::Difference => 10,
        BlendMethod::Exclusion => 11,
        BlendMethod::Hue => 12,
        BlendMethod::Saturation => 13,
        BlendMethod::Color => 14,
        BlendMethod::Luminosity => 15,
        BlendMethod::Add => 16,
    }
}

impl BlendMethod {
    /// The engine's `Tvg_Blend_Method` code.
    pub fn to_raw(self) -> (r: u32)
        ensures
            r == blend_code(self),
            self == BlendMethod::Normal ==> r == 0,
            self == BlendMethod::Multiply ==> r == 1,
            self == BlendMethod::Screen ==> r == 2,
            self == BlendMethod::Overlay ==> r == 3,
            self == BlendMethod::Darken ==> r == 4,
            self == BlendMethod::Lighten ==> r == 5,
            self == BlendMethod::ColorDodge ==> r == 6,
            self == BlendMethod::ColorBurn ==> r == 7,
            self == BlendMethod::HardLight ==> r == 8,
            self == BlendMethod::SoftLight ==> r == 9,
            self == BlendMethod::Difference ==> r == 10,
            self == BlendMethod::Exclusion ==> r == 11,
            self == BlendMethod::Hue ==> r == 12,
            self == BlendMethod::Saturation ==> r == 13,
            self == BlendMethod::Color ==> r == 14,
            self == BlendMethod::Luminosity ==> r == 15,
            self == BlendMethod::Add ==> r == 16,
    {
        match self {
            BlendMethod::Normal => 0,
            BlendMethod::Multiply => 1,
            BlendMethod::Screen => 2,
            BlendMethod::Overlay => 3,
            BlendMethod::Darken => 4,
            BlendMethod::Lighten => 5,
            BlendMethod::ColorDodge => 6,
            BlendMethod::ColorBurn => 7,
            BlendMethod::HardLight => 8,
            BlendMethod::SoftLight => 9,
            BlendMethod::Difference => 10,
            BlendMethod::Exclusion => 11,
            BlendMethod::Hue => 12,
            BlendMethod::Saturation => 13,
            BlendMethod::Color => 14,
            BlendMethod::Luminosity => 15,
            BlendMethod::Add => 16,
        }
    }
}

/// Distinct blend methods have distinct raw codes, so the engine can tell them apart.
pub proof fn lemma_blend_code_injective(a: BlendMethod, b: BlendMethod)
    requires
        blend_code(a) == blend_code(b),
    ensures
        a == b,
{
}

/// Masking method for combining a paint with its mask target.
#[derive(Debug, Clone, Copy, PartialEq, Eq, Hash, Structural)]
#[non_exhaustive]
pub enum MaskMethod {
    /// No masking (the engine's `NONE`).
    NoMask,
    /// Mask by the target's alpha.
    Alpha,
    /// Mask by the inverse of the target's alpha.
    InvAlpha,
    /// Mask by the target's luminance.
    Luma,
    /// Mask by the inverse of the target's luminance.
    InvLuma,
    /// Add the target's coverage to the source.
    Add,
    /// Subtract the target's coverage from the source.
    Subtract,
    /// Keep only where source and target overlap.
    Intersect,
    /// Keep the non-overlapping coverage.
    Difference,
    /// Keep the lighter coverage.
    Lighten,
    /// Keep the darker coverage.
    Darken,
}

/// The engine's raw code for each `MaskMethod` value.
pub open spec fn mask_code(v: MaskMethod) -> u32 {
    match v {
        MaskMethod::NoMask => 0,
        MaskMethod::Alpha => 1,
        MaskMethod::InvAlpha => 2,
        MaskMethod::Luma => 3,
        MaskMethod::InvLuma => 4,
        MaskMethod::Add => 5,
        MaskMethod::Subtract => 6,
        MaskMethod::Intersect => 7,
        MaskMethod::Difference => 8,
        MaskMethod::Lighten => 9,
        MaskMethod::Darken => 10,
    }
}

impl MaskMethod {
    /// The engine's `Tvg_Mask_Method` code.
    pub fn to_raw(self) -> (r: u32)
        ensures
            r == mask_code(self),
            self == MaskMethod::NoMask ==> r == 0,
            self == MaskMethod::Alpha ==> r == 1,
            self == MaskMethod::InvAlpha ==> r == 2,
            self == MaskMethod::Luma ==> r == 3,
            self == MaskMethod::InvLuma ==> r == 4,
            self == MaskMethod::Add ==> r == 5,
            self == MaskMethod::Subtract ==> r == 6,
            self == MaskMethod::Intersect ==> r == 7,
            self == MaskMethod::Difference ==> r == 8,
            self == MaskMethod::Lighten ==> r == 9,
            self == MaskMethod::Darken ==> r == 10,
    {
        match self {
            MaskMethod::NoMask => 0,
            MaskMethod::Alpha => 1,
            MaskMethod::InvAlpha => 2,
            MaskMethod::Luma => 3,
            MaskMethod::InvLuma => 4,
            MaskMethod::Add => 5,
            MaskMethod::Subtract => 6,
            MaskMethod::Intersect => 7,
            MaskMethod::Difference => 8,
            MaskMethod::Lighten => 9,
            MaskMethod::Darken => 10,
        }
    }

    /// Decodes a raw code; `None` for a code outside the engine's set.
    pub fn from_raw(c: u32) -> (r: Option<MaskMethod>)
        ensures
            r == mask_code_decode(c),
            c == 0 ==> r == Some(MaskMethod::NoMask),
            c == 1 ==> r == Some(MaskMethod::Alpha),
            c == 2 ==> r == Some(MaskMethod::InvAlpha),
            c == 3 ==> r == Some(MaskMethod::Luma),
            c == 4 ==> r == Some(MaskMethod::InvLuma),
            c == 5 ==> r == Some(MaskMethod::Add),
            c == 6 ==> r == Some(MaskMethod::Subtract),
            c == 7 ==> r == Some(MaskMethod::Intersect),
            c == 8 ==> r == Some(MaskMethod::Difference),
            c == 9 ==> r == Some(MaskMethod::Lighten),
            c == 10 ==> r == Some(MaskMethod::Darken),
    {
        match c {
            0 => Some(MaskMethod::NoMask),
            1 => Some(MaskMethod::Alpha),
            2 => Some(MaskMethod::InvAlpha),
            3 => Some(MaskMethod::Luma),
            4 => Some(MaskMethod::InvLuma),
            5 => Some(MaskMethod::Add),
            6 => Some(MaskMethod::Subtract),
            7 => Some(MaskMethod::Intersect),
            8 => Some(MaskMethod::Difference),
            9 => Some(MaskMethod::Lighten),
            10 => Some(MaskMethod::Darken),
            _ => None,
        }
    }
}

/// The value a raw code decodes to.
pub open spec fn mask_code_decode(c: u32) -> Option<MaskMethod> {
    if c == 0 {
        Some(MaskMethod::NoMask)
    } else if c == 1 {
        Some(MaskMethod::Alpha)
    } else if c == 2 {
        Some(MaskMethod::InvAlpha)
    } else if c == 3 {
        Some(MaskMethod::Luma)
    } else if c == 4 {
        Some(MaskMethod::InvLuma)
    } else if c == 5 {
        Some(MaskMethod::Add)
    } else if c == 6 {
        Some(MaskMethod::Subtract)
    } else if c == 7 {
        Some(MaskMethod::Intersect)
    } else if c == 8 {
        Some(MaskMethod::Difference)
    } else if c == 9 {
        Some(MaskMethod::Lighten)
    } else if c == 10 {
        Some(MaskMethod::Darken)
    } else {
        None
    }
}

/// Decoding the raw code of a mask method gives the same value back.
pub proof fn lemma_mask_code_round_trip(v: MaskMethod)
    ensures
        mask_code_decode(mask_code(v)) == Some(v),
{
}

/// The concrete type of a paint or gradient object.
#[derive(Debug, Clone, Copy, PartialEq, Eq, Hash, Structural)]
#[non_exhaustive]
pub enum PaintType {
    /// Unknown or unset type.
    Undefined,
    /// A shape.
    Shape,
    /// A scene.
    Scene,
    /// A picture.
    Picture,
    /// A text object.
    Text,
    /// A linear gradient.
    LinearGradient,
    /// A radial gradient.
    RadialGradient,
}

/// The engine's raw code for each `PaintType` value.
pub open spec fn paint_type_code(v: PaintType) -> u32 {
    match v {
        PaintType::Undefined => 0,
        PaintType::Shape => 1,
        PaintType::Scene => 2,
        PaintType::Picture => 3,
        PaintType::Text => 4,
        PaintType::LinearGradient => 10,
        PaintType::RadialGradient => 11,
    }
}

impl PaintType {

    /// Decodes a raw code; a code outside the engine's set reads as `Undefined`.
    pub fn from_raw(c: u32) -> (r: PaintType)
        ensures
            r == paint_type_code_decode(c),
            c == 0 ==> r == PaintType::Undefined,
            c == 1 ==> r == PaintType::Shape,
            c == 2 ==> r == PaintType::Scene,
            c == 3 ==> r == PaintType::Picture,
            c == 4 ==> r == PaintType::Text,
            c == 10 ==> r == PaintType::LinearGradient,
            c == 11 ==> r == PaintType::RadialGradient,
    {
        match c {
            1 => PaintType::Shape,
            2 => PaintType::Scene,
            3 => PaintType::Picture,
            4 => PaintType::Text,
            10 => PaintType::LinearGradient,
            11 => PaintType::RadialGradient,
            _ => PaintType::Undefined,
        }
    }
}

/// The value a raw code decodes to.
pub open spec fn paint_type_code_decode(c: u32) -> PaintType {
    if c == 1 {
        PaintType::Shape
    } else if c == 2 {
        PaintType::Scene
    } else if c == 3 {
        PaintType::Picture
    } else if c == 4 {
        PaintType::Text
    } else if c == 10 {
        PaintType::LinearGradient
    } else if c == 11 {
        PaintType::RadialGradient
    } else {
        PaintType::Undefined
    }
}

/// Decoding the raw code of a paint type gives the same value back.
pub proof fn lemma_paint_type_code_round_trip(v: PaintType)
    ensures
        paint_type_code_decode(paint_type_code(v)) == v,
{
}

/// The engine's fixed `BlendMethod` codes, value by value.
pub proof fn lemma_blend_code_values()
    ensures
        blend_code(BlendMethod::Normal) == 0u32,
        blend_code(BlendMethod::Multiply) == 1u32,
        blend_code(BlendMethod::Screen) == 2u32,
        blend_code(BlendMethod::Overlay) == 3u32,
        blend_code(BlendMethod::Darken) == 4u32,
        blend_code(BlendMethod::Lighten) == 5u32,
        blend_code(BlendMethod::ColorDodge) == 6u32,
        blend_code(BlendMethod::ColorBurn) == 7u32,
        blend_code(BlendMethod::HardLight) == 8u32,
        blend_code(BlendMethod::SoftLight) == 9u32,
        blend_code(BlendMethod::Difference) == 10u32,
        blend_code(BlendMethod::Exclusion) == 11u32,
        blend_code(BlendMethod::Hue) == 12u32,
        blend_code(BlendMethod::Saturation) == 13u32,
        blend_code(BlendMethod::Color) == 14u32,
        blend_code(BlendMethod::Luminosity) == 15u32,
        blend_code(BlendMethod::Add) == 16u32,
{
}

/// The engine's fixed `MaskMethod` codes, value by value, and what every other code decodes to.
pub proof fn lemma_mask_code_values()
    ensures
        mask_code(MaskMethod::NoMask) == 0u32,
        mask_code(MaskMethod::Alpha) == 1u32,
        mask_code(MaskMethod::InvAlpha) == 2u32,
        mask_code(MaskMethod::Luma) == 3u32,
        mask_code(MaskMethod::InvLuma) == 4u32,
        mask_code(MaskMethod::Add) == 5u32,
        mask_code(MaskMethod::Subtract) == 6u32,
        mask_code(MaskMethod::Intersect) == 7u32,
        mask_code(MaskMethod::Difference) == 8u32,
        mask_code(MaskMethod::Lighten) == 9u32,
        mask_code(MaskMethod::Darken) == 10u32,
        mask_code_decode(0u32) == Some(MaskMethod::NoMask),
        mask_code_decode(1u32) == Some(MaskMethod::Alpha),
        mask_code_decode(2u32) == Some(MaskMethod::InvAlpha),
        mask_code_decode(3u32) == Some(MaskMethod::Luma),
        mask_code_decode(4u32) == Some(MaskMethod::InvLuma),
        mask_code_decode(5u32) == Some(MaskMethod::Add),
        mask_code_decode(6u32) == Some(MaskMethod::Subtract),
        mask_code_decode(7u32) == Some(MaskMethod::Intersect),
        mask_code_decode(8u32) == Some(MaskMethod::Difference),
        mask_code_decode(9u32) == Some(MaskMethod::Lighten),
        mask_code_decode(10u32) == Some(MaskMethod::Darken),
        forall|c: u32| c != 0u32 && c != 1u32 && c != 2u32 && c != 3u32 && c != 4u32 && c != 5u32 && c != 6u32 && c != 7u32 && c != 8u32 && c != 9u32 && c != 10u32 ==> #[trigger] mask_code_decode(c) == None::<MaskMethod>,
{
}

/// The engine's fixed `PaintType` codes, value by value, and what every other code decodes to.
pub proof fn lemma_paint_type_code_values()
    ensures
        paint_type_code(PaintType::Undefined) == 0u32,
        paint_type_code(PaintType::Shape) == 1u32,
        paint_type_code(PaintType::Scene) == 2u32,
        paint_type_code(PaintType::Picture) == 3u32,
        paint_type_code(PaintType::Text) == 4u32,
        paint_type_code(PaintType::LinearGradient) == 10u32,
        paint_type_code(PaintType::RadialGradient) == 11u32,
        paint_type_code_decode(0u32) == PaintType::Undefined,
        paint_type_code_decode(1u32) == PaintType::Shape,
        paint_type_code_decode(2u32) == PaintType::Scene,
        paint_type_code_decode(3u32) == PaintType::Picture,
        paint_type_code_decode(4u32) == PaintType::Text,
        paint_type_code_decode(10u32) == PaintType::LinearGradient,
        paint_type_code_decode(11u32) == PaintType::RadialGradient,
        forall|c: u32| c != 0u32 && c != 1u32 && c != 2u32 && c != 3u32 && c != 4u32 && c != 10u32 && c != 11u32 ==> #[trigger] paint_type_code_decode(c) == PaintType::Undefined,
{
}

} // verus!
