//! Fill and stroke styles of a shape.

use vstd::prelude::*;

verus! {

/// Rule deciding the interior of a self-intersecting path.
#[derive(Debug, Clone, Copy, PartialEq, Eq, Hash, Structural)]
pub enum FillRule {
    /// Non-zero winding rule.
    NonZero,
    /// Even-odd rule.
    EvenOdd,
}

/// The engine's raw code for each `FillRule` value.
pub open spec fn fill_rule_code(v: FillRule) -> u32 {
    match v {
        FillRule::NonZero => 0,
        FillRule::EvenOdd => 1,
    }
}

impl FillRule {
    /// The engine's `Tvg_Fill_Rule` code.
    pub fn to_raw(self) -> (r: u32)
        ensures
            r == fill_rule_code(self),
            self == FillRule::NonZero ==> r == 0,
            self == FillRule::EvenOdd ==> r == 1,
    {
        match self {
            FillRule::NonZero => 0,
            FillRule::EvenOdd => 1,
        }
    }

    /// Decodes a raw code; `None` for a code outside the engine's set.
    pub fn from_raw(c: u32) -> (r: Option<FillRule>)
        ensures
            r == fill_rule_code_decode(c),
            c == 0 ==> r == Some(FillRule::NonZero),
            c == 1 ==> r == Some(FillRule::EvenOdd),
    {
        match c {
            0 => Some(FillRule::NonZero),
            1 => Some(FillRule::EvenOdd),
            _ => None,
        }
    }
}

/// The value a raw code decodes to.
pub open spec fn fill_rule_code_decode(c: u32) -> Option<FillRule> {
    if c == 0 {
        Some(FillRule::NonZero)
    } else if c == 1 {
        Some(FillRule::EvenOdd)
    } else {
        None
    }
}

/// Decoding the raw code of a fill rule gives the same value back.
pub proof fn lemma_fill_rule_code_round_trip(v: FillRule)
    ensures
        fill_rule_code_decode(fill_rule_code(v)) == Some(v),
{
}

/// Cap drawn at the ends of open stroked sub-paths; the engine default is `Square`.
#[derive(Debug, Clone, Copy, PartialEq, Eq, Hash, Structural)]
pub enum StrokeCap {
    /// The stroke ends exactly at the endpoint.
    Butt,
    /// A semicircle at the endpoint.
    Round,
    /// A half-square past the endpoint.
    Square,
}

/// The engine's raw code for each `StrokeCap` value.
pub open spec fn stroke_cap_code(v: StrokeCap) -> u32 {
    match v {
        StrokeCap::Butt => 0,
        StrokeCap::Round => 1,
        StrokeCap::Square => 2,
    }
}

impl StrokeCap {
    /// The engine's `Tvg_Stroke_Cap` code.
    pub fn to_raw(self) -> (r: u32)
        ensures
            r == stroke_cap_code(self),
            self == StrokeCap::Butt ==> r == 0,
            self == StrokeCap::Round ==> r == 1,
            self == StrokeCap::Square ==> r == 2,
    {
        match self {
            StrokeCap::Butt => 0,
            StrokeCap::Round => 1,
            StrokeCap::Square => 2,
        }
    }

    /// Decodes a raw code; `None` for a code outside the engine's set.
    pub fn from_raw(c: u32) -> (r: Option<StrokeCap>)
        ensures
            r == stroke_cap_code_decode(c),
            c == 0 ==> r == Some(StrokeCap::Butt),
            c == 1 ==> r == Some(StrokeCap::Round),
            c == 2 ==> r == Some(StrokeCap::Square),
    {
        match c {
            0 => Some(StrokeCap::Butt),
            1 => Some(StrokeCap::Round),
            2 => Some(StrokeCap::Square),
            _ => None,
        }
    }
}

/// The value a raw code decodes to.
pub open spec fn stroke_cap_code_decode(c: u32) -> Option<StrokeCap> {
    if c == 0 {
        Some(StrokeCap::Butt)
    } else if c == 1 {
        Some(StrokeCap::Round)
    } else if c == 2 {
        Some(StrokeCap::Square)
    } else {
        None
    }
}

/// Decoding the raw code of a stroke cap gives the same value back.
pub proof fn lemma_stroke_cap_code_round_trip(v: StrokeCap)
    ensures
        stroke_cap_code_decode(stroke_cap_code(v)) == Some(v),
{
}

/// Join drawn where two stroked segments meet; the engine default is `Bevel`.
#[derive(Debug, Clone, Copy, PartialEq, Eq, Hash, Structural)]
pub enum StrokeJoin {
    /// Sharp corner, extended up to the miter limit.
    Miter,
    /// A circular arc smooths the corner.
    Round,
    /// The corner is cut off straight.
    Bevel,
}

/// The engine's raw code for each `StrokeJoin` value.
pub open spec fn stroke_join_code(v: StrokeJoin) -> u32 {
    match v {
        StrokeJoin::Miter => 0,
        StrokeJoin::Round => 1,
        StrokeJoin::Bevel => 2,
    }
}

impl StrokeJoin {
    /// The engine's `Tvg_Stroke_Join` code.
    pub fn to_raw(self) -> (r: u32)
        ensures
            r == stroke_join_code(self),
            self == StrokeJoin::Miter ==> r == 0,
            self == StrokeJoin::Round ==> r == 1,
            self == StrokeJoin::Bevel ==> r == 2,
    {
        match self {
            StrokeJoin::Miter => 0,
            StrokeJoin::Round => 1,
            StrokeJoin::Bevel => 2,
        }
    }

    /// Decodes a raw code; `None` for a code outside the engine's set.
    pub fn from_raw(c: u32) -> (r: Option<StrokeJoin>)
        ensures
            r == stroke_join_code_decode(c),
            c == 0 ==> r == Some(StrokeJoin::Miter),
            c == 1 ==> r == Some(StrokeJoin::Round),
            c == 2 ==> r == Some(StrokeJoin::Bevel),
    {
        match c {
            0 => Some(StrokeJoin::Miter),
            1 => Some(StrokeJoin::Round),
            2 => Some(StrokeJoin::Bevel),
            _ => None,
        }
    }
}

/// The value a raw code decodes to.
pub open spec fn stroke_join_code_decode(c: u32) -> Option<StrokeJoin> {
    if c == 0 {
        Some(StrokeJoin::Miter)
    } else if c == 1 {
        Some(StrokeJoin::Round)
    } else if c == 2 {
        Some(StrokeJoin::Bevel)
    } else {
        None
    }
}

/// Decoding the raw code of a stroke join gives the same value back.
pub proof fn lemma_stroke_join_code_round_trip(v: StrokeJoin)
    ensures
        stroke_join_code_decode(stroke_join_code(v)) == Some(v),
{
}

/// Rendering order of a shape's fill and stroke.
#[derive(Debug, Clone, Copy, PartialEq, Eq, Hash, Structural)]
pub enum PaintOrder {
    /// Fill first, then the stroke on top (the engine default).
    FillThenStroke,
    /// Stroke first, then the fill on top.
    StrokeThenFill,
}

/// The engine's `strokeFirst` flag for a paint order.
pub open spec fn stroke_first(o: PaintOrder) -> bool {
    o == PaintOrder::StrokeThenFill
}

impl PaintOrder {
    /// The engine's `strokeFirst` flag.
    pub fn to_raw(self) -> (b: bool)
        ensures
            b == stroke_first(self),
            b <==> self == PaintOrder::StrokeThenFill,
    {
        match self {
            PaintOrder::FillThenStroke => false,
            PaintOrder::StrokeThenFill => true,
        }
    }
}

/// Only stroke-then-fill sets the engine's `strokeFirst` flag.
pub proof fn lemma_stroke_first_values()
    ensures
        stroke_first(PaintOrder::StrokeThenFill),
        !stroke_first(PaintOrder::FillThenStroke),
{
}

/// The two paint orders map to opposite flags.
pub proof fn lemma_stroke_first_injective(a: PaintOrder, b: PaintOrder)
    requires
        stroke_first(a) == stroke_first(b),
    ensures
        a == b,
{
}

/// The engine's fixed `FillRule` codes, value by value, and what every other code decodes to.
pub proof fn lemma_fill_rule_code_values()
    ensures
        fill_rule_code(FillRule::NonZero) == 0u32,
        fill_rule_code(FillRule::EvenOdd) == 1u32,
        fill_rule_code_decode(0u32) == Some(FillRule::NonZero),
        fill_rule_code_decode(1u32) == Some(FillRule::EvenOdd),
        forall|c: u32| c != 0u32 && c != 1u32 ==> #[trigger] fill_rule_code_decode(c) == None::<FillRule>,
{
}

/// The engine's fixed `StrokeCap` codes, value by value, and what every other code decodes to.
pub proof fn lemma_stroke_cap_code_values()
    ensures
        stroke_cap_code(StrokeCap::Butt) == 0u32,
        stroke_cap_code(StrokeCap::Round) == 1u32,
        stroke_cap_code(StrokeCap::Square) == 2u32,
        stroke_cap_code_decode(0u32) == Some(StrokeCap::Butt),
        stroke_cap_code_decode(1u32) == Some(StrokeCap::Round),
        stroke_cap_code_decode(2u32) == Some(StrokeCap::Square),
        forall|c: u32| c != 0u32 && c != 1u32 && c != 2u32 ==> #[trigger] stroke_cap_code_decode(c) == None::<StrokeCap>,
{
}

/// The engine's fixed `StrokeJoin` codes, value by value, and what every other code decodes to.
pub proof fn lemma_stroke_join_code_values()
    ensures
        stroke_join_code(StrokeJoin::Miter) == 0u32,
        stroke_join_code(StrokeJoin::Round) == 1u32,
        stroke_join_code(StrokeJoin::Bevel) == 2u32,
        stroke_join_code_decode(0u32) == Some(StrokeJoin::Miter),
        stroke_join_code_decode(1u32) == Some(StrokeJoin::Round),
        stroke_join_code_decode(2u32) == Some(StrokeJoin::Bevel),
        forall|c: u32| c != 0u32 && c != 1u32 && c != 2u32 ==> #[trigger] stroke_join_code_decode(c) == None::<StrokeJoin>,
{
}

} // verus!
