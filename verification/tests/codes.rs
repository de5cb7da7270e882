use thorvg::canvas::{EngineOption, WgTargetType};
use thorvg::color::ColorSpace;
use thorvg::fuzz_input::{to_blend, to_cap, to_fill_rule, to_join, to_mask, to_spread, CmdIn, FuzzCs, FuzzMime};
use thorvg::gradient::FillSpread;
use thorvg::paint::{BlendMethod, MaskMethod, PaintType};
use thorvg::picture::{FilterMethod, MimeType};
use thorvg::scene::{BlurBorder, BlurDirection};
use thorvg::shape::{FillRule, PaintOrder, StrokeCap, StrokeJoin};
use thorvg::text::TextWrap;

#[test]
fn engine_option_codes() {
    assert_eq!(EngineOption::NoOption.to_raw(), 0);
    assert_eq!(EngineOption::Default.to_raw(), 1);
    assert_eq!(EngineOption::SmartRender.to_raw(), 2);
    assert_eq!(EngineOption::Aliased.to_raw(), 4);
    assert_eq!(WgTargetType::Surface.to_raw(), 0);
    assert_eq!(WgTargetType::Texture.to_raw(), 1);
}

#[test]
fn colorspace_codes() {
    assert_eq!(ColorSpace::ABGR8888.to_raw(), 0);
    assert_eq!(ColorSpace::ARGB8888.to_raw(), 1);
    assert_eq!(ColorSpace::ABGR8888S.to_raw(), 2);
    assert_eq!(ColorSpace::ARGB8888S.to_raw(), 3);
    assert_eq!(ColorSpace::Grayscale8.to_raw(), 4);
}

#[test]
fn mask_method_round_trip() {
    let all = [
        MaskMethod::NoMask, MaskMethod::Alpha, MaskMethod::InvAlpha, MaskMethod::Luma,
        MaskMethod::InvLuma, MaskMethod::Add, MaskMethod::Subtract, MaskMethod::Intersect,
        MaskMethod::Difference, MaskMethod::Lighten, MaskMethod::Darken,
    ];
    for (i, m) in all.iter().enumerate() {
        assert_eq!(m.to_raw(), i as u32);
        assert_eq!(MaskMethod::from_raw(m.to_raw()), Some(*m));
    }
    assert_eq!(MaskMethod::from_raw(11), None);
}

#[test]
fn blend_codes() {
    assert_eq!(BlendMethod::Normal.to_raw(), 0);
    assert_eq!(BlendMethod::HardLight.to_raw(), 8);
    assert_eq!(BlendMethod::Add.to_raw(), 16);
}

#[test]
fn paint_type_decoding() {
    assert_eq!(PaintType::from_raw(0), PaintType::Undefined);
    assert_eq!(PaintType::from_raw(1), PaintType::Shape);
    assert_eq!(PaintType::from_raw(2), PaintType::Scene);
    assert_eq!(PaintType::from_raw(3), PaintType::Picture);
    assert_eq!(PaintType::from_raw(4), PaintType::Text);
    assert_eq!(PaintType::from_raw(10), PaintType::LinearGradient);
    assert_eq!(PaintType::from_raw(11), PaintType::RadialGradient);
    assert_eq!(PaintType::from_raw(5), PaintType::Undefined);
}

#[test]
fn shape_style_round_trips() {
    for r in [FillRule::NonZero, FillRule::EvenOdd] {
        assert_eq!(FillRule::from_raw(r.to_raw()), Some(r));
    }
    assert_eq!(FillRule::EvenOdd.to_raw(), 1);
    for c in [StrokeCap::Butt, StrokeCap::Round, StrokeCap::Square] {
        assert_eq!(StrokeCap::from_raw(c.to_raw()), Some(c));
    }
    assert_eq!(StrokeCap::Square.to_raw(), 2);
    for j in [StrokeJoin::Miter, StrokeJoin::Round, StrokeJoin::Bevel] {
        assert_eq!(StrokeJoin::from_raw(j.to_raw()), Some(j));
    }
    assert_eq!(StrokeJoin::Miter.to_raw(), 0);
    assert_eq!(StrokeJoin::Round.to_raw(), 1);
    assert_eq!(StrokeJoin::Bevel.to_raw(), 2);
    assert_eq!(StrokeCap::from_raw(3), None);
    assert!(PaintOrder::StrokeThenFill.to_raw());
    assert!(!PaintOrder::FillThenStroke.to_raw());
}

#[test]
fn spread_round_trip_and_fallback() {
    for s in [FillSpread::Pad, FillSpread::Reflect, FillSpread::Repeat] {
        assert_eq!(FillSpread::from_raw(s.to_raw()), s);
    }
    assert_eq!(FillSpread::from_raw(9), FillSpread::Pad);
}

#[test]
fn other_codes() {
    assert_eq!(FilterMethod::Bilinear.to_raw(), 0);
    assert_eq!(FilterMethod::Nearest.to_raw(), 1);
    assert_eq!(BlurDirection::Both.to_raw(), 0);
    assert_eq!(BlurDirection::Vertical.to_raw(), 2);
    assert_eq!(BlurBorder::Wrap.to_raw(), 1);
    assert_eq!(TextWrap::NoWrap.to_raw(), 0);
    assert_eq!(TextWrap::Ellipsis.to_raw(), 4);
}

#[test]
fn fuzz_selectors() {
    assert_eq!(to_spread(4), FillSpread::Reflect);
    assert_eq!(to_blend(17), BlendMethod::Normal);
    assert_eq!(to_blend(16), BlendMethod::Add);
    assert_eq!(to_mask(10), MaskMethod::Darken);
    assert_eq!(to_mask(12), MaskMethod::Alpha);
    assert_eq!(to_fill_rule(3), FillRule::EvenOdd);
    assert_eq!(to_fill_rule(4), FillRule::NonZero);
    assert_eq!(to_cap(0), StrokeCap::Square);
    assert_eq!(to_cap(5), StrokeCap::Butt);
    assert_eq!(to_join(0), StrokeJoin::Bevel);
    assert_eq!(to_join(2), StrokeJoin::Miter);
    assert_eq!(CmdIn(7).to_command().to_raw(), 3);
    assert_eq!(FuzzMime::Lottie.to_mime(), MimeType::Lottie);
    assert_eq!(FuzzCs::Argb8888s.to_cs(), ColorSpace::ARGB8888S);
}
