use thorvg::canvas::{check_sw_target, EngineOption, GlTarget, RenderStep, WgTarget, WgTargetType};
use thorvg::color::{ColorSpace, Rgb, Rgba};
use thorvg::ctext::CText;
use thorvg::error::Error;
use thorvg::font::FontData;
use thorvg::picture::{check_raw_image, MimeType, PictureData, RawImage};
use thorvg::scene::Tritone;

#[test]
fn status_codes_map_to_errors() {
    assert_eq!(Error::from_raw(0), Ok(()));
    assert_eq!(Error::from_raw(1), Err(Error::InvalidArguments));
    assert_eq!(Error::from_raw(2), Err(Error::InsufficientCondition));
    assert_eq!(Error::from_raw(3), Err(Error::FailedAllocation));
    assert_eq!(Error::from_raw(4), Err(Error::MemoryCorruption));
    assert_eq!(Error::from_raw(5), Err(Error::NotSupported));
    assert_eq!(Error::from_raw(255), Err(Error::Unknown));
    assert_eq!(Error::from_raw(6), Err(Error::Unknown));
}

#[test]
fn error_messages() {
    assert_eq!(Error::InvalidArguments.message(), "invalid arguments");
    assert_eq!(Error::InsufficientCondition.message(), "insufficient condition");
    assert_eq!(Error::FailedAllocation.message(), "failed allocation");
    assert_eq!(Error::MemoryCorruption.message(), "memory corruption");
    assert_eq!(Error::NotSupported.message(), "not supported");
    assert_eq!(Error::Unknown.message(), "unknown error");
}

#[test]
fn ctext_appends_terminator() {
    let c = CText::new("Arial").unwrap();
    assert_eq!(c.as_bytes_with_nul(), b"Arial\0");
    assert_eq!(c.len(), 5);
    let e = CText::new("").unwrap();
    assert_eq!(e.as_bytes_with_nul(), b"\0");
    let u = CText::new("é").unwrap();
    assert_eq!(u.as_bytes_with_nul(), &[0xc3, 0xa9, 0]);
}

#[test]
fn ctext_rejects_interior_nul() {
    assert_eq!(CText::new("a\0b").unwrap_err(), Error::InvalidArguments);
    assert_eq!(CText::new("\0").unwrap_err(), Error::InvalidArguments);
    assert!(CText::new_optional(None).unwrap().is_none());
    assert_eq!(
        CText::new_optional(Some("x")).unwrap().unwrap().as_bytes_with_nul(),
        b"x\0"
    );
    assert_eq!(CText::new_optional(Some("x\0")).unwrap_err(), Error::InvalidArguments);
}

#[test]
fn font_data_prepare() {
    static BYTES: [u8; 4] = [1, 2, 3, 4];
    let f = FontData::prepare("Arial-Owned", &BYTES, Some("ttf"), true).unwrap();
    assert_eq!(f.name.as_bytes_with_nul(), b"Arial-Owned\0");
    assert_eq!(f.mimetype.as_ref().unwrap().as_bytes_with_nul(), b"ttf\0");
    assert_eq!(f.data, &BYTES[..]);
    assert!(f.copy);
    let g = FontData::prepare("Arial-Static", &BYTES, None, false).unwrap();
    assert!(g.mimetype.is_none());
    assert!(!g.copy);
    assert_eq!(FontData::prepare("bad\0name", &BYTES, None, true).unwrap_err(), Error::InvalidArguments);
    assert_eq!(FontData::prepare("ok", &BYTES, Some("t\0tf"), true).unwrap_err(), Error::InvalidArguments);
}

#[test]
fn sw_target_checks() {
    assert_eq!(check_sw_target(800 * 600, 800, 800, 600), Ok(()));
    assert_eq!(check_sw_target(100 * 10, 100, 50, 10), Ok(()));
    // stride narrower than a row
    assert_eq!(check_sw_target(10_000, 99, 100, 10), Err(Error::InvalidArguments));
    // buffer one pixel short
    assert_eq!(check_sw_target(100 * 10 - 1, 100, 100, 10), Err(Error::InvalidArguments));
    // a product that would wrap in 32 bits is still caught
    assert_eq!(check_sw_target(64 * 1024, u32::MAX, 16, u32::MAX), Err(Error::InvalidArguments));
    assert_eq!(check_sw_target(0, 0x1_0000, 0, 0x1_0000), Err(Error::InvalidArguments));
    // zero height needs no pixels
    assert_eq!(check_sw_target(0, 10, 10, 0), Ok(()));
}

#[test]
fn raw_image_checks() {
    assert_eq!(check_raw_image(4, 2, 2), Ok(()));
    assert_eq!(check_raw_image(3, 2, 2), Err(Error::InvalidArguments));
    assert_eq!(check_raw_image(16, u32::MAX, u32::MAX), Err(Error::InvalidArguments));
    assert_eq!(check_raw_image(0, 0, 100), Ok(()));
}

fn run(u: Result<(), Error>, d: Result<(), Error>, s: Result<(), Error>) -> (Result<(), Error>, usize) {
    let mut step = RenderStep::start();
    let outcomes = [u, d, s];
    let mut calls = 0;
    while !step.is_done() {
        step = step.next(outcomes[calls]);
        calls += 1;
    }
    match step {
        RenderStep::Done(r) => (r, calls),
        _ => unreachable!(),
    }
}

#[test]
fn render_stops_at_first_error() {
    assert_eq!(run(Ok(()), Ok(()), Ok(())), (Ok(()), 3));
    assert_eq!(run(Err(Error::InsufficientCondition), Ok(()), Ok(())), (Err(Error::InsufficientCondition), 1));
    assert_eq!(run(Ok(()), Err(Error::Unknown), Ok(())), (Err(Error::Unknown), 2));
    assert_eq!(run(Ok(()), Ok(()), Err(Error::MemoryCorruption)), (Err(Error::MemoryCorruption), 3));
    assert!(matches!(RenderStep::Done(Ok(())).next(Err(Error::Unknown)), RenderStep::Done(Ok(()))));
    assert!(matches!(RenderStep::start().next(Ok(())), RenderStep::Draw { clear: true }));
}

#[test]
fn colors_and_targets() {
    assert_eq!(Rgb::new(1, 2, 3), Rgb { r: 1, g: 2, b: 3 });
    assert_eq!(Rgba::new(255, 0, 0, 255), Rgba { r: 255, g: 0, b: 0, a: 255 });
    assert_eq!(Rgba::default(), Rgba { r: 0, g: 0, b: 0, a: 0 });
    let g = GlTarget::new(1, 2, 3, 0, 800, 600, ColorSpace::ABGR8888S);
    assert_eq!((g.display, g.surface, g.context, g.id, g.width, g.height), (1, 2, 3, 0, 800, 600));
    assert_eq!(g.colorspace, ColorSpace::ABGR8888S);
    let w = WgTarget::new(0, 7, 9, 64, 32, ColorSpace::ABGR8888S, WgTargetType::Texture);
    assert_eq!((w.device, w.instance, w.target, w.width, w.height), (0, 7, 9, 64, 32));
    assert_eq!(w.target_type, WgTargetType::Texture);
    assert_eq!(EngineOption::default(), EngineOption::Default);
}

#[test]
fn tritone_builders_and_args() {
    let t = Tritone::new();
    assert_eq!(t.shadow, Rgb::new(0, 0, 0));
    assert_eq!(t.midtone, Rgb::new(128, 128, 128));
    assert_eq!(t.highlight, Rgb::new(255, 255, 255));
    assert_eq!(t.blend, 128);
    assert_eq!(Tritone::default(), t);
    let u = Tritone::new()
        .shadow(Rgb::new(10, 20, 30))
        .midtone(Rgb::new(40, 50, 60))
        .highlight(Rgb::new(70, 80, 90))
        .blend(200);
    assert_eq!(u.effect_args(), [10, 20, 30, 40, 50, 60, 70, 80, 90, 200]);
    assert_eq!(Tritone::new().blend(7).shadow, Rgb::new(0, 0, 0));
}

#[test]
fn mime_names() {
    assert_eq!(MimeType::Svg.as_str(), "svg");
    assert_eq!(MimeType::Png.as_str(), "png");
    assert_eq!(MimeType::Jpg.as_str(), "jpg");
    assert_eq!(MimeType::Webp.as_str(), "webp");
    assert_eq!(MimeType::Lottie.as_str(), "lottie+json");
    assert_eq!(MimeType::Raw.as_str(), "raw");
}

#[test]
fn picture_data_prepare() {
    let bytes = b"<svg/>";
    let d = PictureData::prepare(bytes, MimeType::Svg, Some("/assets"), true).unwrap();
    assert_eq!(d.data, &bytes[..]);
    assert_eq!(d.mime, MimeType::Svg);
    assert_eq!(d.resource_path.as_ref().unwrap().as_bytes_with_nul(), b"/assets\0");
    assert!(d.copy);
    let s = PictureData::prepare(bytes, MimeType::Lottie, None, false).unwrap();
    assert!(s.resource_path.is_none());
    assert!(!s.copy);
    assert_eq!(
        PictureData::prepare(bytes, MimeType::Svg, Some("a\0b"), true).unwrap_err(),
        Error::InvalidArguments
    );
}

#[test]
fn raw_image_prepare() {
    let px = [0u32; 6];
    let img = RawImage::prepare(&px, 3, 2, ColorSpace::ARGB8888, true).unwrap();
    assert_eq!((img.width, img.height, img.pixels.len()), (3, 2, 6));
    assert_eq!(img.colorspace, ColorSpace::ARGB8888);
    assert_eq!(RawImage::prepare(&px, 4, 2, ColorSpace::ARGB8888, false).unwrap_err(), Error::InvalidArguments);
    assert_eq!(RawImage::prepare(&px, u32::MAX, u32::MAX, ColorSpace::ARGB8888, false).unwrap_err(), Error::InvalidArguments);
}
