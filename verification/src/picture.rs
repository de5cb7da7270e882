//! Picture loading choices: sampling filter, data format, and the check
//! made on a raw pixel buffer.

use vstd::prelude::*;

use vstd::string::StringSliceAdditionalSpecFns;

use crate::color::ColorSpace;
use crate::ctext::CText;
use crate::error::Error;

verus! {

/// Sampling filter used when a picture is scaled.
#[derive(Debug, Clone, Copy, PartialEq, Eq, Hash, Structural)]
#[non_exhaustive]
pub enum FilterMethod {
    /// Smooth bilinear sampling.
    Bilinear,
    /// Nearest-neighbour sampling.
    Nearest,
}

/// The engine's raw code for each `FilterMethod` value.
pub open spec fn filter_code(v: FilterMethod) -> u32 {
    match v {
        FilterMethod::Bilinear => 0,
        FilterMethod::Nearest => 1,
    }
}

impl FilterMethod {
    /// The engine's `Tvg_Filter_Method` code.
    pub fn to_raw(self) -> (r: u32)
        ensures
            r == filter_code(self),
            self == FilterMethod::Bilinear ==> r == 0,
            self == FilterMethod::Nearest ==> r == 1,
    {
        match self {
            FilterMethod::Bilinear => 0,
            FilterMethod::Nearest => 1,
        }
    }
}

/// Distinct filter methods have distinct raw codes, so the engine can tell them apart.
pub proof fn lemma_filter_code_injective(a: FilterMethod, b: FilterMethod)
    requires
        filter_code(a) == filter_code(b),
    ensures
        a == b,
{
}

/// Format of in-memory picture data, selecting the engine's loader.
#[derive(Debug, Clone, Copy, PartialEq, Eq, Hash, Structural)]
#[non_exhaustive]
pub enum MimeType {
    /// SVG vector image.
    Svg,
    /// PNG image.
    Png,
    /// JPEG image.
    Jpg,
    /// WebP image.
    Webp,
    /// Lottie animation JSON.
    Lottie,
    /// Raw pixel data.
    Raw,
}

/// The loader name the engine takes for each format.
pub open spec fn mime_name(m: MimeType) -> Seq<char> {
    match m {
        MimeType::Svg => "svg"@,
        MimeType::Png => "png"@,
        MimeType::Jpg => "jpg"@,
        MimeType::Webp => "webp"@,
        MimeType::Lottie => "lottie+json"@,
        MimeType::Raw => "raw"@,
    }
}

impl MimeType {
    /// The loader name handed to the engine.
    pub fn as_str(self) -> (s: &'static str)
        ensures
            s@ == mime_name(self),
    {
        match self {
            MimeType::Svg => "svg",
            MimeType::Png => "png",
            MimeType::Jpg => "jpg",
            MimeType::Webp => "webp",
            MimeType::Lottie => "lottie+json",
            MimeType::Raw => "raw",
        }
    }
}

/// Distinct formats have distinct loader names.
pub proof fn lemma_mime_name_injective(a: MimeType, b: MimeType)
    requires
        mime_name(a) == mime_name(b),
    ensures
        a == b,
{
    reveal_strlit("svg");
    assert("svg"@ =~= seq!['s', 'v', 'g']);
    reveal_strlit("png");
    assert("png"@ =~= seq!['p', 'n', 'g']);
    reveal_strlit("jpg");
    assert("jpg"@ =~= seq!['j', 'p', 'g']);
    reveal_strlit("webp");
    assert("webp"@ =~= seq!['w', 'e', 'b', 'p']);
    reveal_strlit("lottie+json");
    assert("lottie+json"@ =~= seq!['l', 'o', 't', 't', 'i', 'e', '+', 'j', 's', 'o', 'n']);
    reveal_strlit("raw");
    assert("raw"@ =~= seq!['r', 'a', 'w']);
}

/// Whether `len` pixels hold a raw image of `w` by `h` pixels.
pub open spec fn raw_image_fits(len: usize, w: u32, h: u32) -> bool {
    w * h <= len
}

/// Checks that a raw pixel buffer of `len` pixels holds the `w * h`
/// pixels its declared size needs.
///
/// Rejects with `Error::InvalidArguments` a buffer shorter than `w * h`
/// pixels; the product is taken in 64 bits, so it cannot wrap.
pub fn check_raw_image(len: usize, w: u32, h: u32) -> (r: Result<(), Error>)
    ensures
        r is Ok <==> raw_image_fits(len, w, h),
        r is Ok <==> (w as int) * (h as int) <= len as int,
        r matches Err(e) ==> e == Error::InvalidArguments,
{
    let w64: u64 = w as u64;
    let h64: u64 = h as u64;
    assert(w64 * h64 <= 0xffff_ffff * 0xffff_ffff) by (nonlinear_arith)
        requires
            w64 <= 0xffff_ffff,
            h64 <= 0xffff_ffff,
    ;
    if (len as u64) < w64 * h64 {
        return Err(Error::InvalidArguments);
    }
    Ok(())
}

/// A raw image is accepted exactly when the buffer holds at least the
/// `w * h` pixels it needs; any longer buffer is accepted as well.
pub proof fn lemma_raw_image_meaning(len: usize, w: u32, h: u32)
    ensures
        raw_image_fits(len, w, h) <==> (w as int) * (h as int) <= len as int,
{
}

/// Acceptance only grows with the buffer length.
pub proof fn lemma_raw_image_monotone(short: usize, long: usize, w: u32, h: u32)
    requires
        raw_image_fits(short, w, h),
        short <= long,
    ensures
        raw_image_fits(long, w, h),
{
}

/// The loader names are the engine's fixed strings.
pub proof fn lemma_mime_name_values()
    ensures
        mime_name(MimeType::Svg) == "svg"@,
        mime_name(MimeType::Png) == "png"@,
        mime_name(MimeType::Jpg) == "jpg"@,
        mime_name(MimeType::Webp) == "webp"@,
        mime_name(MimeType::Lottie) == "lottie+json"@,
        mime_name(MimeType::Raw) == "raw"@,
{
}

/// Encoded picture data for the engine's loaders: the bytes, their
/// format, the base directory for external assets, and whether the engine
/// copies the bytes (`true`) or keeps borrowing them (`false`).
#[derive(Debug)]
pub struct PictureData<'a> {
    /// Encoded bytes.
    pub data: &'a [u8],
    /// Format selecting the loader.
    pub mime: MimeType,
    /// Base directory for external assets; `None` for self-contained data.
    pub resource_path: Option<CText>,
    /// Whether the engine copies `data`.
    pub copy: bool,
}

impl<'a> PictureData<'a> {
    /// Converts the arguments of a picture load from memory for the engine.
    ///
    /// Fails with `Error::InvalidArguments` when `resource_path` holds a
    /// NUL byte.
    pub fn prepare(data: &'a [u8], mime: MimeType, resource_path: Option<&str>, copy: bool) -> (r:
        Result<PictureData<'a>, Error>)
        ensures
            r is Ok <==> match resource_path {
                Some(p) => !p.spec_bytes().contains(0u8),
                None => true,
            },
            r matches Ok(d) ==> {
                &&& d.data@ == data@
                &&& d.mime == mime
                &&& d.copy == copy
                &&& match resource_path {
                    Some(p) => d.resource_path matches Some(c) && c@ == p.spec_bytes(),
                    None => d.resource_path is None,
                }
            },
            r matches Err(e) ==> e == Error::InvalidArguments,
    {
        let resource_path = match CText::new_optional(resource_path) {
            Ok(p) => p,
            Err(e) => return Err(e),
        };
        Ok(PictureData { data, mime, resource_path, copy })
    }
}

/// A raw pixel image for the engine: `width` by `height` pixels in
/// `colorspace`, copied by the engine when `copy` is set.
#[derive(Debug)]
pub struct RawImage<'a> {
    /// The pixels, row by row.
    pub pixels: &'a [u32],
    /// Width in pixels.
    pub width: u32,
    /// Height in pixels.
    pub height: u32,
    /// Pixel layout.
    pub colorspace: ColorSpace,
    /// Whether the engine copies `pixels`.
    pub copy: bool,
}

impl<'a> RawImage<'a> {
    /// Checks and bundles the arguments of a raw picture load.
    ///
    /// Fails with `Error::InvalidArguments` when `pixels` holds fewer than
    /// `width * height` pixels, so the engine never reads past the buffer.
    pub fn prepare(pixels: &'a [u32], width: u32, height: u32, colorspace: ColorSpace, copy: bool) -> (r:
        Result<RawImage<'a>, Error>)
        ensures
            r is Ok <==> raw_image_fits(pixels@.len() as usize, width, height),
            r is Ok <==> (width as int) * (height as int) <= pixels@.len(),
            r matches Ok(img) ==> {
                &&& img.pixels@ == pixels@
                &&& img.width == width
                &&& img.height == height
                &&& img.colorspace == colorspace
                &&& img.copy == copy
            },
            r matches Err(e) ==> e == Error::InvalidArguments,
    {
        match check_raw_image(pixels.len(), width, height) {
            Ok(()) => Ok(RawImage { pixels, width, height, colorspace, copy }),
            Err(e) => Err(e),
        }
    }
}

/// The engine's fixed `FilterMethod` codes, value by value.
pub proof fn lemma_filter_code_values()
    ensures
        filter_code(FilterMethod::Bilinear) == 0u32,
        filter_code(FilterMethod::Nearest) == 1u32,
{
}

} // verus!
