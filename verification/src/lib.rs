//! Typed values for the ThorVG vector-graphics C interface: value enums
//! with their raw codes, NUL-terminated text, argument bundles with the
//! size and NUL checks made on them, the steps of a render pass, and the
//! typed path model with its raw command encoding.

pub mod canvas;
pub mod color;
pub mod ctext;
pub mod error;
pub mod font;
pub mod fuzz_input;
pub mod gradient;
pub mod paint;
pub mod path;
pub mod picture;
pub mod scene;
pub mod shape;
pub mod text;

pub use canvas::{check_sw_target, EngineOption, GlTarget, RenderStep, WgTarget, WgTargetType};
pub use color::{ColorSpace, Rgb, Rgba};
pub use ctext::CText;
pub use error::Error;
pub use font::FontData;
pub use gradient::FillSpread;
pub use paint::{BlendMethod, MaskMethod, PaintType};
pub use path::{Path, PathCommand, Segment};
pub use picture::{check_raw_image, FilterMethod, MimeType, PictureData, RawImage};
pub use scene::{BlurBorder, BlurDirection, Tritone};
pub use shape::{FillRule, PaintOrder, StrokeCap, StrokeJoin};
pub use text::TextWrap;
