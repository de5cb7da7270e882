//! Canvas-side values: engine options, GPU target descriptions, the
//! checks made on a software target buffer, and the steps of a render pass.

use vstd::prelude::*;

use crate::color::ColorSpace;
use crate::error::Error;

verus! {

/// Engine rendering option, chosen per canvas at creation.
///
/// The engine compares the option by exact value, so the variants are
/// mutually exclusive. On the software canvas `NoOption` turns partial
/// (dirty-region) redraw off; `Default` and `SmartRender` leave it on.
/// The GPU canvases ignore the option. `Aliased` turns anti-aliasing off.
#[derive(Debug, Clone, Copy, PartialEq, Eq, Hash, Structural)]
#[non_exhaustive]
pub enum EngineOption {
    /// Disable all optional behaviour (the engine's `NONE`).
    NoOption,
    /// Default rendering mode.
    Default,
    /// Request partial (smart) rendering.
    SmartRender,
    /// Disable anti-aliased rendering.
    Aliased,
}

/// The engine's raw code for each `EngineOption` value.
pub open spec fn engine_option_code(v: EngineOption) -> u32 {
    match v {
        EngineOption::NoOption => 0,
        EngineOption::Default => 1,
        EngineOption::SmartRender => 2,
        EngineOption::Aliased => 4,
    }
}

impl EngineOption {
    /// The engine's `Tvg_Engine_Option` code.
    pub fn to_raw(self) -> (r: u32)
        ensures
            r == engine_option_code(self),
            self == EngineOption::NoOption ==> r == 0,
            self == EngineOption::Default ==> r == 1,
            self == EngineOption::SmartRender ==> r == 2,
            self == EngineOption::Aliased ==> r == 4,
    {
        match self {
            EngineOption::NoOption => 0,
            EngineOption::Default => 1,
            EngineOption::SmartRender => 2,
            EngineOption::Aliased => 4,
        }
    }
}

/// Distinct engine options have distinct raw codes, so the engine can tell them apart.
pub proof fn lemma_engine_option_code_injective(a: EngineOption, b: EngineOption)
    requires
        engine_option_code(a) == engine_option_code(b),
    ensures
        a == b,
{
}

/// What the presentable target of a WebGPU canvas is.
#[derive(Debug, Clone, Copy, PartialEq, Eq, Hash, Structural)]
#[non_exhaustive]
pub enum WgTargetType {
    /// A `WGPUSurface`.
    Surface,
    /// A `WGPUTexture`.
    Texture,
}

/// The engine's raw code for each `WgTargetType` value.
pub open spec fn wg_target_type_code(v: WgTargetType) -> i32 {
    match v {
        WgTargetType::Surface => 0,
        WgTargetType::Texture => 1,
    }
}

impl WgTargetType {
    /// The integer the engine takes for this target type.
    pub fn to_raw(self) -> (r: i32)
        ensures
            r == wg_target_type_code(self),
            self == WgTargetType::Surface ==> r == 0,
            self == WgTargetType::Texture ==> r == 1,
    {
        match self {
            WgTargetType::Surface => 0,
            WgTargetType::Texture => 1,
        }
    }
}

/// Distinct target types have distinct raw codes, so the engine can tell them apart.
pub proof fn lemma_wg_target_type_code_injective(a: WgTargetType, b: WgTargetType)
    requires
        wg_target_type_code(a) == wg_target_type_code(b),
    ensures
        a == b,
{
}

impl Default for EngineOption {
    /// `EngineOption::Default`.
    fn default() -> (o: EngineOption)
        ensures
            o == EngineOption::Default,
    {
        EngineOption::Default
    }
}

/// Parameters of an OpenGL canvas target.
///
/// The handle fields are opaque native handles (display, surface and
/// context), carried as addresses; the engine interprets them.
#[derive(Debug, Clone, Copy)]
pub struct GlTarget {
    /// Platform display handle (`EGLDisplay` for EGL, `0` otherwise).
    pub display: usize,
    /// Platform surface handle (`EGLSurface`, `HDC`, or `0`).
    pub surface: usize,
    /// OpenGL context handle.
    pub context: usize,
    /// Target framebuffer id; `0` selects the main surface.
    pub id: i32,
    /// Target width in pixels.
    pub width: u32,
    /// Target height in pixels.
    pub height: u32,
    /// Pixel format of the target.
    pub colorspace: ColorSpace,
}

impl GlTarget {
    /// Builds a `GlTarget` from its seven fields.
    pub fn new(
        display: usize,
        surface: usize,
        context: usize,
        id: i32,
        width: u32,
        height: u32,
        colorspace: ColorSpace,
    ) -> (t: GlTarget)
        ensures
            t.display == display,
            t.surface == surface,
            t.context == context,
            t.id == id,
            t.width == width,
            t.height == height,
            t.colorspace == colorspace,
    {
        GlTarget { display, surface, context, id, width, height, colorspace }
    }
}

/// Parameters of a WebGPU canvas target; handle fields are opaque native
/// handles carried as addresses.
#[derive(Debug, Clone, Copy)]
pub struct WgTarget {
    /// `WGPUDevice` handle, or `0` to let the engine choose one.
    pub device: usize,
    /// `WGPUInstance` handle.
    pub instance: usize,
    /// Presentable target, a surface or a texture as `target_type` says.
    pub target: usize,
    /// Target width in pixels.
    pub width: u32,
    /// Target height in pixels.
    pub height: u32,
    /// Pixel format of the target.
    pub colorspace: ColorSpace,
    /// Whether `target` is a surface or a texture.
    pub target_type: WgTargetType,
}

impl WgTarget {
    /// Builds a `WgTarget` from its seven fields.
    pub fn new(
        device: usize,
        instance: usize,
        target: usize,
        width: u32,
        height: u32,
        colorspace: ColorSpace,
        target_type: WgTargetType,
    ) -> (t: WgTarget)
        ensures
            t.device == device,
            t.instance == instance,
            t.target == target,
            t.width == width,
            t.height == height,
            t.colorspace == colorspace,
            t.target_type == target_type,
    {
        WgTarget { device, instance, target, width, height, colorspace, target_type }
    }
}

/// Whether a software target of `buffer_len` pixels can take a raster of
/// `width` by `height` pixels laid out `stride` pixels per row.
pub open spec fn sw_target_fits(buffer_len: usize, stride: u32, width: u32, height: u32) -> bool {
    width <= stride && stride * height <= buffer_len
}

/// Checks that a software target buffer of `buffer_len` pixels can take a
/// raster laid out `stride` pixels per row over `height` rows.
///
/// Rejects with `Error::InvalidArguments` a stride narrower than the row,
/// and a buffer shorter than `stride * height` pixels; the product is
/// taken in 64 bits, so it cannot wrap.
pub fn check_sw_target(buffer_len: usize, stride: u32, width: u32, height: u32) -> (r: Result<(), Error>)
    ensures
        r is Ok <==> sw_target_fits(buffer_len, stride, width, height),
        r is Ok <==> (width <= stride && (stride as int) * (height as int) <= buffer_len as int),
        r matches Err(e) ==> e == Error::InvalidArguments,
{
    if stride < width {
        return Err(Error::InvalidArguments);
    }
    let s: u64 = stride as u64;
    let h: u64 = height as u64;
    assert(s * h <= 0xffff_ffff * 0xffff_ffff) by (nonlinear_arith)
        requires
            s <= 0xffff_ffff,
            h <= 0xffff_ffff,
    ;
    let needed: u64 = s * h;
    if (buffer_len as u64) < needed {
        return Err(Error::InvalidArguments);
    }
    Ok(())
}

/// A software target is accepted exactly when each row fits in the stride
/// and the buffer holds at least `stride * height` pixels; any longer
/// buffer is accepted as well.
pub proof fn lemma_sw_target_meaning(buffer_len: usize, stride: u32, width: u32, height: u32)
    ensures
        sw_target_fits(buffer_len, stride, width, height)
            <==> (width <= stride && (stride as int) * (height as int) <= buffer_len as int),
{
}

/// Acceptance only grows with the buffer: a buffer accepted for a target
/// stays accepted when it is longer.
pub proof fn lemma_sw_target_monotone(short: usize, long: usize, stride: u32, width: u32, height: u32)
    requires
        sw_target_fits(short, stride, width, height),
        short <= long,
    ensures
        sw_target_fits(long, stride, width, height),
{
}

/// A stride narrower than the row is rejected whatever the buffer length.
pub proof fn lemma_sw_target_narrow_stride(buffer_len: usize, stride: u32, width: u32, height: u32)
    requires
        stride < width,
    ensures
        !sw_target_fits(buffer_len, stride, width, height),
{
}

/// Where a render pass stands: the next engine call to make, or the
/// pass's result once it is over.
#[derive(Debug, Clone, Copy)]
pub enum RenderStep {
    /// Update the modified paints.
    Update,
    /// Draw; `clear` is the flag of the draw call, which zeroes the
    /// target before drawing.
    Draw { clear: bool },
    /// Wait for the drawing to finish.
    Sync,
    /// The pass is over, with this result.
    Done(Result<(), Error>),
}

/// The step after `step`, given what its engine call returned.
pub open spec fn render_transition(step: RenderStep, outcome: Result<(), Error>) -> RenderStep {
    match step {
        RenderStep::Update => match outcome {
            Ok(()) => RenderStep::Draw { clear: true },
            Err(e) => RenderStep::Done(Err(e)),
        },
        RenderStep::Draw { .. } => match outcome {
            Ok(()) => RenderStep::Sync,
            Err(e) => RenderStep::Done(Err(e)),
        },
        RenderStep::Sync => RenderStep::Done(outcome),
        RenderStep::Done(r) => RenderStep::Done(r),
    }
}

impl RenderStep {
    /// The first step of a render pass: update, then draw with clearing,
    /// then sync.
    pub fn start() -> (s: RenderStep)
        ensures
            s == RenderStep::Update,
    {
        RenderStep::Update
    }

    /// Advances the pass with the result of the call the current step
    /// made; the first failing call ends the pass with its error.
    pub fn next(self, outcome: Result<(), Error>) -> (s: RenderStep)
        ensures
            s == render_transition(self, outcome),
    {
        match self {
            RenderStep::Update => match outcome {
                Ok(()) => RenderStep::Draw { clear: true },
                Err(e) => RenderStep::Done(Err(e)),
            },
            RenderStep::Draw { .. } => match outcome {
                Ok(()) => RenderStep::Sync,
                Err(e) => RenderStep::Done(Err(e)),
            },
            RenderStep::Sync => RenderStep::Done(outcome),
            RenderStep::Done(r) => RenderStep::Done(r),
        }
    }

    /// Whether the pass is over.
    pub fn is_done(self) -> (b: bool)
        ensures
            b == (self is Done),
    {
        match self {
            RenderStep::Done(_) => true,
            _ => false,
        }
    }
}

/// A render pass whose update, draw and sync calls return `u`, `d` and `s`
/// ends after those three calls, with the first error among them, or with
/// success when all three succeed.
pub proof fn lemma_render_first_error(u: Result<(), Error>, d: Result<(), Error>, s: Result<(), Error>)
    ensures
        render_transition(render_transition(render_transition(RenderStep::Update, u), d), s)
            == RenderStep::Done(
            match u {
                Err(e) => Err(e),
                Ok(()) => match d {
                    Err(e) => Err(e),
                    Ok(()) => s,
                },
            },
        ),
{
}

/// A render pass that updates successfully draws with clearing.
pub proof fn lemma_render_draw_clears(u: Result<(), Error>)
    requires
        u is Ok,
    ensures
        render_transition(RenderStep::Update, u) == (RenderStep::Draw { clear: true }),
{
}

/// Once a render pass is over, further results do not change it.
pub proof fn lemma_render_done_is_final(r: Result<(), Error>, outcome: Result<(), Error>)
    ensures
        render_transition(RenderStep::Done(r), outcome) == RenderStep::Done(r),
{
}

/// The engine's fixed `EngineOption` codes, value by value.
pub proof fn lemma_engine_option_code_values()
    ensures
        engine_option_code(EngineOption::NoOption) == 0u32,
        engine_option_code(EngineOption::Default) == 1u32,
        engine_option_code(EngineOption::SmartRender) == 2u32,
        engine_option_code(EngineOption::Aliased) == 4u32,
{
}

/// The engine's fixed `WgTargetType` codes, value by value.
pub proof fn lemma_wg_target_type_code_values()
    ensures
        wg_target_type_code(WgTargetType::Surface) == 0i32,
        wg_target_type_code(WgTargetType::Texture) == 1i32,
{
}

} // verus!
