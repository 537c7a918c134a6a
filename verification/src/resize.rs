//! Reusable aspect-ratio-preserving RGBA resize plans and workspaces.

use fast_image_resize::images::Image;
use fast_image_resize::{FilterType, PixelType, ResizeAlg, Resizer};
use vstd::prelude::*;
use vstd::slice::slice_to_vec;

use crate::model::{AnimationFrame, CanvasSize};
use crate::text::{self, push_decimal};

verus! {

/// Resampling filter used by a [`ResizePlan`].
#[derive(Clone, Copy, Debug, PartialEq, Eq, Structural)]
pub enum ResizeFilter {
    /// Blend nearby source pixels. Fast and smooth.
    Bilinear,
    /// A sharper bicubic filter with a small risk of haloing around hard edges.
    CatmullRom,
    /// A high-detail sinc filter. Best for visual comparison, but slowest and
    /// can ring around very high-contrast edges.
    Lanczos3,
}

impl Default for ResizeFilter {
    fn default() -> (filter: Self)
        ensures
            filter == ResizeFilter::Bilinear,
    {
        ResizeFilter::Bilinear
    }
}

/// Constraints used to derive a full-canvas resize operation.
///
/// The resulting canvas always fits within `maximum` and retains the source
/// aspect ratio. A plan never adds padding or crops pixels.
#[derive(Clone, Copy, Debug, PartialEq, Eq, Structural)]
pub struct ResizeOptions {
    /// Maximum destination canvas dimensions.
    pub maximum: CanvasSize,
    /// Whether a source smaller than `maximum` may be enlarged.
    pub allow_upscale: bool,
    /// Resampling filter used by the resize operation.
    pub filter: ResizeFilter,
    /// Upper bound for the transformed RGBA buffer.
    pub max_output_rgba_bytes: usize,
}

impl ResizeOptions {
    /// Creates a contain-style resize with no upscaling and bilinear filtering.
    pub fn contain(maximum: CanvasSize) -> (options: Self)
        ensures
            options == (ResizeOptions {
                maximum,
                allow_upscale: false,
                filter: ResizeFilter::Bilinear,
                max_output_rgba_bytes: usize::MAX,
            }),
    {
        ResizeOptions {
            maximum,
            allow_upscale: false,
            filter: ResizeFilter::Bilinear,
            max_output_rgba_bytes: usize::MAX,
        }
    }
}

/// Failure to create or apply a [`ResizePlan`].
#[derive(Clone, Debug, PartialEq, Eq)]
pub enum ResizeError {
    /// A source or maximum canvas has a zero dimension.
    InvalidCanvasSize {
        /// Which input was invalid.
        which: &'static str,
        /// Invalid dimensions.
        size: CanvasSize,
    },
    /// The source RGBA byte count overflowed the host address space.
    SourceSizeOverflow,
    /// The destination RGBA byte count overflowed the host address space.
    OutputSizeOverflow,
    /// The destination exceeds `ResizeOptions::max_output_rgba_bytes`.
    OutputTooLarge {
        /// Actual destination buffer size in bytes.
        actual: usize,
        /// Configured maximum destination buffer size in bytes.
        maximum: usize,
    },
    /// The source buffer length does not match the plan's source canvas.
    InvalidSourceBufferLength {
        /// Actual source buffer size in bytes.
        actual: usize,
        /// Required source buffer size in bytes.
        expected: usize,
    },
    /// A frame's canvas does not match the plan's source canvas.
    UnexpectedFrameCanvas {
        /// Canvas received from the caller.
        actual: CanvasSize,
        /// Canvas required by the plan.
        expected: CanvasSize,
    },
    /// The underlying RGBA resizer rejected the operation.
    ImageResize(String),
}

impl ResizeError {
    /// The message that [`Self::message`] gives.
    pub open spec fn text(self) -> Seq<char> {
        match self {
            ResizeError::InvalidCanvasSize { which, size } => which@
                + " canvas has invalid dimensions "@ + text::decimal(size.width as nat) + "x"@
                + text::decimal(size.height as nat),
            ResizeError::SourceSizeOverflow => "source RGBA size overflows the host address space"@,
            ResizeError::OutputSizeOverflow => "output RGBA size overflows the host address space"@,
            ResizeError::OutputTooLarge { actual, maximum } => "output is "@
                + text::decimal(actual as nat) + " bytes, exceeding the "@
                + text::decimal(maximum as nat) + "-byte limit"@,
            ResizeError::InvalidSourceBufferLength { actual, expected } => "source buffer is "@
                + text::decimal(actual as nat) + " bytes; expected "@
                + text::decimal(expected as nat),
            ResizeError::UnexpectedFrameCanvas { actual, expected } => "frame canvas "@
                + text::decimal(actual.width as nat) + "x"@ + text::decimal(actual.height as nat)
                + " does not match plan source "@ + text::decimal(expected.width as nat) + "x"@
                + text::decimal(expected.height as nat),
            ResizeError::ImageResize(message) => "RGBA resize failed: "@ + message@,
        }
    }

    /// Describes the failure in a sentence fragment.
    pub fn message(&self) -> (message: String)
        ensures
            message@ == self.text(),
    {
        match self {
            ResizeError::InvalidCanvasSize { which, size } => {
                let mut out = String::from_str(which);
                out.append(" canvas has invalid dimensions ");
                push_decimal(&mut out, size.width as u64);
                out.append("x");
                push_decimal(&mut out, size.height as u64);
                out
            },
            ResizeError::SourceSizeOverflow => String::from_str(
                "source RGBA size overflows the host address space",
            ),
            ResizeError::OutputSizeOverflow => String::from_str(
                "output RGBA size overflows the host address space",
            ),
            ResizeError::OutputTooLarge { actual, maximum } => {
                let mut out = String::from_str("output is ");
                push_decimal(&mut out, *actual as u64);
                out.append(" bytes, exceeding the ");
                push_decimal(&mut out, *maximum as u64);
                out.append("-byte limit");
                out
            },
            ResizeError::InvalidSourceBufferLength { actual, expected } => {
                let mut out = String::from_str("source buffer is ");
                push_decimal(&mut out, *actual as u64);
                out.append(" bytes; expected ");
                push_decimal(&mut out, *expected as u64);
                out
            },
            ResizeError::UnexpectedFrameCanvas { actual, expected } => {
                let mut out = String::from_str("frame canvas ");
                push_decimal(&mut out, actual.width as u64);
                out.append("x");
                push_decimal(&mut out, actual.height as u64);
                out.append(" does not match plan source ");
                push_decimal(&mut out, expected.width as u64);
                out.append("x");
                push_decimal(&mut out, expected.height as u64);
                out
            },
            ResizeError::ImageResize(message) => {
                let mut out = String::from_str("RGBA resize failed: ");
                out.append(message.as_str());
                out
            },
        }
    }
}

/// Whether `result` is what a convolution of `source` with `filter` may leave
/// in a destination of `width` by `height` RGBA8 pixels, where `use_alpha` says
/// that colours are weighted by their opacity.
///
/// This is a relation, and more than one result may qualify. The Lanczos kernel
/// evaluates a sine whose precision the platform decides. Under every filter the
/// vector path for ARM reads a single pixel in the machine's byte order, so that
/// a big-endian machine mixes other channels than the portable path does.
pub uninterp spec fn is_resampling(
    source: Seq<u8>,
    source_width: u32,
    source_height: u32,
    width: u32,
    height: u32,
    filter: ResizeFilter,
    use_alpha: bool,
    result: Seq<u8>,
) -> bool;

/// State of the pixel resizer: scratch buffers and the chosen instruction set.
#[verifier::external_type_specification]
#[verifier::external_body]
pub struct ExResizer(Resizer);

/// Creates a resizer with [`Resizer::new`]. Nothing is claimed of its state.
#[verifier::external_body]
fn new_resizer() -> (resizer: Resizer)
{
    Resizer::new()
}

/// Resamples `source` into `destination` with [`Resizer::resize`], reading
/// both through [`Image::from_slice_u8`] as rows of RGBA8 pixels.
///
/// Claimed: where both buffers have the length that their dimensions ask for,
/// the views are accepted and the resize succeeds; the source is only read; the
/// destination keeps its length and holds a resampling of the source under the
/// given filter and use of alpha. Which resampling is left open, as
/// [`is_resampling`] says.
///
/// The intermediate image is as wide as the source and as high as the
/// destination. Asking that one canvas fits in the other keeps it no larger
/// than the larger of the two.
#[verifier::external_body]
fn resample(
    resizer: &mut Resizer,
    from: CanvasSize,
    source: &mut [u8],
    to: CanvasSize,
    destination: &mut Vec<u8>,
    filter: ResizeFilter,
    use_alpha: bool,
) -> (result: Result<(), String>)
    requires
        from.non_empty(),
        to.non_empty(),
        from.fits_in(to) || to.fits_in(from),
        old(source)@.len() == from.rgba_len(),
        old(destination)@.len() == to.rgba_len(),
    ensures
        result is Ok,
        final(source)@ == old(source)@,
        final(destination)@.len() == old(destination)@.len(),
        is_resampling(
            old(source)@,
            from.width,
            from.height,
            to.width,
            to.height,
            filter,
            use_alpha,
            final(destination)@,
        ),
{
    let source = Image::from_slice_u8(from.width, from.height, source, PixelType::U8x4)
        .map_err(|error| error.to_string())?;
    let mut destination = Image::from_slice_u8(to.width, to.height, destination, PixelType::U8x4)
        .map_err(|error| error.to_string())?;
    let filter = match filter {
        ResizeFilter::Bilinear => FilterType::Bilinear,
        ResizeFilter::CatmullRom => FilterType::CatmullRom,
        ResizeFilter::Lanczos3 => FilterType::Lanczos3,
    };
    let options = fast_image_resize::ResizeOptions::new().resize_alg(ResizeAlg::Convolution(filter))
        .use_alpha(use_alpha);
    resizer.resize(&source, &mut destination, &options).map_err(|error| error.to_string())
}

/// The width, not the height, of `maximum` limits how far `source` can grow.
pub open spec fn width_limited(source: CanvasSize, maximum: CanvasSize) -> bool {
    maximum.width as nat * source.height as nat <= maximum.height as nat * source.width as nat
}

/// Numerator of the scale that makes `source` just fit in `maximum`.
pub open spec fn scale_numerator(source: CanvasSize, maximum: CanvasSize) -> nat {
    if width_limited(source, maximum) {
        maximum.width as nat
    } else {
        maximum.height as nat
    }
}

/// Denominator of the scale that makes `source` just fit in `maximum`.
pub open spec fn scale_denominator(source: CanvasSize, maximum: CanvasSize) -> nat {
    if width_limited(source, maximum) {
        source.width as nat
    } else {
        source.height as nat
    }
}

/// A length scaled by a fraction, rounded down, but never to nothing.
pub open spec fn scaled_length(length: nat, numerator: nat, denominator: nat) -> nat {
    if length * numerator / denominator < 1 {
        1
    } else {
        length * numerator / denominator
    }
}

/// The canvas that `source` is resized to under `maximum`.
pub open spec fn contained_size(
    source: CanvasSize,
    maximum: CanvasSize,
    allow_upscale: bool,
) -> CanvasSize {
    let numerator = scale_numerator(source, maximum);
    let denominator = scale_denominator(source, maximum);
    if !allow_upscale && numerator >= denominator {
        source
    } else {
        CanvasSize {
            width: scaled_length(source.width as nat, numerator, denominator) as u32,
            height: scaled_length(source.height as nat, numerator, denominator) as u32,
        }
    }
}

/// Scaling the limited dimension gives exactly the maximum, and scaling the
/// other one stays below its maximum.
pub proof fn lemma_scaled_dimensions(limited: nat, limit: nat, other: nat, other_limit: nat)
    requires
        limited > 0,
        limit > 0,
        other > 0,
        other_limit > 0,
        limit * other <= other_limit * limited,
    ensures
        scaled_length(limited, limit, limited) == limit,
        1 <= scaled_length(other, limit, limited) <= other_limit,
        scaled_length(other, limit, limited) == 1 || scaled_length(other, limit, limited) * limited
            <= other * limit,
        other * limit < (scaled_length(other, limit, limited) + 1) * limited,
{
    assert(limited * limit / limited == limit) by (nonlinear_arith)
        requires
            limited > 0,
    ;
    let quotient = other * limit / limited;
    assert(quotient * limited <= other * limit < (quotient + 1) * limited) by (nonlinear_arith)
        requires
            limited > 0,
            quotient == other * limit / limited,
    ;
    assert(quotient <= other_limit) by (nonlinear_arith)
        requires
            limited > 0,
            quotient * limited <= other * limit,
            limit * other <= other_limit * limited,
    ;
    if quotient < 1 {
        assert((0 + 1) * limited <= (1 + 1) * limited) by (nonlinear_arith);
    }
}

/// Facts about the two scaled dimensions, whichever of them is limited.
pub proof fn lemma_scaled_canvas(source: CanvasSize, maximum: CanvasSize)
    requires
        source.non_empty(),
        maximum.non_empty(),
    ensures
        ({
            let numerator = scale_numerator(source, maximum);
            let denominator = scale_denominator(source, maximum);
            let width = scaled_length(source.width as nat, numerator, denominator);
            let height = scaled_length(source.height as nat, numerator, denominator);
            &&& 1 <= width <= maximum.width
            &&& 1 <= height <= maximum.height
            &&& width_limited(source, maximum) ==> width == maximum.width
            &&& !width_limited(source, maximum) ==> height == maximum.height
        }),
{
    if width_limited(source, maximum) {
        lemma_scaled_dimensions(
            source.width as nat,
            maximum.width as nat,
            source.height as nat,
            maximum.height as nat,
        );
    } else {
        assert(maximum.height as nat * source.width as nat <= maximum.width as nat
            * source.height as nat);
        lemma_scaled_dimensions(
            source.height as nat,
            maximum.height as nat,
            source.width as nat,
            maximum.width as nat,
        );
    }
}

/// Rejects a canvas with a zero dimension.
pub fn validate_size(which: &'static str, size: CanvasSize) -> (result: Result<(), ResizeError>)
    ensures
        result == if size.non_empty() {
            Ok(())
        } else {
            Err(ResizeError::InvalidCanvasSize { which, size })
        },
{
    if size.width == 0 || size.height == 0 {
        return Err(ResizeError::InvalidCanvasSize { which, size });
    }
    Ok(())
}

/// Derives the canvas that `source` is resized to under `maximum`.
pub fn destination_size(
    source: CanvasSize,
    maximum: CanvasSize,
    allow_upscale: bool,
) -> (destination: CanvasSize)
    requires
        source.non_empty(),
        maximum.non_empty(),
    ensures
        destination == contained_size(source, maximum, allow_upscale),
{
    proof {
        lemma_product_fits_u64(maximum.width, source.height);
        lemma_product_fits_u64(maximum.height, source.width);
        lemma_scaled_canvas(source, maximum);
    }
    let width_limited: bool = maximum.width as u64 * source.height as u64 <= maximum.height as u64
        * source.width as u64;
    let numerator: u32 = if width_limited {
        maximum.width
    } else {
        maximum.height
    };
    let denominator: u32 = if width_limited {
        source.width
    } else {
        source.height
    };
    if !allow_upscale && numerator >= denominator {
        return source;
    }
    proof {
        lemma_product_fits_u64(source.width, numerator);
        lemma_product_fits_u64(source.height, numerator);
    }
    let width: u64 = source.width as u64 * numerator as u64 / denominator as u64;
    let height: u64 = source.height as u64 * numerator as u64 / denominator as u64;
    CanvasSize {
        width: if width < 1 {
            1
        } else {
            width as u32
        },
        height: if height < 1 {
            1
        } else {
            height as u32
        },
    }
}

/// The product of two 32-bit numbers fits in 64 bits.
proof fn lemma_product_fits_u64(a: u32, b: u32)
    ensures
        0 <= a as nat * b as nat <= u64::MAX,
{
    let (x, y) = (a as int, b as int);
    assert(0 <= x * y <= 0xffff_ffff * 0xffff_ffff) by (nonlinear_arith)
        requires
            0 <= x <= 0xffff_ffff,
            0 <= y <= 0xffff_ffff,
    ;
}

/// Some pixel of an RGBA8 buffer is not fully opaque.
pub open spec fn has_transparency(rgba: Seq<u8>) -> bool {
    exists|pixel: int| 0 <= pixel < rgba.len() / 4 && #[trigger] rgba[4 * pixel + 3] != 255
}

/// Looks for a pixel that is not fully opaque.
fn any_transparent_pixel(rgba: &[u8]) -> (found: bool)
    ensures
        found == has_transparency(rgba@),
{
    let length: usize = rgba.len();
    let pixels: usize = length / 4;
    let mut pixel: usize = 0;
    while pixel < pixels
        invariant
            pixel <= pixels,
            pixels == length / 4,
            length == rgba@.len(),
            forall|earlier: int|
                0 <= earlier < pixel ==> #[trigger] rgba@[4 * earlier + 3] == 255,
        decreases pixels - pixel,
    {
        if rgba[4 * pixel + 3] != 255 {
            assert(rgba@[4 * (pixel as int) + 3] != 255);
            return true;
        }
        pixel += 1;
    }
    false
}

/// A validated, reusable full-canvas RGBA resize operation.
///
/// Build one plan per source canvas, then apply it to each composited frame of
/// an animation. [`Self::transform_frame`] preserves the frame duration.
#[derive(Clone, Copy, Debug, PartialEq, Eq, Structural)]
pub struct ResizePlan {
    source: CanvasSize,
    destination: CanvasSize,
    filter: ResizeFilter,
}

/// What [`ResizePlan::new`] decides, short of the plan itself: the destination
/// canvas, or the reason to refuse.
pub open spec fn planned_destination(
    source: CanvasSize,
    options: ResizeOptions,
) -> Result<CanvasSize, ResizeError> {
    let destination = contained_size(source, options.maximum, options.allow_upscale);
    if !source.non_empty() {
        Err(ResizeError::InvalidCanvasSize { which: "source", size: source })
    } else if !options.maximum.non_empty() {
        Err(ResizeError::InvalidCanvasSize { which: "maximum", size: options.maximum })
    } else if destination.rgba_len() > usize::MAX {
        Err(ResizeError::OutputSizeOverflow)
    } else if destination.rgba_len() > options.max_output_rgba_bytes {
        Err(
            ResizeError::OutputTooLarge {
                actual: destination.rgba_len() as usize,
                maximum: options.max_output_rgba_bytes,
            },
        )
    } else {
        Ok(destination)
    }
}

impl ResizePlan {
    #[verifier::type_invariant]
    spec fn resizable(self) -> bool {
        &&& self.source.non_empty()
        &&& self.destination.non_empty()
        &&& self.source.fits_in(self.destination) || self.destination.fits_in(self.source)
        &&& self.destination.rgba_len() <= usize::MAX
    }

    /// The source canvas expected by this plan.
    pub closed spec fn spec_source(self) -> CanvasSize {
        self.source
    }

    /// The destination canvas produced by this plan.
    pub closed spec fn spec_destination(self) -> CanvasSize {
        self.destination
    }

    /// The resampling filter applied by this plan.
    pub closed spec fn spec_filter(self) -> ResizeFilter {
        self.filter
    }

    /// The reason to refuse a source buffer of `length` bytes, if there is one.
    pub open spec fn source_fault(self, length: nat) -> Option<ResizeError> {
        let expected = self.spec_source().rgba_len();
        if expected > usize::MAX {
            Some(ResizeError::SourceSizeOverflow)
        } else if length != expected {
            Some(
                ResizeError::InvalidSourceBufferLength {
                    actual: length as usize,
                    expected: expected as usize,
                },
            )
        } else {
            None
        }
    }

    /// `result` is what this plan makes of `source`: the pixels themselves
    /// where the canvas does not change, else a resampling that takes alpha
    /// into account where there is any.
    pub open spec fn transforms(self, source: Seq<u8>, result: Seq<u8>) -> bool {
        &&& result.len() == self.spec_destination().rgba_len()
        &&& if self.spec_source() == self.spec_destination() {
            result == source
        } else {
            is_resampling(
                source,
                self.spec_source().width,
                self.spec_source().height,
                self.spec_destination().width,
                self.spec_destination().height,
                self.spec_filter(),
                has_transparency(source),
                result,
            )
        }
    }

    /// Validates resize options and derives the destination canvas.
    ///
    /// The destination preserves the source aspect ratio, fits within the
    /// configured maximum, and never crops or pads pixels.
    pub fn new(source: CanvasSize, options: ResizeOptions) -> (result: Result<Self, ResizeError>)
        ensures
            match planned_destination(source, options) {
                Ok(destination) => result matches Ok(plan) && {
                    &&& plan.spec_source() == source
                    &&& plan.spec_destination() == destination
                    &&& plan.spec_filter() == options.filter
                },
                Err(error) => result == Err::<Self, ResizeError>(error),
            },
    {
        if let Err(error) = validate_size("source", source) {
            return Err(error);
        }
        if let Err(error) = validate_size("maximum", options.maximum) {
            return Err(error);
        }
        let destination = destination_size(source, options.maximum, options.allow_upscale);
        let output_bytes: usize = match destination.rgba_bytes() {
            Some(bytes) => bytes,
            None => return Err(ResizeError::OutputSizeOverflow),
        };
        if output_bytes > options.max_output_rgba_bytes {
            return Err(
                ResizeError::OutputTooLarge {
                    actual: output_bytes,
                    maximum: options.max_output_rgba_bytes,
                },
            );
        }
        proof {
            law_destination_fits_maximum(source, options.maximum, options.allow_upscale);
            lemma_scaled_in_one_direction(source, options.maximum, options.allow_upscale);
        }
        Ok(ResizePlan { source, destination, filter: options.filter })
    }

    /// Returns the source canvas expected by this plan.
    pub fn source(&self) -> (canvas: CanvasSize)
        ensures
            canvas == self.spec_source(),
            canvas.non_empty(),
    {
        proof {
            use_type_invariant(*self);
        }
        self.source
    }

    /// Returns the destination canvas produced by this plan.
    pub fn destination(&self) -> (canvas: CanvasSize)
        ensures
            canvas == self.spec_destination(),
            canvas.non_empty(),
            canvas.rgba_len() <= usize::MAX,
    {
        proof {
            use_type_invariant(*self);
        }
        self.destination
    }

    /// Returns whether the plan preserves the source dimensions.
    pub fn is_noop(&self) -> (noop: bool)
        ensures
            noop == (self.spec_source() == self.spec_destination()),
    {
        self.source.width == self.destination.width && self.source.height
            == self.destination.height
    }

    /// One-shot convenience API for one complete, tightly packed RGBA canvas.
    ///
    /// It allocates a workspace and output buffer for this call. For sequential
    /// animation frames, create one [`ResizeWorkspace`] with [`Self::workspace`]
    /// and reuse it instead.
    pub fn transform_rgba(&self, source_rgba: &[u8]) -> (result: Result<Vec<u8>, ResizeError>)
        ensures
            match self.source_fault(source_rgba@.len()) {
                Some(error) => result == Err::<Vec<u8>, ResizeError>(error),
                None => result matches Ok(pixels) && self.transforms(source_rgba@, pixels@),
            },
    {
        let mut source = slice_to_vec(source_rgba);
        let mut workspace = match self.workspace() {
            Ok(workspace) => workspace,
            Err(error) => return Err(error),
        };
        if let Err(error) = workspace.transform_rgba(source.as_mut_slice()) {
            return Err(error);
        }
        Ok(slice_to_vec(workspace.pixels()))
    }

    /// Creates reusable resize state for sequential animation frames.
    ///
    /// Reuse this workspace for the full animation to retain its resizer and
    /// destination buffer between frames.
    pub fn workspace(&self) -> (result: Result<ResizeWorkspace, ResizeError>)
        ensures
            result matches Ok(workspace) && {
                &&& workspace.wf()
                &&& workspace.spec_plan() == *self
                &&& workspace.spec_pixels() == Seq::new(
                    self.spec_destination().rgba_len(),
                    |i: int| 0u8,
                )
            },
    {
        proof {
            use_type_invariant(*self);
        }
        let destination_bytes: usize = match self.destination.rgba_bytes() {
            Some(bytes) => bytes,
            None => return Err(ResizeError::OutputSizeOverflow),
        };
        let destination: Vec<u8> = vec![0; destination_bytes];
        assert(destination@ =~= Seq::new(self.spec_destination().rgba_len(), |i: int| 0u8));
        Ok(ResizeWorkspace { plan: *self, resizer: new_resizer(), destination })
    }

    /// One-shot convenience API that transforms a decoded frame and preserves
    /// its duration.
    ///
    /// It allocates for every call. For animation processing, prefer a reused
    /// [`ResizeWorkspace`] and construct the output frame at the call site.
    pub fn transform_frame(&self, frame: AnimationFrame) -> (result: Result<
        AnimationFrame,
        ResizeError,
    >)
        ensures
            if frame.canvas != self.spec_source() {
                result == Err::<AnimationFrame, ResizeError>(
                    ResizeError::UnexpectedFrameCanvas {
                        actual: frame.canvas,
                        expected: self.spec_source(),
                    },
                )
            } else {
                match self.source_fault(frame.rgba@.len()) {
                    Some(error) => result == Err::<AnimationFrame, ResizeError>(error),
                    None => result matches Ok(resized) && {
                        &&& self.transforms(frame.rgba@, resized.rgba@)
                        &&& resized.canvas == self.spec_destination()
                        &&& resized.duration == frame.duration
                    },
                }
            },
    {
        if frame.canvas.width != self.source.width || frame.canvas.height != self.source.height {
            return Err(
                ResizeError::UnexpectedFrameCanvas { actual: frame.canvas, expected: self.source },
            );
        }
        match self.transform_rgba(frame.rgba.as_slice()) {
            Ok(rgba) => Ok(
                AnimationFrame { rgba, canvas: self.destination, duration: frame.duration },
            ),
            Err(error) => Err(error),
        }
    }
}

/// Reusable RGBA resize buffers and processor for sequential animation frames.
///
/// The workspace owns its destination buffer. [`Self::pixels`] remains valid
/// until the next successful resize or until the workspace is dropped.
pub struct ResizeWorkspace {
    plan: ResizePlan,
    resizer: Resizer,
    destination: Vec<u8>,
}

impl ResizeWorkspace {
    /// The plan that this workspace applies.
    pub closed spec fn spec_plan(self) -> ResizePlan {
        self.plan
    }

    /// The pixels left by the most recent successful resize.
    pub closed spec fn spec_pixels(self) -> Seq<u8> {
        self.destination@
    }

    /// The destination buffer holds exactly one destination canvas.
    pub open spec fn wf(self) -> bool {
        self.spec_pixels().len() == self.spec_plan().spec_destination().rgba_len()
    }

    /// Resizes a full-canvas RGBA source into this workspace's reusable
    /// destination buffer.
    ///
    /// The source is only read, but the resizer wants a mutable buffer for
    /// every image view. The destination allocation and resizer are retained
    /// for the next frame. A refused source leaves the workspace unchanged.
    pub fn transform_rgba(&mut self, source_rgba: &mut [u8]) -> (result: Result<(), ResizeError>)
        requires
            old(self).wf(),
        ensures
            final(self).wf(),
            final(self).spec_plan() == old(self).spec_plan(),
            final(source_rgba)@ == old(source_rgba)@,
            match old(self).spec_plan().source_fault(old(source_rgba)@.len()) {
                Some(error) => {
                    &&& result == Err::<(), ResizeError>(error)
                    &&& final(self).spec_pixels() == old(self).spec_pixels()
                },
                None => {
                    &&& result is Ok
                    &&& old(self).spec_plan().transforms(
                        old(source_rgba)@,
                        final(self).spec_pixels(),
                    )
                },
            },
    {
        proof {
            use_type_invariant(self.plan);
        }
        let expected: usize = match self.plan.source.rgba_bytes() {
            Some(bytes) => bytes,
            None => return Err(ResizeError::SourceSizeOverflow),
        };
        if source_rgba.len() != expected {
            return Err(
                ResizeError::InvalidSourceBufferLength { actual: source_rgba.len(), expected },
            );
        }
        if self.plan.is_noop() {
            self.destination.clear();
            self.destination.extend_from_slice(source_rgba);
            assert(self.destination@ =~= source_rgba@);
            return Ok(());
        }
        let use_alpha: bool = any_transparent_pixel(source_rgba);
        match resample(
            &mut self.resizer,
            self.plan.source,
            source_rgba,
            self.plan.destination,
            &mut self.destination,
            self.plan.filter,
            use_alpha,
        ) {
            Ok(()) => Ok(()),
            Err(message) => Err(ResizeError::ImageResize(message)),
        }
    }

    /// Returns the destination pixels from the most recent successful resize.
    ///
    /// The next successful [`Self::transform_rgba`] call overwrites this buffer.
    pub fn pixels(&self) -> (pixels: &[u8])
        ensures
            pixels@ == self.spec_pixels(),
    {
        self.destination.as_slice()
    }
}

/// The destination of a resize fits within the configured maximum and has no
/// zero dimension.
pub proof fn law_destination_fits_maximum(
    source: CanvasSize,
    maximum: CanvasSize,
    allow_upscale: bool,
)
    requires
        source.non_empty(),
        maximum.non_empty(),
    ensures
        contained_size(source, maximum, allow_upscale).fits_in(maximum),
        contained_size(source, maximum, allow_upscale).non_empty(),
{
    lemma_scaled_canvas(source, maximum);
    lemma_fits_iff_scale_at_least_one(source, maximum);
}

/// The scale that makes `source` just fit is at least one exactly where
/// `source` already fits.
pub proof fn lemma_fits_iff_scale_at_least_one(source: CanvasSize, maximum: CanvasSize)
    requires
        source.non_empty(),
        maximum.non_empty(),
    ensures
        source.fits_in(maximum) <==> scale_numerator(source, maximum) >= scale_denominator(
            source,
            maximum,
        ),
{
    let (sw, sh) = (source.width as int, source.height as int);
    let (mw, mh) = (maximum.width as int, maximum.height as int);
    if width_limited(source, maximum) {
        assert(mw >= sw ==> sh <= mh) by (nonlinear_arith)
            requires
                mw * sh <= mh * sw,
                sw > 0,
                sh > 0,
                mh > 0,
        ;
    } else {
        assert(mh >= sh ==> sw <= mw) by (nonlinear_arith)
            requires
                mh * sw <= mw * sh,
                sw > 0,
                sh > 0,
                mw > 0,
        ;
    }
}

/// Without upscaling a source that fits is kept as it is, and only such a
/// source is.
pub proof fn law_kept_iff_it_fits(source: CanvasSize, maximum: CanvasSize)
    requires
        source.non_empty(),
        maximum.non_empty(),
    ensures
        contained_size(source, maximum, false) == source <==> source.fits_in(maximum),
{
    lemma_fits_iff_scale_at_least_one(source, maximum);
    law_destination_fits_maximum(source, maximum, false);
}

/// Without upscaling no dimension grows.
pub proof fn law_never_enlarged_without_upscaling(source: CanvasSize, maximum: CanvasSize)
    requires
        source.non_empty(),
        maximum.non_empty(),
    ensures
        contained_size(source, maximum, false).fits_in(source),
{
    let numerator = scale_numerator(source, maximum);
    let denominator = scale_denominator(source, maximum);
    if numerator < denominator {
        lemma_scaled_canvas(source, maximum);
        lemma_shrunk_length(source.width as nat, numerator, denominator);
        lemma_shrunk_length(source.height as nat, numerator, denominator);
    }
}

/// A length scaled by a fraction below one does not grow.
proof fn lemma_shrunk_length(length: nat, numerator: nat, denominator: nat)
    requires
        length > 0,
        numerator <= denominator,
        denominator > 0,
    ensures
        scaled_length(length, numerator, denominator) <= length,
{
    assert(length * numerator / denominator <= length) by (nonlinear_arith)
        requires
            0 <= numerator <= denominator,
            denominator > 0,
            length > 0,
    ;
}

/// A length scaled by a fraction above one does not shrink.
proof fn lemma_grown_length(length: nat, numerator: nat, denominator: nat)
    requires
        length > 0,
        numerator >= denominator,
        denominator > 0,
    ensures
        scaled_length(length, numerator, denominator) >= length,
{
    assert(length * numerator / denominator >= length) by (nonlinear_arith)
        requires
            numerator >= denominator,
            denominator > 0,
            length > 0,
    ;
}

/// A resize scales both dimensions the same way: neither shrinks while the
/// other grows.
proof fn lemma_scaled_in_one_direction(
    source: CanvasSize,
    maximum: CanvasSize,
    allow_upscale: bool,
)
    requires
        source.non_empty(),
        maximum.non_empty(),
    ensures
        ({
            let destination = contained_size(source, maximum, allow_upscale);
            destination.fits_in(source) || source.fits_in(destination)
        }),
{
    let numerator = scale_numerator(source, maximum);
    let denominator = scale_denominator(source, maximum);
    lemma_scaled_canvas(source, maximum);
    if numerator <= denominator {
        lemma_shrunk_length(source.width as nat, numerator, denominator);
        lemma_shrunk_length(source.height as nat, numerator, denominator);
    } else {
        lemma_grown_length(source.width as nat, numerator, denominator);
        lemma_grown_length(source.height as nat, numerator, denominator);
    }
}

/// `length` is what the proportion `reference : source_reference` makes of
/// `source_length`, rounded down to a whole pixel, and at least one pixel.
pub open spec fn in_proportion(
    length: int,
    source_length: int,
    reference: int,
    source_reference: int,
) -> bool {
    &&& length >= 1
    &&& length == 1 || length * source_reference <= source_length * reference
    &&& source_length * reference < (length + 1) * source_reference
}

/// The destination retains the source aspect ratio: one dimension is in
/// proportion to the other, up to the pixel that rounding costs.
pub proof fn law_aspect_ratio_retained(
    source: CanvasSize,
    maximum: CanvasSize,
    allow_upscale: bool,
)
    requires
        source.non_empty(),
        maximum.non_empty(),
    ensures
        ({
            let destination = contained_size(source, maximum, allow_upscale);
            ||| in_proportion(
                destination.height as int,
                source.height as int,
                destination.width as int,
                source.width as int,
            )
            ||| in_proportion(
                destination.width as int,
                source.width as int,
                destination.height as int,
                source.height as int,
            )
        }),
{
    let (sw, sh) = (source.width as nat, source.height as nat);
    let (mw, mh) = (maximum.width as nat, maximum.height as nat);
    let numerator = scale_numerator(source, maximum);
    let denominator = scale_denominator(source, maximum);
    lemma_scaled_canvas(source, maximum);
    if !allow_upscale && numerator >= denominator {
        assert(sh * sw < (sh + 1) * sw) by (nonlinear_arith)
            requires
                sw > 0,
        ;
    } else if width_limited(source, maximum) {
        lemma_scaled_dimensions(sw, mw, sh, mh);
    } else {
        lemma_scaled_dimensions(sh, mh, sw, mw);
    }
}

/// A resize that changes the canvas fills the maximum in one dimension.
pub proof fn law_resized_canvas_fills_maximum(
    source: CanvasSize,
    maximum: CanvasSize,
    allow_upscale: bool,
)
    requires
        source.non_empty(),
        maximum.non_empty(),
        contained_size(source, maximum, allow_upscale) != source,
    ensures
        ({
            let destination = contained_size(source, maximum, allow_upscale);
            destination.width == maximum.width || destination.height == maximum.height
        }),
{
    lemma_scaled_canvas(source, maximum);
}

/// Resizing to the same maximum a second time changes nothing, whether sources
/// may be enlarged or not.
pub proof fn law_resize_is_idempotent(
    source: CanvasSize,
    maximum: CanvasSize,
    allow_upscale: bool,
)
    requires
        source.non_empty(),
        maximum.non_empty(),
    ensures
        ({
            let destination = contained_size(source, maximum, allow_upscale);
            contained_size(destination, maximum, allow_upscale) == destination
        }),
{
    let destination = contained_size(source, maximum, allow_upscale);
    law_destination_fits_maximum(source, maximum, allow_upscale);
    if allow_upscale {
        lemma_scaled_canvas(source, maximum);
        lemma_full_canvas_kept(destination, maximum);
    } else {
        law_kept_iff_it_fits(destination, maximum);
    }
}

/// A canvas that fits and fills the maximum in one dimension is scaled by one.
proof fn lemma_full_canvas_kept(canvas: CanvasSize, maximum: CanvasSize)
    requires
        canvas.non_empty(),
        maximum.non_empty(),
        canvas.fits_in(maximum),
        canvas.width == maximum.width || canvas.height == maximum.height,
    ensures
        contained_size(canvas, maximum, true) == canvas,
{
    let (cw, ch) = (canvas.width as int, canvas.height as int);
    let (mw, mh) = (maximum.width as int, maximum.height as int);
    if cw == mw {
        assert(mw * ch <= mh * mw) by (nonlinear_arith)
            requires
                0 < mw,
                ch <= mh,
        ;
    } else {
        assert(mw * mh > mh * cw) by (nonlinear_arith)
            requires
                0 < mh,
                cw < mw,
        ;
    }
    let scale = scale_denominator(canvas, maximum);
    assert(scale == scale_numerator(canvas, maximum));
    assert(cw * scale / (scale as int) == cw && ch * scale / (scale as int) == ch)
        by (nonlinear_arith)
        requires
            scale > 0,
    ;
}

/// A source that fits is passed on pixel by pixel, unless it may be enlarged.
pub proof fn law_fitting_source_keeps_its_pixels(
    plan: ResizePlan,
    options: ResizeOptions,
    source_rgba: Seq<u8>,
    result: Seq<u8>,
)
    requires
        planned_destination(plan.spec_source(), options) == Ok::<CanvasSize, ResizeError>(
            plan.spec_destination(),
        ),
        !options.allow_upscale,
        plan.spec_source().fits_in(options.maximum),
        plan.transforms(source_rgba, result),
    ensures
        result == source_rgba,
{
    law_kept_iff_it_fits(plan.spec_source(), options.maximum);
}

/// Two transforms of one source by the same plan, such as one by a fresh workspace
/// and one by a workspace used before, have the same length, and where the canvas
/// is kept they are the same pixels. Of two resamplings of one source no more is
/// said, as [`is_resampling`] explains.
pub proof fn law_transforms_agree_where_the_canvas_is_kept(
    plan: ResizePlan,
    source_rgba: Seq<u8>,
    fresh: Seq<u8>,
    reused: Seq<u8>,
)
    requires
        plan.transforms(source_rgba, fresh),
        plan.transforms(source_rgba, reused),
    ensures
        fresh.len() == plan.spec_destination().rgba_len(),
        reused.len() == fresh.len(),
        plan.spec_source() == plan.spec_destination() ==> fresh == source_rgba && reused == fresh,
{
}

} // verus!
