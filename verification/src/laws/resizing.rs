//! Laws of resize plans and of what they make of pixels.

use vstd::prelude::*;

use crate::model::{AnimationFrame, CanvasSize};
use crate::resize::{
    self, destination_size, validate_size, ResizeError, ResizeFilter, ResizeOptions, ResizePlan,
    ResizeWorkspace,
};

verus! {

/// Neither side of the canvas is zero.
pub open spec fn has_sides(canvas: CanvasSize) -> bool {
    canvas.width >= 1 && canvas.height >= 1
}

/// `length` is the side that stays in proportion with one that goes from
/// `reference` to `target`: the largest whole number of pixels that is not more,
/// but at least one.
pub open spec fn proportional(length: int, side: int, target: int, reference: int) -> bool {
    &&& length >= 1
    &&& side * target < (length + 1) * reference
    &&& length > 1 ==> length * reference <= side * target
}

/// The destination fits within the maximum, and where a source may be enlarged,
/// or is too large, it fills the maximum in one dimension.
pub proof fn law_destination_fills_the_maximum(
    source: CanvasSize,
    maximum: CanvasSize,
    allow_upscale: bool,
    destination: CanvasSize,
)
    requires
        has_sides(source),
        has_sides(maximum),
        call_ensures(destination_size, (source, maximum, allow_upscale), destination),
    ensures
        1 <= destination.width <= maximum.width,
        1 <= destination.height <= maximum.height,
        allow_upscale || source.width > maximum.width || source.height > maximum.height ==> {
            destination.width == maximum.width || destination.height == maximum.height
        },
{
    resize::law_destination_fits_maximum(source, maximum, allow_upscale);
    resize::lemma_scaled_canvas(source, maximum);
    resize::lemma_fits_iff_scale_at_least_one(source, maximum);
}

/// The side that fills the maximum decides the scale, and the other side stays in
/// proportion.
pub proof fn law_destination_stays_in_proportion(
    source: CanvasSize,
    maximum: CanvasSize,
    allow_upscale: bool,
    destination: CanvasSize,
)
    requires
        has_sides(source),
        has_sides(maximum),
        call_ensures(destination_size, (source, maximum, allow_upscale), destination),
        allow_upscale || source.width > maximum.width || source.height > maximum.height,
    ensures
        maximum.width * source.height <= maximum.height * source.width ==> {
            &&& destination.width == maximum.width
            &&& proportional(
                destination.height as int,
                source.height as int,
                maximum.width as int,
                source.width as int,
            )
        },
        maximum.width * source.height > maximum.height * source.width ==> {
            &&& destination.height == maximum.height
            &&& proportional(
                destination.width as int,
                source.width as int,
                maximum.height as int,
                source.height as int,
            )
        },
{
    let (sw, sh) = (source.width as nat, source.height as nat);
    let (mw, mh) = (maximum.width as nat, maximum.height as nat);
    resize::lemma_scaled_canvas(source, maximum);
    resize::lemma_fits_iff_scale_at_least_one(source, maximum);
    if mw * sh <= mh * sw {
        resize::lemma_scaled_dimensions(sw, mw, sh, mh);
    } else {
        resize::lemma_scaled_dimensions(sh, mh, sw, mw);
    }
}

/// A source that fits, and may not be enlarged, is kept.
pub proof fn law_fitting_source_is_kept(
    source: CanvasSize,
    maximum: CanvasSize,
    destination: CanvasSize,
)
    requires
        has_sides(source),
        has_sides(maximum),
        call_ensures(destination_size, (source, maximum, false), destination),
        source.width <= maximum.width,
        source.height <= maximum.height,
    ensures
        destination == source,
{
    resize::law_kept_iff_it_fits(source, maximum);
}

/// A canvas is refused exactly where it has a zero side, with its name.
pub proof fn law_empty_canvas_is_refused(
    which: &'static str,
    size: CanvasSize,
    result: Result<(), ResizeError>,
)
    requires
        call_ensures(validate_size, (which, size), result),
    ensures
        has_sides(size) ==> result is Ok,
        !has_sides(size) ==> result == Err::<(), ResizeError>(
            ResizeError::InvalidCanvasSize { which, size },
        ),
{
}

/// A plan leads from its source to the destination that is derived for it; it is
/// made exactly where both canvases have sides and the output is not too large.
pub proof fn law_plan_is_made_iff_output_is_allowed(
    source: CanvasSize,
    options: ResizeOptions,
    result: Result<ResizePlan, ResizeError>,
    destination: CanvasSize,
)
    requires
        call_ensures(ResizePlan::new, (source, options), result),
        call_ensures(
            destination_size,
            (source, options.maximum, options.allow_upscale),
            destination,
        ),
    ensures
        !has_sides(source) ==> result == Err::<ResizePlan, ResizeError>(
            ResizeError::InvalidCanvasSize { which: "source", size: source },
        ),
        has_sides(source) && !has_sides(options.maximum) ==> result == Err::<
            ResizePlan,
            ResizeError,
        >(ResizeError::InvalidCanvasSize { which: "maximum", size: options.maximum }),
        has_sides(source) && has_sides(options.maximum) ==> {
            let bytes = 4 * (destination.width * destination.height);
            if bytes > usize::MAX {
                result == Err::<ResizePlan, ResizeError>(ResizeError::OutputSizeOverflow)
            } else if bytes > options.max_output_rgba_bytes {
                result == Err::<ResizePlan, ResizeError>(
                    ResizeError::OutputTooLarge {
                        actual: bytes as usize,
                        maximum: options.max_output_rgba_bytes,
                    },
                )
            } else {
                result is Ok
            }
        },
{
}

/// A plan tells its source and its destination, and that it changes nothing
/// exactly where they are the same.
pub proof fn law_plan_tells_its_canvases(
    source: CanvasSize,
    options: ResizeOptions,
    plan: ResizePlan,
    derived: CanvasSize,
    told_source: CanvasSize,
    told_destination: CanvasSize,
    noop: bool,
)
    requires
        call_ensures(ResizePlan::new, (source, options), Ok(plan)),
        call_ensures(destination_size, (source, options.maximum, options.allow_upscale), derived),
        call_ensures(ResizePlan::source, (&plan,), told_source),
        call_ensures(ResizePlan::destination, (&plan,), told_destination),
        call_ensures(ResizePlan::is_noop, (&plan,), noop),
    ensures
        told_source.width == source.width,
        told_source.height == source.height,
        told_destination.width == derived.width,
        told_destination.height == derived.height,
        noop <==> derived.width == source.width && derived.height == source.height,
{
}

/// Pixels are resized exactly where there are four bytes for each pixel of the
/// source; otherwise the buffer is refused with the length that it should have.
pub proof fn law_source_length_is_exact(
    plan: ResizePlan,
    rgba: &[u8],
    source: CanvasSize,
    result: Result<Vec<u8>, ResizeError>,
)
    requires
        call_ensures(ResizePlan::source, (&plan,), source),
        call_ensures(ResizePlan::transform_rgba, (&plan, rgba), result),
    ensures
        ({
            let bytes = 4 * (source.width * source.height);
            &&& bytes > usize::MAX ==> result == Err::<Vec<u8>, ResizeError>(
                ResizeError::SourceSizeOverflow,
            )
            &&& bytes <= usize::MAX && rgba@.len() != bytes ==> result == Err::<
                Vec<u8>,
                ResizeError,
            >(
                ResizeError::InvalidSourceBufferLength {
                    actual: rgba@.len() as usize,
                    expected: bytes as usize,
                },
            )
            &&& bytes <= usize::MAX && rgba@.len() == bytes ==> result is Ok
        }),
{
}

/// Some pixel has an alpha other than 255.
pub open spec fn translucent(rgba: Seq<u8>) -> bool {
    exists|pixel: int| 0 <= pixel && 4 * pixel + 3 < rgba.len() && #[trigger] rgba[4 * pixel + 3]
        != 255
}

/// Transparency is looked for in every pixel.
pub proof fn lemma_translucent(rgba: Seq<u8>)
    ensures
        resize::has_transparency(rgba) <==> translucent(rgba),
{
    if translucent(rgba) {
        let pixel = choose|pixel: int|
            0 <= pixel && 4 * pixel + 3 < rgba.len() && #[trigger] rgba[4 * pixel + 3] != 255;
        assert(0 <= pixel < rgba.len() / 4 && rgba[4 * pixel + 3] != 255);
    }
    if resize::has_transparency(rgba) {
        let pixel = choose|pixel: int|
            0 <= pixel < rgba.len() / 4 && #[trigger] rgba[4 * pixel + 3] != 255;
        assert(0 <= pixel && 4 * pixel + 3 < rgba.len() && rgba[4 * pixel + 3] != 255);
    }
}

/// Resized pixels fill the destination. Where the canvas is kept they are those of
/// the source; otherwise they are resampled from the source canvas to the derived
/// one, with the filter that was asked for, and with alpha exactly where some pixel
/// is not opaque.
pub proof fn law_pixels_are_resampled_as_asked(
    source: CanvasSize,
    options: ResizeOptions,
    plan: ResizePlan,
    derived: CanvasSize,
    rgba: &[u8],
    pixels: Vec<u8>,
)
    requires
        call_ensures(ResizePlan::new, (source, options), Ok(plan)),
        call_ensures(destination_size, (source, options.maximum, options.allow_upscale), derived),
        call_ensures(ResizePlan::transform_rgba, (&plan, rgba), Ok(pixels)),
    ensures
        pixels@.len() == 4 * (derived.width * derived.height),
        derived == source ==> pixels@ == rgba@,
        derived != source ==> resize::is_resampling(
            rgba@,
            source.width,
            source.height,
            derived.width,
            derived.height,
            options.filter,
            translucent(rgba@),
            pixels@,
        ),
{
    lemma_translucent(rgba@);
}

/// A reused workspace does with each frame what the plan does with it alone, and
/// leaves the source as it is; a refused frame leaves the pixels as they are.
pub proof fn law_workspace_applies_its_plan(
    plan: ResizePlan,
    workspace: &mut ResizeWorkspace,
    rgba: &mut [u8],
    result: Result<(), ResizeError>,
    source: CanvasSize,
    destination: CanvasSize,
    before: &[u8],
    after: &[u8],
)
    requires
        old(workspace).spec_plan() == plan,
        call_ensures(ResizeWorkspace::transform_rgba, (workspace, rgba), result),
        call_ensures(ResizePlan::source, (&plan,), source),
        call_ensures(ResizePlan::destination, (&plan,), destination),
        call_ensures(ResizeWorkspace::pixels, (&*old(workspace),), before),
        call_ensures(ResizeWorkspace::pixels, (&*final(workspace),), after),
    ensures
        final(rgba)@ == old(rgba)@,
        final(workspace).spec_plan() == plan,
        result is Ok <==> {
            &&& 4 * (source.width * source.height) <= usize::MAX
            &&& old(rgba)@.len() == 4 * (source.width * source.height)
        },
        result is Err ==> after@ == before@,
        result is Ok ==> after@.len() == 4 * (destination.width * destination.height),
        result is Ok && source == destination ==> after@ == old(rgba)@,
        result is Ok && source != destination ==> resize::is_resampling(
            old(rgba)@,
            source.width,
            source.height,
            destination.width,
            destination.height,
            plan.spec_filter(),
            translucent(old(rgba)@),
            after@,
        ),
{
    lemma_translucent(old(rgba)@);
}

/// A plan gives the workspace that applies it, with room for one destination.
pub proof fn law_workspace_belongs_to_its_plan(
    plan: ResizePlan,
    result: Result<ResizeWorkspace, ResizeError>,
    destination: CanvasSize,
)
    requires
        call_ensures(ResizePlan::workspace, (&plan,), result),
        call_ensures(ResizePlan::destination, (&plan,), destination),
    ensures
        result is Ok,
        result->Ok_0.spec_plan() == plan,
        result->Ok_0.spec_pixels().len() == 4 * (destination.width * destination.height),
        forall|i: int|
            0 <= i < result->Ok_0.spec_pixels().len() ==> result->Ok_0.spec_pixels()[i] == 0,
{
}

/// A frame on the source canvas is resized as its pixels are, moves to the
/// destination, and keeps its duration; any other frame is refused.
pub proof fn law_frames_keep_their_duration(
    plan: ResizePlan,
    frame: AnimationFrame,
    source: CanvasSize,
    destination: CanvasSize,
    result: Result<AnimationFrame, ResizeError>,
)
    requires
        call_ensures(ResizePlan::source, (&plan,), source),
        call_ensures(ResizePlan::destination, (&plan,), destination),
        call_ensures(ResizePlan::transform_frame, (&plan, frame), result),
    ensures
        frame.canvas != source ==> result == Err::<AnimationFrame, ResizeError>(
            ResizeError::UnexpectedFrameCanvas { actual: frame.canvas, expected: source },
        ),
        frame.canvas == source ==> (result is Ok <==> {
            &&& 4 * (source.width * source.height) <= usize::MAX
            &&& frame.rgba@.len() == 4 * (source.width * source.height)
        }),
        result is Ok ==> {
            &&& result->Ok_0.duration == frame.duration
            &&& result->Ok_0.canvas.width == destination.width
            &&& result->Ok_0.canvas.height == destination.height
            &&& result->Ok_0.rgba@.len() == 4 * (destination.width * destination.height)
            &&& source == destination ==> result->Ok_0.rgba@ == frame.rgba@
            &&& source != destination ==> resize::is_resampling(
                frame.rgba@,
                source.width,
                source.height,
                destination.width,
                destination.height,
                plan.spec_filter(),
                translucent(frame.rgba@),
                result->Ok_0.rgba@,
            )
        },
{
    lemma_translucent(frame.rgba@);
}

/// A request to contain a canvas keeps smaller sources, blends bilinearly, and
/// sets no limit of its own.
pub proof fn law_contain_sets_only_the_maximum(maximum: CanvasSize, options: ResizeOptions)
    requires
        call_ensures(ResizeOptions::contain, (maximum,), options),
    ensures
        options.maximum == maximum,
        !options.allow_upscale,
        options.filter == ResizeFilter::Bilinear,
        options.max_output_rgba_bytes == usize::MAX,
{
}

} // verus!
