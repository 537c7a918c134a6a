//! Laws of the encoder.

use vstd::prelude::*;

use crate::codec::encode::{
    apply_config_overrides, apply_mux_overrides, duration_to_millis, encoder_error,
    validate_options, AnimationEncoder, AnimationEncoderOptions, AnimationMuxOverrides,
    EncodeError, EncoderConfig, EncoderConfigOverrides, EncoderReplies, EncoderSetup,
    FrameSubmission, MuxOptions, NativeAdd,
};
use crate::codec::quality::{self, Quality};
use crate::model::{AnimationFrame, AnimationInfo, CanvasSize, LoopCount};
use crate::time::Duration;

verus! {

/// `new` is `old` with every field that is overridden set to what was asked for,
/// and every other field kept.
pub open spec fn config_overridden(
    old_config: EncoderConfig,
    overrides: EncoderConfigOverrides,
    new_config: EncoderConfig,
) -> bool {
    &&& overrides.quality matches Some(value) ==> new_config.quality == value
    &&& overrides.quality is None ==> new_config.quality == old_config.quality
    &&& overrides.lossless == Some(true) ==> new_config.lossless == 1
    &&& overrides.lossless == Some(false) ==> new_config.lossless == 0
    &&& overrides.lossless is None ==> new_config.lossless == old_config.lossless
    &&& overrides.use_sharp_yuv == Some(true) ==> new_config.use_sharp_yuv == 1
    &&& overrides.use_sharp_yuv == Some(false) ==> new_config.use_sharp_yuv == 0
    &&& overrides.use_sharp_yuv is None ==> new_config.use_sharp_yuv == old_config.use_sharp_yuv
    &&& overrides.autofilter == Some(true) ==> new_config.autofilter == 1
    &&& overrides.autofilter == Some(false) ==> new_config.autofilter == 0
    &&& overrides.autofilter is None ==> new_config.autofilter == old_config.autofilter
    &&& overrides.thread_level == Some(true) ==> new_config.thread_level == 1
    &&& overrides.thread_level == Some(false) ==> new_config.thread_level == 0
    &&& overrides.thread_level is None ==> new_config.thread_level == old_config.thread_level
    &&& overrides.method matches Some(value) ==> new_config.method == value
    &&& overrides.method is None ==> new_config.method == old_config.method
    &&& overrides.alpha_quality matches Some(value) ==> new_config.alpha_quality == value
    &&& overrides.alpha_quality is None ==> new_config.alpha_quality == old_config.alpha_quality
    &&& overrides.preprocessing matches Some(value) ==> new_config.preprocessing == value
    &&& overrides.preprocessing is None ==> new_config.preprocessing == old_config.preprocessing
    &&& overrides.filter_strength matches Some(value) ==> new_config.filter_strength == value
    &&& overrides.filter_strength is None ==> new_config.filter_strength == old_config.filter_strength
    &&& overrides.filter_sharpness matches Some(value) ==> new_config.filter_sharpness == value
    &&& overrides.filter_sharpness is None ==> new_config.filter_sharpness == old_config.filter_sharpness
    &&& overrides.filter_type matches Some(value) ==> new_config.filter_type == value
    &&& overrides.filter_type is None ==> new_config.filter_type == old_config.filter_type
}

/// `new` is `old` with every mux field that is overridden set to what was asked
/// for, and every other field kept.
pub open spec fn mux_overridden(
    old_mux: MuxOptions,
    overrides: AnimationMuxOverrides,
    new_mux: MuxOptions,
) -> bool {
    &&& overrides.minimize_size == Some(true) ==> new_mux.minimize_size == 1
    &&& overrides.minimize_size == Some(false) ==> new_mux.minimize_size == 0
    &&& overrides.minimize_size is None ==> new_mux.minimize_size == old_mux.minimize_size
    &&& overrides.allow_mixed == Some(true) ==> new_mux.allow_mixed == 1
    &&& overrides.allow_mixed == Some(false) ==> new_mux.allow_mixed == 0
    &&& overrides.allow_mixed is None ==> new_mux.allow_mixed == old_mux.allow_mixed
    &&& overrides.kmin matches Some(value) ==> new_mux.kmin == value
    &&& overrides.kmin is None ==> new_mux.kmin == old_mux.kmin
    &&& overrides.kmax matches Some(value) ==> new_mux.kmax == value
    &&& overrides.kmax is None ==> new_mux.kmax == old_mux.kmax
}

/// Each per-frame field takes the value that was asked for, and only then changes.
pub proof fn law_overrides_replace_config_fields(
    config: &mut EncoderConfig,
    overrides: EncoderConfigOverrides,
)
    requires
        call_ensures(apply_config_overrides, (config, overrides), ()),
    ensures
        config_overridden(*old(config), overrides, *final(config)),
{
}

/// Each mux field takes the value that was asked for, and only then changes; the
/// metadata stays.
pub proof fn law_overrides_replace_mux_fields(
    options: &mut MuxOptions,
    overrides: AnimationMuxOverrides,
)
    requires
        call_ensures(apply_mux_overrides, (options, overrides), ()),
    ensures
        mux_overridden(*old(options), overrides, *final(options)),
        final(options).loop_count == old(options).loop_count,
        final(options).bgcolor == old(options).bgcolor,
{
}

/// A quality from zero to one hundred, by its bits.
pub open spec fn quality_in_range(quality: Option<Quality>) -> bool {
    quality matches Some(value) ==> value.bits <= 0x42c8_0000 || value.bits == 0x8000_0000
}

/// A small number that is not given or not above its maximum.
pub open spec fn at_most(value: Option<u8>, maximum: int) -> bool {
    value matches Some(value) ==> value <= maximum
}

/// A number that is not given or lies between zero and its maximum.
pub open spec fn from_zero_to(value: Option<i32>, maximum: int) -> bool {
    value matches Some(value) ==> 0 <= value <= maximum
}

/// Every per-frame field that is given is in the range that libwebp documents.
pub open spec fn in_documented_ranges(config: EncoderConfigOverrides) -> bool {
    &&& quality_in_range(config.quality)
    &&& at_most(config.method, 6)
    &&& at_most(config.alpha_quality, 100)
    &&& at_most(config.preprocessing, 2)
    &&& from_zero_to(config.filter_strength, 100)
    &&& from_zero_to(config.filter_sharpness, 7)
    &&& from_zero_to(config.filter_type, 1)
}

/// Whether a quality is in range can be read off its bits.
proof fn lemma_quality(quality: Option<Quality>)
    ensures
        quality is Some ==> (quality->Some_0.in_range() <==> quality_in_range(quality)),
{
    if let Some(value) = quality {
        quality::lemma_range_by_bits(value);
    }
}

/// Options with a per-frame field out of its range are refused, with the first
/// such field and its value.
pub proof fn law_first_field_out_of_range_is_reported(
    options: &AnimationEncoderOptions,
    result: Result<(), EncodeError>,
)
    requires
        call_ensures(validate_options, (options,), result),
    ensures
        ({
            let config = options.config;
            if !quality_in_range(config.quality) {
                result == Err::<(), EncodeError>(
                    EncodeError::InvalidQuality { value: config.quality->Some_0 },
                )
            } else if !at_most(config.method, 6) {
                result == Err::<(), EncodeError>(
                    EncodeError::InvalidMethod { value: config.method->Some_0 },
                )
            } else if !at_most(config.alpha_quality, 100) {
                result == Err::<(), EncodeError>(
                    EncodeError::InvalidAlphaQuality { value: config.alpha_quality->Some_0 },
                )
            } else if !at_most(config.preprocessing, 2) {
                result == Err::<(), EncodeError>(
                    EncodeError::InvalidPreprocessing { value: config.preprocessing->Some_0 },
                )
            } else if !from_zero_to(config.filter_strength, 100) {
                result == Err::<(), EncodeError>(
                    EncodeError::InvalidFilterStrength { value: config.filter_strength->Some_0 },
                )
            } else if !from_zero_to(config.filter_sharpness, 7) {
                result == Err::<(), EncodeError>(
                    EncodeError::InvalidFilterSharpness { value: config.filter_sharpness->Some_0 },
                )
            } else if !from_zero_to(config.filter_type, 1) {
                result == Err::<(), EncodeError>(
                    EncodeError::InvalidFilterType { value: config.filter_type->Some_0 },
                )
            } else {
                options.animation.kmin is None && options.animation.kmax is None ==> result is Ok
            }
        }),
{
    lemma_quality(options.config.quality);
}

/// With every field in range the key-frame interval decides: both bounds or none,
/// not together with a minimal size, one of the two special modes, or an interval
/// of positive length, in the upper half of its maximum, and at most thirty wide.
pub proof fn law_keyframe_intervals_are_judged(
    options: &AnimationEncoderOptions,
    result: Result<(), EncodeError>,
)
    requires
        call_ensures(validate_options, (options,), result),
        in_documented_ranges(options.config),
    ensures
        match (options.animation.kmin, options.animation.kmax) {
            (None, None) => result is Ok,
            (Some(kmin), None) => result == Err::<(), EncodeError>(
                EncodeError::IncompleteKeyframeInterval { kmin: Some(kmin), kmax: None },
            ),
            (None, Some(kmax)) => result == Err::<(), EncodeError>(
                EncodeError::IncompleteKeyframeInterval { kmin: None, kmax: Some(kmax) },
            ),
            (Some(kmin), Some(kmax)) => if options.animation.minimize_size == Some(true) {
                result == Err::<(), EncodeError>(
                    EncodeError::KeyframeIntervalIgnoredByMinimizeSize,
                )
            } else {
                &&& result is Ok <==> {
                    ||| kmin == 0 && 0 <= kmax <= 1
                    ||| 2 <= kmax && kmax < 2 * kmin && kmin < kmax && kmax - kmin <= 30
                }
                &&& kmax <= 1 && result is Err ==> result == Err::<(), EncodeError>(
                    EncodeError::NonCanonicalKeyframeMode { kmin, kmax },
                )
                &&& kmax >= 2 && (kmin < 0 || kmin >= kmax) ==> result == Err::<(), EncodeError>(
                    EncodeError::InvalidKeyframeInterval { kmin, kmax },
                )
                &&& kmax >= 2 && 0 <= kmin && 2 * kmin <= kmax ==> (result matches Err(
                    EncodeError::KeyframeIntervalBelowMinimum { kmin: low, minimum, kmax: high },
                ) && low == kmin && high == kmax && 2 * (minimum - 1) <= kmax < 2 * minimum)
                &&& kmax >= 2 && kmax < 2 * kmin && kmin < kmax && kmax - kmin > 30 ==> result
                    == Err::<(), EncodeError>(
                    EncodeError::KeyframeIntervalTooWide { kmin, kmax, maximum_span: 30 },
                )
            },
        },
{
    lemma_quality(options.config.quality);
}

/// No field of the overrides is given.
pub open spec fn nothing_overridden(
    config: EncoderConfigOverrides,
    animation: AnimationMuxOverrides,
) -> bool {
    &&& config.quality is None
    &&& config.lossless is None
    &&& config.method is None
    &&& config.use_sharp_yuv is None
    &&& config.autofilter is None
    &&& config.alpha_quality is None
    &&& config.preprocessing is None
    &&& config.thread_level is None
    &&& config.filter_strength is None
    &&& config.filter_sharpness is None
    &&& config.filter_type is None
    &&& animation.minimize_size is None
    &&& animation.allow_mixed is None
    &&& animation.kmin is None
    &&& animation.kmax is None
}

/// Options take over the metadata that they are made from, and override nothing.
pub proof fn law_options_take_over_metadata(
    info: AnimationInfo,
    made: AnimationEncoderOptions,
    copied: AnimationEncoderOptions,
)
    requires
        call_ensures(
            AnimationEncoderOptions::new,
            (info.loop_count, info.background_color),
            made,
        ),
        call_ensures(AnimationEncoderOptions::from_animation_info, (info,), copied),
    ensures
        made.loop_count == info.loop_count,
        made.background_color == info.background_color,
        nothing_overridden(made.config, made.animation),
        copied.loop_count == info.loop_count,
        copied.background_color == info.background_color,
        nothing_overridden(copied.config, copied.animation),
{
}

/// Without a request nothing is overridden, the output repeats endlessly, and its
/// background is white.
pub proof fn law_defaults_override_nothing(
    config: EncoderConfigOverrides,
    animation: AnimationMuxOverrides,
    options: AnimationEncoderOptions,
)
    requires
        call_ensures(EncoderConfigOverrides::default, (), config),
        call_ensures(AnimationMuxOverrides::default, (), animation),
        call_ensures(AnimationEncoderOptions::default, (), options),
    ensures
        nothing_overridden(config, animation),
        nothing_overridden(options.config, options.animation),
        options.loop_count is Infinite,
        options.background_color.raw == 0xffff_ffff,
{
}

/// An encoder is set up exactly where its canvas has sides of at most 31 bits and
/// fewer bytes than the host addresses, and its options are accepted.
pub proof fn law_setup_is_made_iff_canvas_and_options_are_accepted(
    canvas: CanvasSize,
    options: AnimationEncoderOptions,
    judged: Result<(), EncodeError>,
    result: Result<EncoderSetup, EncodeError>,
)
    requires
        call_ensures(validate_options, (&options,), judged),
        call_ensures(AnimationEncoder::setup, (canvas, options), result),
    ensures
        ({
            let usable = 1 <= canvas.width <= 0x7fff_ffff && 1 <= canvas.height <= 0x7fff_ffff && 4
                * (canvas.width * canvas.height) <= usize::MAX;
            &&& !usable ==> result == Err::<EncoderSetup, EncodeError>(
                EncodeError::InvalidCanvasSize(canvas),
            )
            &&& usable && judged is Err ==> result is Err && result->Err_0 == judged->Err_0
            &&& usable && judged is Ok ==> result is Ok
        }),
{
}

/// A setup gives libwebp the canvas, the metadata, and for every per-frame field
/// what was asked for; a field that was not asked for is as it is without any
/// overrides.
pub proof fn law_setup_hands_on_what_was_asked_for(
    canvas: CanvasSize,
    options: AnimationEncoderOptions,
    plain_options: AnimationEncoderOptions,
    setup: EncoderSetup,
    plain: EncoderSetup,
)
    requires
        call_ensures(AnimationEncoder::setup, (canvas, options), Ok(setup)),
        nothing_overridden(plain_options.config, plain_options.animation),
        call_ensures(AnimationEncoder::setup, (canvas, plain_options), Ok(plain)),
    ensures
        setup.width == canvas.width,
        setup.height == canvas.height,
        config_overridden(plain.config, options.config, setup.config),
        setup.loop_count == options.loop_count,
        setup.background_color == options.background_color,
        setup.animation == options.animation,
{
}

/// The muxer is given the loop count, with zero for endless repetition, the
/// background color, and for every field what was asked for.
pub proof fn law_muxer_is_given_metadata_and_overrides(
    setup: EncoderSetup,
    initial: Option<MuxOptions>,
    result: Result<MuxOptions, EncodeError>,
)
    requires
        call_ensures(EncoderSetup::mux_options, (&setup, initial), result),
    ensures
        initial is None ==> result == Err::<MuxOptions, EncodeError>(
            EncodeError::EncoderOptionsInitialization,
        ),
        initial is Some ==> {
            &&& result is Ok
            &&& mux_overridden(initial->Some_0, setup.animation, result->Ok_0)
            &&& setup.loop_count is Infinite ==> result->Ok_0.loop_count == 0
            &&& setup.loop_count matches LoopCount::Finite(count) ==> result->Ok_0.loop_count
                == count@
            &&& result->Ok_0.bgcolor == setup.background_color.raw
        },
{
}

/// A configuration is rejected exactly where libwebp says zero.
pub proof fn law_zero_rejects_the_configuration(
    setup: EncoderSetup,
    accepted: i32,
    result: Result<(), EncodeError>,
)
    requires
        call_ensures(EncoderSetup::check_config, (&setup, accepted), result),
    ensures
        accepted == 0 ==> result == Err::<(), EncodeError>(EncodeError::LibwebpConfigRejected),
        accepted != 0 ==> result is Ok,
{
}

/// An encoder is opened exactly where it is set up and libwebp agrees at each
/// step; then it has the canvas and the configuration of the setup, and no frames.
pub proof fn law_encoder_is_opened_as_set_up(
    canvas: CanvasSize,
    options: AnimationEncoderOptions,
    replies: EncoderReplies,
    setup: Result<EncoderSetup, EncodeError>,
    result: Result<AnimationEncoder, EncodeError>,
    told_canvas: CanvasSize,
    told_config: EncoderConfig,
    told_count: u32,
)
    requires
        call_ensures(AnimationEncoder::setup, (canvas, options), setup),
        call_ensures(AnimationEncoder::new, (canvas, options, replies), result),
        result is Ok ==> call_ensures(AnimationEncoder::canvas, (&result->Ok_0,), told_canvas),
        result is Ok ==> call_ensures(AnimationEncoder::config, (&result->Ok_0,), told_config),
        result is Ok ==> call_ensures(AnimationEncoder::frame_count, (&result->Ok_0,), told_count),
    ensures
        setup is Err ==> result is Err && result->Err_0 == setup->Err_0,
        setup is Ok && replies.config_accepted == 0 ==> result is Err && result->Err_0
            == EncodeError::LibwebpConfigRejected,
        setup is Ok && replies.config_accepted != 0 && replies.initial_mux is None ==> result is Err
            && result->Err_0 == EncodeError::EncoderOptionsInitialization,
        setup is Ok && replies.config_accepted != 0 && replies.initial_mux is Some
            && !replies.created ==> result is Err && result->Err_0 == EncodeError::EncoderCreation,
        result is Ok <==> setup is Ok && replies.config_accepted != 0 && replies.initial_mux is Some
            && replies.created,
        result is Ok ==> {
            &&& told_canvas.width == canvas.width
            &&& told_canvas.height == canvas.height
            &&& told_config == setup->Ok_0.config
            &&& told_count == 0
        },
{
}

/// A duration is a count of milliseconds exactly where it is a whole number of
/// them that fits in 31 bits.
pub proof fn law_whole_milliseconds_are_counted(
    duration: Duration,
    result: Result<i32, EncodeError>,
)
    requires
        call_ensures(duration_to_millis, (duration,), result),
    ensures
        duration@ % 1_000_000 != 0 ==> result == Err::<i32, EncodeError>(
            EncodeError::NonMillisecondDuration(duration),
        ),
        duration@ % 1_000_000 == 0 && duration@ > 0x7fff_ffff * 1_000_000 ==> result == Err::<
            i32,
            EncodeError,
        >(EncodeError::TimestampOverflow),
        duration@ % 1_000_000 == 0 && duration@ <= 0x7fff_ffff * 1_000_000 ==> result is Ok
            && result->Ok_0 * 1_000_000 == duration@,
{
}

/// An accepted submission describes the buffer that it was given: it has the sides
/// of the canvas, rows of four bytes per pixel, one behind the other, that fill the
/// buffer, and the encoder's configuration.
pub proof fn law_submission_describes_the_buffer(
    encoder: AnimationEncoder,
    rgba: &[u8],
    duration: Duration,
    submission: FrameSubmission,
    canvas: CanvasSize,
    config: EncoderConfig,
)
    requires
        call_ensures(AnimationEncoder::submit_rgba, (&encoder, rgba, duration), Ok(submission)),
        call_ensures(AnimationEncoder::canvas, (&encoder,), canvas),
        call_ensures(AnimationEncoder::config, (&encoder,), config),
    ensures
        submission.width == canvas.width,
        submission.height == canvas.height,
        submission.stride == 4 * submission.width,
        submission.stride * submission.height == rgba@.len(),
        submission.use_argb == 1,
        submission.config == config,
{
    let (w, h) = (canvas.width as int, canvas.height as int);
    assert((4 * w) * h == 4 * (w * h)) by (nonlinear_arith);
}

/// A frame is accepted exactly where it fills the canvas, lasts a whole number of
/// milliseconds, ends within 31 bits of them, and has rows of at most 31 bits.
pub proof fn law_frames_are_judged(
    encoder: AnimationEncoder,
    rgba: &[u8],
    duration: Duration,
    canvas: CanvasSize,
    millis: Result<i32, EncodeError>,
    result: Result<FrameSubmission, EncodeError>,
)
    requires
        call_ensures(AnimationEncoder::canvas, (&encoder,), canvas),
        call_ensures(duration_to_millis, (duration,), millis),
        call_ensures(AnimationEncoder::submit_rgba, (&encoder, rgba, duration), result),
    ensures
        ({
            let bytes = 4 * (canvas.width * canvas.height);
            if rgba@.len() != bytes {
                result == Err::<FrameSubmission, EncodeError>(
                    EncodeError::InvalidFrameBufferLength {
                        actual: rgba@.len() as usize,
                        expected: bytes as usize,
                    },
                )
            } else if millis is Err {
                result is Err && result->Err_0 == millis->Err_0
            } else if encoder.position_ms() + millis->Ok_0 > 0x7fff_ffff {
                result == Err::<FrameSubmission, EncodeError>(EncodeError::TimestampOverflow)
            } else if 4 * canvas.width > 0x7fff_ffff {
                result == Err::<FrameSubmission, EncodeError>(
                    EncodeError::InvalidCanvasSize(canvas),
                )
            } else {
                result is Ok
            }
        }),
{
}

/// A frame with its own canvas is handed over as its pixels are, and refused where
/// its canvas is another one.
pub proof fn law_frame_is_submitted_as_its_pixels(
    encoder: AnimationEncoder,
    frame: &AnimationFrame,
    rgba: &[u8],
    canvas: CanvasSize,
    by_pixels: Result<FrameSubmission, EncodeError>,
    result: Result<FrameSubmission, EncodeError>,
)
    requires
        rgba@ == frame.rgba@,
        call_ensures(AnimationEncoder::canvas, (&encoder,), canvas),
        call_ensures(AnimationEncoder::submit_rgba, (&encoder, rgba, frame.duration), by_pixels),
        call_ensures(AnimationEncoder::submit_frame, (&encoder, frame), result),
    ensures
        frame.canvas == canvas ==> result == by_pixels,
        frame.canvas != canvas ==> result == Err::<FrameSubmission, EncodeError>(
            EncodeError::UnexpectedFrameCanvas { actual: frame.canvas, expected: canvas },
        ),
{
}

/// The first frame of an opened encoder starts at zero.
pub proof fn law_first_frame_starts_at_zero(
    canvas: CanvasSize,
    options: AnimationEncoderOptions,
    replies: EncoderReplies,
    encoder: AnimationEncoder,
    rgba: &[u8],
    duration: Duration,
    submission: FrameSubmission,
)
    requires
        call_ensures(AnimationEncoder::new, (canvas, options, replies), Ok(encoder)),
        call_ensures(AnimationEncoder::submit_rgba, (&encoder, rgba, duration), Ok(submission)),
    ensures
        submission.timestamp_ms == 0,
        encoder.position_ms() == 0,
{
}

/// A frame that libwebp takes moves the start of the next one by its duration, and
/// counts; canvas and configuration stay, and the closing timestamp is where the
/// next frame would start.
pub proof fn law_added_frame_moves_the_next_start(
    encoder: &mut AnimationEncoder,
    rgba: &[u8],
    duration: Duration,
    submission: FrameSubmission,
    next_rgba: &[u8],
    next_duration: Duration,
    next: FrameSubmission,
    counts: (u32, u32),
    closing: Result<i32, EncodeError>,
)
    requires
        call_ensures(
            AnimationEncoder::submit_rgba,
            (&*old(encoder), rgba, duration),
            Ok(submission),
        ),
        call_ensures(AnimationEncoder::add_rgba, (encoder, rgba, duration, NativeAdd::Added), Ok(())),
        call_ensures(
            AnimationEncoder::submit_rgba,
            (&*final(encoder), next_rgba, next_duration),
            Ok(next),
        ),
        call_ensures(AnimationEncoder::frame_count, (&*old(encoder),), counts.0),
        call_ensures(AnimationEncoder::frame_count, (&*final(encoder),), counts.1),
        call_ensures(AnimationEncoder::final_timestamp, (&*final(encoder),), closing),
        0 <= old(encoder).position_ms() <= 0x7fff_ffff,
    ensures
        (next.timestamp_ms - submission.timestamp_ms) * 1_000_000 == duration@,
        counts.1 == counts.0 + 1,
        next.width == submission.width,
        next.height == submission.height,
        next.config == submission.config,
        closing == Ok::<i32, EncodeError>(next.timestamp_ms),
        final(encoder).position_ms() * 1_000_000 == old(encoder).position_ms() * 1_000_000
            + duration@,
        0 <= final(encoder).position_ms() <= 0x7fff_ffff,
{
}

/// A frame is answered as it is judged, or as libwebp fails; only a frame that
/// libwebp took changes the encoder.
pub proof fn law_frames_are_answered(
    encoder: &mut AnimationEncoder,
    rgba: &[u8],
    duration: Duration,
    reply: NativeAdd,
    judged: Result<FrameSubmission, EncodeError>,
    count: u32,
    result: Result<(), EncodeError>,
)
    requires
        call_ensures(AnimationEncoder::submit_rgba, (&*old(encoder), rgba, duration), judged),
        call_ensures(AnimationEncoder::frame_count, (&*old(encoder),), count),
        call_ensures(AnimationEncoder::add_rgba, (encoder, rgba, duration, reply), result),
    ensures
        judged is Err ==> result is Err && result->Err_0 == judged->Err_0,
        judged is Ok && reply is PictureInitializationFailed ==> result is Err && result->Err_0
            == EncodeError::PictureInitialization,
        judged is Ok && reply is PictureImportFailed ==> result is Err && result->Err_0
            == EncodeError::PictureImport,
        judged is Ok && reply is Rejected ==> (result matches Err(EncodeError::Libwebp(text))
            && match reply->Rejected_0 {
            Some(message) => text@ == message@,
            None => text@ == "unknown error"@,
        }),
        judged is Ok && reply is Added && count < u32::MAX ==> result is Ok,
        judged is Ok && reply is Added && count == u32::MAX ==> result is Err && result->Err_0
            == EncodeError::FrameCountOverflow,
        judged is Err || !(reply is Added) ==> *final(encoder) == *old(encoder),
        judged is Ok && reply is Added ==> {
            &&& final(encoder).position_ms() * 1_000_000 == old(encoder).position_ms() * 1_000_000
                + duration@
            &&& final(encoder).spec_canvas() == old(encoder).spec_canvas()
            &&& final(encoder).spec_config() == old(encoder).spec_config()
        },
{
}

/// A whole frame is answered as it is judged, or as libwebp fails; one that libwebp
/// took moves the encoder by its duration and counts.
pub proof fn law_whole_frames_are_answered(
    encoder: &mut AnimationEncoder,
    frame: &AnimationFrame,
    reply: NativeAdd,
    judged: Result<FrameSubmission, EncodeError>,
    result: Result<(), EncodeError>,
)
    requires
        call_ensures(AnimationEncoder::submit_frame, (&*old(encoder), frame), judged),
        call_ensures(AnimationEncoder::add_frame, (encoder, frame, reply), result),
    ensures
        judged is Err ==> result is Err && result->Err_0 == judged->Err_0,
        judged is Ok && reply is PictureInitializationFailed ==> result is Err && result->Err_0
            == EncodeError::PictureInitialization,
        judged is Ok && reply is PictureImportFailed ==> result is Err && result->Err_0
            == EncodeError::PictureImport,
        judged is Ok && reply is Rejected ==> (result matches Err(EncodeError::Libwebp(text))
            && match reply->Rejected_0 {
            Some(message) => text@ == message@,
            None => text@ == "unknown error"@,
        }),
        judged is Err || !(reply is Added) ==> *final(encoder) == *old(encoder),
        judged is Ok && reply is Added ==> {
            &&& final(encoder).position_ms() * 1_000_000 == old(encoder).position_ms() * 1_000_000
                + frame.duration@
            &&& final(encoder).spec_canvas() == old(encoder).spec_canvas()
            &&& final(encoder).spec_config() == old(encoder).spec_config()
            &&& old(encoder).spec_frame_count() < u32::MAX ==> {
                &&& result is Ok
                &&& final(encoder).spec_frame_count() == old(encoder).spec_frame_count() + 1
            }
            &&& old(encoder).spec_frame_count() == u32::MAX ==> result is Err && result->Err_0
                == EncodeError::FrameCountOverflow
        },
{
}

/// A whole frame is added as its pixels are: with the same answer, and with the
/// same effect on the encoder's place in time, its count, and what it keeps.
pub proof fn law_frame_is_added_as_its_pixels(
    by_frame: &mut AnimationEncoder,
    by_pixels: &mut AnimationEncoder,
    frame: &AnimationFrame,
    rgba: &[u8],
    reply: NativeAdd,
    canvas: CanvasSize,
    frame_result: Result<(), EncodeError>,
    pixels_result: Result<(), EncodeError>,
)
    requires
        *old(by_frame) == *old(by_pixels),
        rgba@ == frame.rgba@,
        call_ensures(AnimationEncoder::canvas, (&*old(by_frame),), canvas),
        call_ensures(AnimationEncoder::add_frame, (by_frame, frame, reply), frame_result),
        call_ensures(
            AnimationEncoder::add_rgba,
            (by_pixels, rgba, frame.duration, reply),
            pixels_result,
        ),
    ensures
        frame.canvas != canvas ==> {
            &&& frame_result == Err::<(), EncodeError>(
                EncodeError::UnexpectedFrameCanvas { actual: frame.canvas, expected: canvas },
            )
            &&& *final(by_frame) == *old(by_frame)
        },
        frame.canvas == canvas ==> {
            &&& frame_result is Ok <==> pixels_result is Ok
            &&& final(by_frame).position_ms() == final(by_pixels).position_ms()
            &&& final(by_frame).spec_frame_count() == final(by_pixels).spec_frame_count()
            &&& final(by_frame).spec_canvas() == final(by_pixels).spec_canvas()
            &&& final(by_frame).spec_config() == final(by_pixels).spec_config()
        },
        frame.canvas == canvas && frame_result is Err ==> {
            ||| frame_result->Err_0 == pixels_result->Err_0
            ||| frame_result->Err_0 is Libwebp && pixels_result->Err_0 is Libwebp
        },
{
}

/// An encoder without frames is not closed; one with frames returns the bytes that
/// libwebp assembled, or its message.
pub proof fn law_bytes_are_returned_once_there_are_frames(
    encoder: AnimationEncoder,
    reply: Result<Vec<u8>, Option<String>>,
    count: u32,
    closing: Result<i32, EncodeError>,
    result: Result<Vec<u8>, EncodeError>,
)
    requires
        call_ensures(AnimationEncoder::frame_count, (&encoder,), count),
        call_ensures(AnimationEncoder::final_timestamp, (&encoder,), closing),
        call_ensures(AnimationEncoder::finish, (encoder, reply), result),
    ensures
        closing is Ok <==> count > 0,
        count == 0 ==> closing == Err::<i32, EncodeError>(EncodeError::NoFrames),
        count == 0 ==> result == Err::<Vec<u8>, EncodeError>(EncodeError::NoFrames),
        count > 0 ==> match reply {
            Ok(bytes) => result == Ok::<Vec<u8>, EncodeError>(bytes),
            Err(Some(message)) => (result matches Err(EncodeError::Libwebp(text)) && text@
                == message@),
            Err(None) => (result matches Err(EncodeError::Libwebp(text)) && text@
                == "unknown error"@),
        },
{
}

/// The encoder's message is passed on as it is.
pub proof fn law_encoder_message_is_passed_on(message: Option<String>, text: String)
    requires
        call_ensures(encoder_error, (message,), text),
    ensures
        message is Some ==> text@ == message->Some_0@,
        message is None ==> text@ == "unknown error"@,
{
}

} // verus!
