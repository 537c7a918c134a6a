//! Laws of the transcode.

use vstd::prelude::*;

use crate::codec::decode::{
    AnimationDecoder, DecodeError, DecodeLimits, NativeFrame, NativeOpening, RawAnimationInfo,
};
use crate::codec::encode::{
    AnimationEncoder, AnimationEncoderOptions, EncodeError, EncoderReplies, EncoderSetup,
    FrameSubmission, MuxOptions, NativeAdd,
};
use crate::laws::{decoding, encoding, resizing};
use crate::model::{AnimationInfo, CanvasSize};
use crate::resize::{self, destination_size, ResizeError, ResizeOptions, ResizePlan};
use crate::transcode::{
    AnimationTranscodeOptions, Transcode, TranscodeError, TranscodeSetup, TranscodedAnimation,
};

verus! {

/// A request asks for the resize that it is made of, under the default limits, and
/// overrides nothing.
pub proof fn law_request_asks_for_the_resize_alone(
    resize: ResizeOptions,
    options: AnimationTranscodeOptions,
    limits: DecodeLimits,
)
    requires
        call_ensures(AnimationTranscodeOptions::new, (resize,), options),
        call_ensures(DecodeLimits::default, (), limits),
    ensures
        options.resize == resize,
        encoding::nothing_overridden(options.encoder_config, options.animation),
        options.decode_limits.max_input_bytes == limits.max_input_bytes,
        options.decode_limits.max_canvas_pixels == limits.max_canvas_pixels,
        options.decode_limits.max_frame_count == limits.max_frame_count,
        options.decode_limits.max_total_duration@ == limits.max_total_duration@,
        options.decode_limits.max_frame_rgba_bytes == limits.max_frame_rgba_bytes,
{
}

/// Every per-frame field that a request overrides is what the encoder of the
/// transcode is given, and every other field is as without overrides.
pub proof fn law_requested_configuration_is_used(
    input: &[u8],
    options: AnimationTranscodeOptions,
    opening: NativeOpening,
    setup: TranscodeSetup,
    encoder: EncoderSetup,
    plain_options: AnimationEncoderOptions,
    canvas: CanvasSize,
    plain: EncoderSetup,
)
    requires
        call_ensures(TranscodeSetup::new, (input, options, opening), Ok(setup)),
        call_ensures(TranscodeSetup::encoder, (&setup,), encoder),
        encoding::nothing_overridden(plain_options.config, plain_options.animation),
        call_ensures(AnimationEncoder::setup, (canvas, plain_options), Ok(plain)),
    ensures
        encoding::config_overridden(plain.config, options.encoder_config, encoder.config),
        encoder.animation == options.animation,
{
}

/// Every mux field that a request overrides is what the muxer is given, every other
/// field is as libwebp initialized it, and the loop count and the background color
/// are the numbers that libwebp reported of the source, whatever is requested.
pub proof fn law_muxer_is_given_source_metadata_and_requested_fields(
    input: &[u8],
    options: AnimationTranscodeOptions,
    raw: RawAnimationInfo,
    setup: TranscodeSetup,
    encoder: EncoderSetup,
    initial: MuxOptions,
    muxed: MuxOptions,
)
    requires
        call_ensures(
            TranscodeSetup::new,
            (input, options, NativeOpening::Opened(raw)),
            Ok(setup),
        ),
        call_ensures(TranscodeSetup::encoder, (&setup,), encoder),
        call_ensures(EncoderSetup::mux_options, (&encoder, Some(initial)), Ok(muxed)),
    ensures
        encoding::mux_overridden(initial, options.animation, muxed),
        muxed.loop_count == raw.loop_count,
        muxed.bgcolor == raw.bgcolor,
{
}

/// The output has the canvas that the resize derives for the source, and is
/// resampled with the requested filter; the source is what libwebp reported.
pub proof fn law_output_canvas_is_the_derived_one(
    input: &[u8],
    options: AnimationTranscodeOptions,
    raw: RawAnimationInfo,
    setup: TranscodeSetup,
    encoder: EncoderSetup,
    derived: CanvasSize,
)
    requires
        call_ensures(
            TranscodeSetup::new,
            (input, options, NativeOpening::Opened(raw)),
            Ok(setup),
        ),
        call_ensures(TranscodeSetup::encoder, (&setup,), encoder),
        call_ensures(
            destination_size,
            (
                CanvasSize { width: raw.canvas_width, height: raw.canvas_height },
                options.resize.maximum,
                options.resize.allow_upscale,
            ),
            derived,
        ),
    ensures
        encoder.width == derived.width,
        encoder.height == derived.height,
        setup.spec_plan().spec_source().width == raw.canvas_width,
        setup.spec_plan().spec_source().height == raw.canvas_height,
        setup.spec_plan().spec_destination() == derived,
        setup.spec_plan().spec_filter() == options.resize.filter,
        decoding::reports(setup.spec_source(), raw),
        setup.duration_limit() == options.decode_limits.max_total_duration,
        setup.wf(),
{
}

/// A transcode is set up exactly where the decoder opens, the resize is planned,
/// and the encoder is set up, on the derived canvas and with the source's metadata;
/// the first of these that fails is reported.
pub proof fn law_transcode_is_set_up_iff_its_stages_are(
    input: &[u8],
    options: AnimationTranscodeOptions,
    opening: NativeOpening,
    decoder: Result<AnimationDecoder, DecodeError>,
    plan: Result<ResizePlan, ResizeError>,
    encoder_options: AnimationEncoderOptions,
    encoder: Result<EncoderSetup, EncodeError>,
    result: Result<TranscodeSetup, TranscodeError>,
)
    requires
        call_ensures(AnimationDecoder::new, (input, options.decode_limits, opening), decoder),
        decoder is Ok ==> call_ensures(
            ResizePlan::new,
            (decoder->Ok_0.spec_info().canvas, options.resize),
            plan,
        ),
        encoder_options.config == options.encoder_config,
        encoder_options.animation == options.animation,
        decoder is Ok && plan is Ok ==> call_ensures(
            AnimationEncoder::setup,
            (plan->Ok_0.spec_destination(), encoder_options),
            encoder,
        ),
        call_ensures(TranscodeSetup::new, (input, options, opening), result),
    ensures
        decoder is Err ==> result == Err::<TranscodeSetup, TranscodeError>(
            TranscodeError::Decode(decoder->Err_0),
        ),
        decoder is Ok && plan is Err ==> result == Err::<TranscodeSetup, TranscodeError>(
            TranscodeError::Resize(plan->Err_0),
        ),
        decoder is Ok && plan is Ok && encoder is Err ==> result == Err::<
            TranscodeSetup,
            TranscodeError,
        >(TranscodeError::Encode(encoder->Err_0)),
        decoder is Ok && plan is Ok && encoder is Ok ==> result is Ok,
{
}

/// A transcode starts exactly where libwebp opens the encoder, with the setup's
/// source, resize, limit and configuration, and with nothing read or written.
pub proof fn law_transcode_starts_as_set_up(
    setup: TranscodeSetup,
    replies: EncoderReplies,
    encoder: EncoderSetup,
    result: Result<Transcode, TranscodeError>,
)
    requires
        setup.wf(),
        crate::codec::encode::setup_fault(
            setup.spec_plan().spec_destination(),
            setup.spec_options(),
        ) is None,
        call_ensures(TranscodeSetup::encoder, (&setup,), encoder),
        call_ensures(TranscodeSetup::start, (setup, replies), result),
    ensures
        replies.config_accepted == 0 ==> result == Err::<Transcode, TranscodeError>(
            TranscodeError::Encode(EncodeError::LibwebpConfigRejected),
        ),
        replies.config_accepted != 0 && replies.initial_mux is None ==> result == Err::<
            Transcode,
            TranscodeError,
        >(TranscodeError::Encode(EncodeError::EncoderOptionsInitialization)),
        replies.config_accepted != 0 && replies.initial_mux is Some && !replies.created ==> result
            == Err::<Transcode, TranscodeError>(
            TranscodeError::Encode(EncodeError::EncoderCreation),
        ),
        result is Ok <==> replies.config_accepted != 0 && replies.initial_mux is Some
            && replies.created,
        result is Ok ==> {
            &&& result->Ok_0.wf()
            &&& result->Ok_0.spec_source() == setup.spec_source()
            &&& result->Ok_0.spec_plan() == setup.spec_plan()
            &&& result->Ok_0.duration_limit() == setup.duration_limit()
            &&& result->Ok_0.spec_config() == encoder.config
            &&& result->Ok_0.spec_frame_count() == 0
            &&& result->Ok_0.read_ms() == 0
            &&& result->Ok_0.written_ms() == 0
            &&& result->Ok_0.pending() is None
        },
{
}

/// A frame that is read is handed to libwebp with the pixels that the plan makes of
/// it, filling the destination, at the time where the source was, and with the
/// transcode's configuration; its duration is kept until it is written.
pub proof fn law_read_frame_is_handed_on(
    transcode: &mut Transcode,
    rgba: &[u8],
    timestamp_ms: i32,
    submission: FrameSubmission,
    pixels: &[u8],
)
    requires
        old(transcode).wf(),
        old(transcode).pending() is None,
        0 <= old(transcode).read_ms() <= 0x7fff_ffff,
        call_ensures(
            Transcode::next_frame,
            (transcode, NativeFrame::Decoded { rgba, timestamp_ms }),
            Ok(Some(submission)),
        ),
        call_ensures(Transcode::pixels, (&*final(transcode),), pixels),
        old(transcode).spec_plan().spec_destination().height <= 0x7fff_ffff,
    ensures
        ({
            let source = old(transcode).spec_plan().spec_source();
            let destination = old(transcode).spec_plan().spec_destination();
            &&& submission.width == destination.width
            &&& submission.height == destination.height
            &&& submission.stride == 4 * destination.width
            &&& submission.stride * submission.height == pixels@.len()
            &&& submission.use_argb == 1
            &&& submission.timestamp_ms == old(transcode).read_ms()
            &&& submission.config == old(transcode).spec_config()
            &&& source == destination ==> pixels@ == rgba@
            &&& source != destination ==> resize::is_resampling(
                rgba@,
                source.width,
                source.height,
                destination.width,
                destination.height,
                old(transcode).spec_plan().spec_filter(),
                resizing::translucent(rgba@),
                pixels@,
            )
        }),
        final(transcode).wf(),
        final(transcode).pending() is Some,
        final(transcode).pending()->Some_0@ == (timestamp_ms - old(transcode).read_ms())
            * 1_000_000,
        final(transcode).read_ms() == timestamp_ms,
        old(transcode).read_ms() <= timestamp_ms,
        timestamp_ms * 1_000_000 <= old(transcode).duration_limit()@,
        final(transcode).written_ms() == old(transcode).written_ms(),
        final(transcode).spec_frame_count() == old(transcode).spec_frame_count(),
        final(transcode).spec_source() == old(transcode).spec_source(),
        final(transcode).spec_plan() == old(transcode).spec_plan(),
        final(transcode).duration_limit() == old(transcode).duration_limit(),
        final(transcode).spec_config() == old(transcode).spec_config(),
{
    resizing::lemma_translucent(rgba@);
    let destination = old(transcode).spec_plan().spec_destination();
    let (w, h) = (destination.width as int, destination.height as int);
    assert((4 * w) * h == 4 * (w * h)) by (nonlinear_arith);
}

/// A frame is refused exactly where time runs backwards or past the limit, or a row
/// of the output is too long; the end and a failed frame are passed on.
pub proof fn law_frames_are_refused_for_timing_or_stride(
    transcode: &mut Transcode,
    reply: NativeFrame<'_>,
    result: Result<Option<FrameSubmission>, TranscodeError>,
)
    requires
        old(transcode).wf(),
        old(transcode).pending() is None,
        call_ensures(Transcode::next_frame, (transcode, reply), result),
    ensures
        reply is Exhausted ==> result == Ok::<Option<FrameSubmission>, TranscodeError>(None),
        reply is Failed ==> result == Err::<Option<FrameSubmission>, TranscodeError>(
            TranscodeError::Decode(DecodeError::FrameDecode),
        ),
        reply matches NativeFrame::Decoded { timestamp_ms, .. } ==> {
            if timestamp_ms < old(transcode).read_ms() {
                result == Err::<Option<FrameSubmission>, TranscodeError>(
                    TranscodeError::Decode(DecodeError::InvalidTimestamp),
                )
            } else if timestamp_ms * 1_000_000 > old(transcode).duration_limit()@
                && timestamp_ms >= 0 {
                result == Err::<Option<FrameSubmission>, TranscodeError>(
                    TranscodeError::Decode(
                        DecodeError::LimitExceeded {
                            limit: "total duration in milliseconds",
                            actual: timestamp_ms as u64,
                            maximum: (old(transcode).duration_limit()@ / 1_000_000) as u64,
                        },
                    ),
                )
            } else if 4 * old(transcode).spec_plan().spec_destination().width > 0x7fff_ffff {
                result == Err::<Option<FrameSubmission>, TranscodeError>(
                    TranscodeError::Encode(
                        EncodeError::InvalidCanvasSize(
                            old(transcode).spec_plan().spec_destination(),
                        ),
                    ),
                )
            } else {
                result matches Ok(Some(_))
            }
        },
        !(reply is Decoded) ==> *final(transcode) == *old(transcode),
{
}

/// A frame that libwebp takes counts, and the output then ends where the source was
/// read to; otherwise libwebp's failure is reported.
pub proof fn law_written_frame_counts(
    transcode: &mut Transcode,
    reply: NativeAdd,
    result: Result<(), TranscodeError>,
)
    requires
        old(transcode).wf(),
        old(transcode).pending() is Some,
        call_ensures(Transcode::frame_added, (transcode, reply), result),
    ensures
        reply is PictureInitializationFailed ==> result == Err::<(), TranscodeError>(
            TranscodeError::Encode(EncodeError::PictureInitialization),
        ),
        reply is PictureImportFailed ==> result == Err::<(), TranscodeError>(
            TranscodeError::Encode(EncodeError::PictureImport),
        ),
        reply is Rejected ==> (result matches Err(TranscodeError::Encode(EncodeError::Libwebp(text)))
            && match reply->Rejected_0 {
            Some(message) => text@ == message@,
            None => text@ == "unknown error"@,
        }),
        reply is Added && old(transcode).spec_frame_count() == u32::MAX ==> result == Err::<
            (),
            TranscodeError,
        >(TranscodeError::Encode(EncodeError::FrameCountOverflow)),
        reply is Added && old(transcode).spec_frame_count() < u32::MAX ==> {
            &&& result is Ok
            &&& final(transcode).wf()
            &&& final(transcode).spec_frame_count() == old(transcode).spec_frame_count() + 1
            &&& final(transcode).written_ms() == old(transcode).read_ms()
            &&& final(transcode).read_ms() == old(transcode).read_ms()
            &&& final(transcode).pending() is None
            &&& final(transcode).spec_source() == old(transcode).spec_source()
            &&& final(transcode).spec_plan() == old(transcode).spec_plan()
            &&& final(transcode).duration_limit() == old(transcode).duration_limit()
            &&& final(transcode).spec_config() == old(transcode).spec_config()
        },
{
}

/// A transcode is completed exactly where as many frames were written as the source
/// declares, and at least one, and libwebp assembles. Then the output ends where the
/// source does, and the result holds the bytes, the source's metadata, the output's
/// canvas, the number of frames, and how long they last together.
pub proof fn law_completed_transcode_tells_what_was_done(
    transcode: Transcode,
    reply: Result<Vec<u8>, Option<String>>,
    source: &AnimationInfo,
    closing: Result<i32, TranscodeError>,
    result: Result<TranscodedAnimation, TranscodeError>,
)
    requires
        transcode.wf(),
        transcode.pending() is None,
        0 <= transcode.read_ms() <= 0x7fff_ffff,
        call_ensures(Transcode::source, (&transcode,), source),
        call_ensures(Transcode::final_timestamp, (&transcode,), closing),
        call_ensures(Transcode::finish, (transcode, reply), result),
    ensures
        transcode.spec_frame_count() != source.frame_count ==> {
            &&& closing == Err::<i32, TranscodeError>(
                TranscodeError::FrameCountMismatch {
                    decoded: transcode.spec_frame_count(),
                    declared: source.frame_count,
                },
            )
            &&& result is Err && result->Err_0 == closing->Err_0
        },
        transcode.spec_frame_count() == source.frame_count && source.frame_count == 0 ==> {
            &&& closing == Err::<i32, TranscodeError>(
                TranscodeError::Encode(EncodeError::NoFrames),
            )
            &&& result is Err && result->Err_0 == closing->Err_0
        },
        transcode.spec_frame_count() == source.frame_count && source.frame_count > 0 ==> {
            &&& closing is Ok
            &&& closing->Ok_0 == transcode.read_ms()
            &&& match reply {
                Ok(bytes) => {
                    &&& result is Ok
                    &&& result->Ok_0.bytes == bytes
                    &&& result->Ok_0.input == *source
                    &&& result->Ok_0.output_canvas == transcode.spec_plan().spec_destination()
                    &&& result->Ok_0.frame_count == source.frame_count
                    &&& result->Ok_0.total_duration@ == closing->Ok_0 * 1_000_000
                },
                Err(Some(message)) => (result matches Err(
                    TranscodeError::Encode(EncodeError::Libwebp(text)),
                ) && text@ == message@),
                Err(None) => (result matches Err(
                    TranscodeError::Encode(EncodeError::Libwebp(text)),
                ) && text@ == "unknown error"@),
            }
        },
{
}

/// A source frame has as many bytes as its canvas needs, and the source is told as
/// it was set up.
pub proof fn law_transcode_tells_its_source(
    transcode: Transcode,
    source: &AnimationInfo,
    bytes: usize,
)
    requires
        call_ensures(Transcode::source, (&transcode,), source),
        call_ensures(Transcode::frame_rgba_bytes, (&transcode,), bytes),
    ensures
        *source == transcode.spec_source(),
        bytes == 4 * (source.canvas.width * source.canvas.height),
{
}

} // verus!
