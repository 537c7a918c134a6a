//! The sequential decode-resize-encode convenience pipeline.
//!
//! The native codec decodes and encodes between the steps here. Each step says
//! what it is asked next; its replies are handed back as plain values.

use vstd::prelude::*;

use crate::codec::decode::{
    self, AnimationDecoder, DecodeError, DecodeLimits, DemuxFrame, NativeFrame, NativeOpening,
    RawAnimationInfo,
};
use crate::codec::encode::{
    self, AnimationEncoder, AnimationEncoderOptions, AnimationMuxOverrides, EncodeError,
    EncoderConfig, EncoderConfigOverrides, EncoderReplies, EncoderSetup, FrameSubmission,
    MuxOptions, NativeAdd,
};
use crate::model::{AnimationInfo, CanvasSize};
use crate::resize::{self, ResizeError, ResizeOptions, ResizePlan, ResizeWorkspace};
use crate::text::{self, push_decimal};
use crate::time::{self, Duration, NANOS_PER_SEC};

verus! {

/// Compression and resize inputs for a [`Transcode`].
///
/// The source animation's loop count and raw background color are always
/// copied to the output. Product-level quality defaults, output-selection
/// policies, and process-wide resource budgets belong to the caller.
#[derive(Clone, Copy, Debug)]
pub struct AnimationTranscodeOptions {
    /// Limits for the one input animation sequence.
    pub decode_limits: DecodeLimits,
    /// Full-canvas resize operation derived from the source animation canvas.
    pub resize: ResizeOptions,
    /// Explicit per-frame libwebp configuration overrides.
    pub encoder_config: EncoderConfigOverrides,
    /// Explicit libwebp animation-mux configuration overrides.
    pub animation: AnimationMuxOverrides,
}

impl AnimationTranscodeOptions {
    /// Creates a request with the supplied resize operation and no compression
    /// overrides beyond libwebp's initialized defaults.
    pub fn new(resize: ResizeOptions) -> (options: Self)
        ensures
            options.decode_limits.max_input_bytes == 256 * 1024 * 1024,
            options.decode_limits.max_canvas_pixels == 100_000_000,
            options.decode_limits.max_frame_count == 10_000,
            options.decode_limits.max_total_duration@ == 60 * 60 * NANOS_PER_SEC,
            options.decode_limits.max_frame_rgba_bytes == 400 * 1024 * 1024,
            options.resize == resize,
            options.encoder_config == encode::no_config_overrides(),
            options.animation == encode::no_mux_overrides(),
    {
        AnimationTranscodeOptions {
            decode_limits: DecodeLimits::default(),
            resize,
            encoder_config: EncoderConfigOverrides::default(),
            animation: AnimationMuxOverrides::default(),
        }
    }
}

/// Result of a sequential animated-WebP transcode.
#[derive(Clone, Debug, PartialEq, Eq)]
pub struct TranscodedAnimation {
    /// Newly encoded animated WebP bytes.
    pub bytes: Vec<u8>,
    /// Metadata read from the stored source sequence and retained by encoding.
    pub input: AnimationInfo,
    /// Canvas dimensions of the encoded sequence.
    pub output_canvas: CanvasSize,
    /// Number of frames decoded and encoded.
    pub frame_count: u32,
    /// Sum of the source frame durations passed through to the encoder.
    pub total_duration: Duration,
}

/// Failure while transcoding an animated WebP sequence.
#[derive(Clone, Debug, PartialEq)]
pub enum TranscodeError {
    /// The source animation could not be decoded.
    Decode(DecodeError),
    /// The source or destination resize operation could not be created/applied.
    Resize(ResizeError),
    /// The destination encoder could not be created or finished.
    Encode(EncodeError),
    /// The accumulated frame durations overflowed [`Duration`].
    DurationOverflow,
    /// The number of processed frames overflowed `u32`.
    FrameCountOverflow,
    /// The decoder produced a different number of frames than the source metadata declared.
    FrameCountMismatch {
        /// Number of frames actually produced by the decoder.
        decoded: u32,
        /// Number of frames declared by the source metadata.
        declared: u32,
    },
}

impl TranscodeError {
    /// The message that [`Self::message`] gives, with `quality` as the decimal
    /// text of a rejected quality.
    pub open spec fn text(self, quality: Seq<char>) -> Seq<char> {
        match self {
            TranscodeError::Decode(error) => "animated WebP decode failed: "@ + error.text(),
            TranscodeError::Resize(error) => "animated WebP resize failed: "@ + error.text(),
            TranscodeError::Encode(error) => "animated WebP encode failed: "@ + error.text(quality),
            TranscodeError::DurationOverflow => "animated WebP duration overflows Duration"@,
            TranscodeError::FrameCountOverflow => "animated WebP frame count overflows u32"@,
            TranscodeError::FrameCountMismatch { decoded, declared } => "decoder produced "@
                + text::decimal(decoded as nat) + " frames; source declared "@
                + text::decimal(declared as nat),
        }
    }

    /// Describes the failure in a sentence fragment.
    ///
    /// `quality` is the decimal text of a rejected quality; it is read only for
    /// that failure.
    pub fn message(&self, quality: &str) -> (message: String)
        ensures
            message@ == self.text(quality@),
    {
        match self {
            TranscodeError::Decode(error) => {
                let mut out = String::from_str("animated WebP decode failed: ");
                out.append(error.message().as_str());
                out
            },
            TranscodeError::Resize(error) => {
                let mut out = String::from_str("animated WebP resize failed: ");
                out.append(error.message().as_str());
                out
            },
            TranscodeError::Encode(error) => {
                let mut out = String::from_str("animated WebP encode failed: ");
                out.append(error.message(quality).as_str());
                out
            },
            TranscodeError::DurationOverflow => String::from_str(
                "animated WebP duration overflows Duration",
            ),
            TranscodeError::FrameCountOverflow => String::from_str(
                "animated WebP frame count overflows u32",
            ),
            TranscodeError::FrameCountMismatch { decoded, declared } => {
                let mut out = String::from_str("decoder produced ");
                push_decimal(&mut out, *decoded as u64);
                out.append(" frames; source declared ");
                push_decimal(&mut out, *declared as u64);
                out
            },
        }
    }
}

/// The encoder options of a transcode: the metadata of the source, and the
/// requested overrides.
pub open spec fn output_options(
    source: AnimationInfo,
    options: AnimationTranscodeOptions,
) -> AnimationEncoderOptions {
    AnimationEncoderOptions {
        loop_count: source.loop_count,
        background_color: source.background_color,
        config: options.encoder_config,
        animation: options.animation,
    }
}

/// The reason not to set up a transcode of a decoded source, if there is one.
pub open spec fn output_fault(
    source: AnimationInfo,
    options: AnimationTranscodeOptions,
) -> Option<TranscodeError> {
    match resize::planned_destination(source.canvas, options.resize) {
        Err(error) => Some(TranscodeError::Resize(error)),
        Ok(destination) => match encode::setup_fault(
            destination,
            output_options(source, options),
        ) {
            Some(error) => Some(TranscodeError::Encode(error)),
            None => None,
        },
    }
}

/// A transcode whose decoder is open and whose encoder is not.
pub struct TranscodeSetup {
    decoder: AnimationDecoder,
    plan: ResizePlan,
    workspace: ResizeWorkspace,
    options: AnimationEncoderOptions,
    encoder: EncoderSetup,
}

impl TranscodeSetup {
    /// Metadata of the source.
    pub closed spec fn spec_source(self) -> AnimationInfo {
        self.decoder.spec_info()
    }

    /// The resize operation between source and output.
    pub closed spec fn spec_plan(self) -> ResizePlan {
        self.plan
    }

    /// The options of the output's encoder.
    pub closed spec fn spec_options(self) -> AnimationEncoderOptions {
        self.options
    }

    /// The configured maximum of the total duration.
    pub closed spec fn duration_limit(self) -> Duration {
        self.decoder.duration_limit()
    }

    /// What the native encoder is to be given.
    pub closed spec fn spec_encoder(self) -> EncoderSetup {
        self.encoder
    }

    /// The stages fit together, and nothing has been read.
    pub closed spec fn wf(self) -> bool {
        &&& self.decoder.at_start()
        &&& self.plan.spec_source() == self.decoder.spec_info().canvas
        &&& self.workspace.wf()
        &&& self.workspace.spec_plan() == self.plan
        &&& encode::setup_fault(self.plan.spec_destination(), self.options) is None
        &&& self.encoder == encode::accepted_setup(self.plan.spec_destination(), self.options)
    }

    /// Opens the decoder on an input, where the native decoder gave `opening`,
    /// plans the resize of its canvas, and settles what the encoder is given.
    pub fn new(input: &[u8], options: AnimationTranscodeOptions, opening: NativeOpening) -> (result:
        Result<Self, TranscodeError>)
        ensures
            match decode::opening_fault(input@, options.decode_limits, opening) {
                Some(error) => result == Err::<Self, TranscodeError>(TranscodeError::Decode(error)),
                None => exists|source: AnimationInfo|
                    {
                        &&& #[trigger] decode::info_matches(source, opening->Opened_0)
                        &&& match output_fault(source, options) {
                            Some(error) => result == Err::<Self, TranscodeError>(error),
                            None => result matches Ok(setup) && {
                                &&& setup.wf()
                                &&& setup.spec_source() == source
                                &&& setup.spec_plan().spec_source() == source.canvas
                                &&& setup.spec_plan().spec_destination()
                                    == resize::planned_destination(
                                    source.canvas,
                                    options.resize,
                                )->Ok_0
                                &&& setup.spec_plan().spec_filter() == options.resize.filter
                                &&& setup.spec_options() == output_options(source, options)
                                &&& setup.spec_encoder() == encode::accepted_setup(
                                    setup.spec_plan().spec_destination(),
                                    setup.spec_options(),
                                )
                                &&& setup.duration_limit()
                                    == options.decode_limits.max_total_duration
                            },
                        }
                    },
            },
    {
        let decoder = match AnimationDecoder::new(input, options.decode_limits, opening) {
            Ok(decoder) => decoder,
            Err(error) => return Err(TranscodeError::Decode(error)),
        };
        let source = *decoder.info();
        assert(decode::info_matches(source, opening->Opened_0));
        let plan = match ResizePlan::new(source.canvas, options.resize) {
            Ok(plan) => plan,
            Err(error) => return Err(TranscodeError::Resize(error)),
        };
        let workspace = match plan.workspace() {
            Ok(workspace) => workspace,
            Err(error) => return Err(TranscodeError::Resize(error)),
        };
        let mut encoder_options = AnimationEncoderOptions::from_animation_info(source);
        encoder_options.config = options.encoder_config;
        encoder_options.animation = options.animation;
        let encoder = match AnimationEncoder::setup(plan.destination(), encoder_options) {
            Ok(encoder) => encoder,
            Err(error) => return Err(TranscodeError::Encode(error)),
        };
        Ok(TranscodeSetup { decoder, plan, workspace, options: encoder_options, encoder })
    }

    /// Returns what the native encoder is to be given.
    pub fn encoder(&self) -> (encoder: EncoderSetup)
        ensures
            encoder == self.spec_encoder(),
    {
        self.encoder
    }

    /// Starts the transcode, where the native encoder gave `replies` when it
    /// was opened.
    pub fn start(self, replies: EncoderReplies) -> (result: Result<Transcode, TranscodeError>)
        requires
            self.wf(),
        ensures
            match encode::encoder_fault(
                self.spec_plan().spec_destination(),
                self.spec_options(),
                replies,
            ) {
                Some(error) => result == Err::<Transcode, TranscodeError>(
                    TranscodeError::Encode(error),
                ),
                None => result matches Ok(transcode) && {
                    &&& transcode.wf()
                    &&& transcode.pending() is None
                    &&& transcode.spec_source() == self.spec_source()
                    &&& transcode.spec_plan() == self.spec_plan()
                    &&& transcode.duration_limit() == self.duration_limit()
                    &&& transcode.spec_config() == self.spec_encoder().config
                    &&& transcode.read_ms() == 0
                    &&& transcode.written_ms() == 0
                    &&& transcode.spec_frame_count() == 0
                },
            },
    {
        let encoder = match AnimationEncoder::new(self.plan.destination(), self.options, replies) {
            Ok(encoder) => encoder,
            Err(error) => return Err(TranscodeError::Encode(error)),
        };
        Ok(
            Transcode {
                decoder: self.decoder,
                plan: self.plan,
                workspace: self.workspace,
                encoder,
                frame_count: 0,
                total_duration: Duration::zero(),
                pending: None,
            },
        )
    }
}

/// A sequential transcode of exactly one stored animated WebP sequence.
///
/// Frames are decoded and encoded in stored order. The operation holds one
/// decoded frame and one reusable resize destination at a time; it does not
/// buffer the whole animation. Output is always encoded, including when the
/// resize operation is a no-op. Callers decide whether a source should be
/// passed through or whether an encoded result should replace it.
pub struct Transcode {
    decoder: AnimationDecoder,
    plan: ResizePlan,
    workspace: ResizeWorkspace,
    encoder: AnimationEncoder,
    frame_count: u32,
    total_duration: Duration,
    pending: Option<Duration>,
}

impl Transcode {
    /// Metadata of the source.
    pub closed spec fn spec_source(self) -> AnimationInfo {
        self.decoder.spec_info()
    }

    /// The resize operation between source and output.
    pub closed spec fn spec_plan(self) -> ResizePlan {
        self.plan
    }

    /// The configured maximum of the total duration.
    pub closed spec fn duration_limit(self) -> Duration {
        self.decoder.duration_limit()
    }

    /// The configuration that frames are encoded with.
    pub closed spec fn spec_config(self) -> EncoderConfig {
        self.encoder.spec_config()
    }

    /// Duration of the frame that was read and not yet written, if there is
    /// one.
    pub closed spec fn pending(self) -> Option<Duration> {
        self.pending
    }

    /// The pixels of the frame that was read last, resized.
    pub closed spec fn spec_pixels(self) -> Seq<u8> {
        self.workspace.spec_pixels()
    }

    /// End of the last frame read, in milliseconds.
    pub closed spec fn read_ms(self) -> int {
        self.decoder.position_ms()
    }

    /// End of the last frame written, in milliseconds.
    pub closed spec fn written_ms(self) -> int {
        self.encoder.position_ms()
    }

    /// The number of frames written.
    pub closed spec fn spec_frame_count(self) -> u32 {
        self.frame_count
    }

    /// The stages fit together, and the output is as long as what was read of
    /// the source, short of a pending frame.
    pub closed spec fn wf(self) -> bool {
        &&& self.plan.spec_source() == self.decoder.spec_info().canvas
        &&& self.workspace.wf()
        &&& self.workspace.spec_plan() == self.plan
        &&& self.encoder.spec_canvas() == self.plan.spec_destination()
        &&& encode::encodable(self.encoder.spec_canvas())
        &&& self.encoder.spec_frame_count() == self.frame_count
        &&& 0 <= self.encoder.position_ms() <= self.decoder.position_ms() <= i32::MAX
        &&& self.total_duration@ == time::millis_to_nanos(self.decoder.position_ms())
        &&& self.decoder.elapsed() == self.total_duration@
        &&& match self.pending {
            Some(duration) => {
                &&& duration@ == time::millis_to_nanos(
                    self.decoder.position_ms() - self.encoder.position_ms(),
                )
                &&& 4 * self.encoder.spec_canvas().width <= i32::MAX
            },
            None => self.encoder.position_ms() == self.decoder.position_ms(),
        }
    }

    /// The transcode is `after` once it has read and resized the frame `rgba`
    /// that ends at `timestamp_ms`, to be written as `submission` says.
    pub open spec fn reads(
        self,
        rgba: Seq<u8>,
        timestamp_ms: int,
        submission: FrameSubmission,
        after: Self,
    ) -> bool {
        &&& decode::timestamp_fault(self.read_ms(), self.duration_limit(), timestamp_ms) is None
        &&& submission == encode::frame_submission(
            self.spec_plan().spec_destination(),
            self.read_ms(),
            self.spec_config(),
        )
        &&& after.wf()
        &&& after.same_job(self)
        &&& self.spec_plan().transforms(rgba, after.spec_pixels())
        &&& after.read_ms() == timestamp_ms
        &&& after.written_ms() == self.written_ms()
        &&& after.spec_frame_count() == self.spec_frame_count()
        &&& after.pending() matches Some(duration) && duration@ == time::millis_to_nanos(
            timestamp_ms - self.read_ms(),
        )
    }

    /// The transcode is `after` once the pending frame has been written.
    pub open spec fn writes(self, after: Self) -> bool {
        &&& after.wf()
        &&& after.same_job(self)
        &&& after.pending() is None
        &&& after.read_ms() == self.read_ms()
        &&& after.written_ms() == self.read_ms()
        &&& after.spec_frame_count() == self.spec_frame_count() + 1
    }

    /// The two have the same source, resize operation, limit and encoder
    /// configuration.
    pub open spec fn same_job(self, other: Self) -> bool {
        &&& self.spec_source() == other.spec_source()
        &&& self.spec_plan() == other.spec_plan()
        &&& self.duration_limit() == other.duration_limit()
        &&& self.spec_config() == other.spec_config()
    }

    /// Returns metadata for the source animation.
    pub fn source(&self) -> (info: &AnimationInfo)
        ensures
            *info == self.spec_source(),
    {
        self.decoder.info()
    }

    /// Returns the length in bytes of one full-canvas RGBA frame of the source.
    pub fn frame_rgba_bytes(&self) -> (bytes: usize)
        ensures
            bytes == self.spec_source().canvas.rgba_len(),
    {
        self.decoder.frame_rgba_bytes()
    }

    /// Returns the resized pixels of the frame that was read last.
    pub fn pixels(&self) -> (pixels: &[u8])
        ensures
            pixels@ == self.spec_pixels(),
    {
        self.workspace.pixels()
    }

    /// Takes the next frame from what the native decoder gave, resizes it, and
    /// settles how the native encoder is given [`Self::pixels`].
    ///
    /// Returns `None` after every frame in the stored sequence was read. The
    /// frame starts in the output where it starts in the source. Once it is
    /// read and resized, only an output whose rows are too long for the native
    /// encoder is refused.
    pub fn next_frame(&mut self, reply: NativeFrame<'_>) -> (result: Result<
        Option<FrameSubmission>,
        TranscodeError,
    >)
        requires
            old(self).wf(),
            old(self).pending() is None,
            reply matches NativeFrame::Decoded { rgba, .. } ==> rgba@.len() == old(
                self,
            ).spec_source().canvas.rgba_len(),
        ensures
            match reply {
                NativeFrame::Exhausted => {
                    &&& result == Ok::<Option<FrameSubmission>, TranscodeError>(None)
                    &&& *final(self) == *old(self)
                },
                NativeFrame::Failed => {
                    &&& result == Err::<Option<FrameSubmission>, TranscodeError>(
                        TranscodeError::Decode(DecodeError::FrameDecode),
                    )
                    &&& *final(self) == *old(self)
                },
                NativeFrame::Decoded { rgba, timestamp_ms } => match decode::timestamp_fault(
                    old(self).read_ms(),
                    old(self).duration_limit(),
                    timestamp_ms as int,
                ) {
                    Some(error) => {
                        &&& result == Err::<Option<FrameSubmission>, TranscodeError>(
                            TranscodeError::Decode(error),
                        )
                        &&& *final(self) == *old(self)
                    },
                    None => if 4 * old(self).spec_plan().spec_destination().width > i32::MAX {
                        result == Err::<Option<FrameSubmission>, TranscodeError>(
                            TranscodeError::Encode(
                                EncodeError::InvalidCanvasSize(
                                    old(self).spec_plan().spec_destination(),
                                ),
                            ),
                        )
                    } else {
                        result matches Ok(Some(submission)) && old(self).reads(
                            rgba@,
                            timestamp_ms as int,
                            submission,
                            *final(self),
                        )
                    },
                },
            },
    {
        let frame = match self.decoder.next_frame(reply) {
            Ok(Some(frame)) => frame,
            Ok(None) => return Ok(None),
            Err(error) => return Err(TranscodeError::Decode(error)),
        };
        self.total_duration =
        match self.total_duration.checked_add(frame.duration) {
            Some(total_duration) => total_duration,
            None => return Err(TranscodeError::DurationOverflow),
        };
        let mut rgba = frame.rgba;
        assert(rgba.len() <= usize::MAX);
        if let Err(error) = self.workspace.transform_rgba(rgba.as_mut_slice()) {
            return Err(TranscodeError::Resize(error));
        }
        match self.encoder.submit_rgba(self.workspace.pixels(), frame.duration) {
            Ok(submission) => {
                self.pending = Some(frame.duration);
                Ok(Some(submission))
            },
            Err(error) => Err(TranscodeError::Encode(error)),
        }
    }

    /// Records what became of the pending frame in the native encoder.
    pub fn frame_added(&mut self, reply: NativeAdd) -> (result: Result<(), TranscodeError>)
        requires
            old(self).wf(),
            old(self).pending() is Some,
        ensures
            final(self).same_job(*old(self)),
            final(self).read_ms() == old(self).read_ms(),
            final(self).spec_pixels() == old(self).spec_pixels(),
            match reply {
                NativeAdd::PictureInitializationFailed => {
                    &&& result == Err::<(), TranscodeError>(
                        TranscodeError::Encode(EncodeError::PictureInitialization),
                    )
                    &&& *final(self) == *old(self)
                },
                NativeAdd::PictureImportFailed => {
                    &&& result == Err::<(), TranscodeError>(
                        TranscodeError::Encode(EncodeError::PictureImport),
                    )
                    &&& *final(self) == *old(self)
                },
                NativeAdd::Rejected(message) => {
                    &&& result matches Err(TranscodeError::Encode(EncodeError::Libwebp(text)))
                        && text@ == encode::error_text(message)
                    &&& *final(self) == *old(self)
                },
                NativeAdd::Added => if old(self).spec_frame_count() < u32::MAX {
                    result is Ok && old(self).writes(*final(self))
                } else {
                    result == Err::<(), TranscodeError>(
                        TranscodeError::Encode(EncodeError::FrameCountOverflow),
                    )
                },
            },
    {
        let duration = match self.pending {
            Some(duration) => duration,
            None => Duration::zero(),
        };
        if let Err(error) = self.encoder.add_rgba(self.workspace.pixels(), duration, reply) {
            return Err(TranscodeError::Encode(error));
        }
        self.pending = None;
        self.frame_count =
        match self.frame_count.checked_add(1) {
            Some(frame_count) => frame_count,
            None => return Err(TranscodeError::FrameCountOverflow),
        };
        Ok(())
    }

    /// The reason not to complete the output, if there is one.
    pub open spec fn completion_fault(self) -> Option<TranscodeError> {
        if self.spec_frame_count() != self.spec_source().frame_count {
            Some(
                TranscodeError::FrameCountMismatch {
                    decoded: self.spec_frame_count(),
                    declared: self.spec_source().frame_count,
                },
            )
        } else if self.spec_frame_count() == 0 {
            Some(TranscodeError::Encode(EncodeError::NoFrames))
        } else {
            None
        }
    }

    /// The timestamp that ends the last frame, with which libwebp is told that
    /// no more frames follow. The output ends where the source does.
    pub fn final_timestamp(&self) -> (result: Result<i32, TranscodeError>)
        requires
            self.wf(),
            self.pending() is None,
        ensures
            match self.completion_fault() {
                Some(error) => result == Err::<i32, TranscodeError>(error),
                None => result == Ok::<i32, TranscodeError>(self.read_ms() as i32),
            },
    {
        let source = *self.decoder.info();
        if self.frame_count != source.frame_count {
            return Err(
                TranscodeError::FrameCountMismatch {
                    decoded: self.frame_count,
                    declared: source.frame_count,
                },
            );
        }
        match self.encoder.final_timestamp() {
            Ok(timestamp_ms) => Ok(timestamp_ms),
            Err(error) => Err(TranscodeError::Encode(error)),
        }
    }

    /// The transcode ends with `result` where libwebp answered the final
    /// timestamp with `reply`.
    pub open spec fn finishes(
        self,
        reply: Result<Vec<u8>, Option<String>>,
        result: Result<TranscodedAnimation, TranscodeError>,
    ) -> bool {
        match (self.completion_fault(), reply) {
            (Some(error), _) => result == Err::<TranscodedAnimation, TranscodeError>(error),
            (None, Err(message)) => result matches Err(
                TranscodeError::Encode(EncodeError::Libwebp(text)),
            ) && text@ == encode::error_text(message),
            (None, Ok(bytes)) => result matches Ok(animation) && {
                &&& animation.bytes == bytes
                &&& animation.input == self.spec_source()
                &&& animation.output_canvas == self.spec_plan().spec_destination()
                &&& animation.frame_count == self.spec_source().frame_count
                &&& animation.total_duration@ == time::millis_to_nanos(self.read_ms())
            },
        }
    }

    /// Returns the transcoded animation, where libwebp answered with `reply` to
    /// the final timestamp: the assembled bytes, or that it could not flush or
    /// assemble, with a message if it had one.
    pub fn finish(self, reply: Result<Vec<u8>, Option<String>>) -> (result: Result<
        TranscodedAnimation,
        TranscodeError,
    >)
        requires
            self.wf(),
            self.pending() is None,
        ensures
            self.finishes(reply, result),
    {
        if let Err(error) = self.final_timestamp() {
            return Err(error);
        }
        let input = *self.decoder.info();
        match self.encoder.finish(reply) {
            Ok(bytes) => Ok(
                TranscodedAnimation {
                    bytes,
                    input,
                    output_canvas: self.plan.destination(),
                    frame_count: self.frame_count,
                    total_duration: self.total_duration,
                },
            ),
            Err(error) => Err(TranscodeError::Encode(error)),
        }
    }
}

/// The loop count and the background color of the source are those of the
/// output, whatever overrides are requested: the muxer is given the very numbers
/// that the native decoder reported.
pub proof fn law_metadata_copied(
    raw: RawAnimationInfo,
    source: AnimationInfo,
    options: AnimationTranscodeOptions,
    canvas: CanvasSize,
    initial: MuxOptions,
)
    requires
        decode::info_matches(source, raw),
    ensures
        ({
            let setup = encode::accepted_setup(canvas, output_options(source, options));
            let muxed = encode::configured_mux(
                initial,
                setup.loop_count,
                setup.background_color,
                setup.animation,
            );
            muxed.loop_count == raw.loop_count && muxed.bgcolor == raw.bgcolor
        }),
{
}

/// A transcode passes through `states` while it reads and writes `frames` that
/// end at `timestamps` in the source; `pending` are the states between reading
/// and writing, and `submissions` what the native encoder is given.
pub open spec fn transcode_run(
    states: Seq<Transcode>,
    frames: Seq<Seq<u8>>,
    timestamps: Seq<int>,
    submissions: Seq<FrameSubmission>,
    pending: Seq<Transcode>,
) -> bool {
    &&& states.len() == frames.len() + 1
    &&& timestamps.len() == frames.len()
    &&& submissions.len() == frames.len()
    &&& pending.len() == frames.len()
    &&& forall|i: int|
        0 <= i < frames.len() ==> (#[trigger] states[i]).reads(
            frames[i],
            timestamps[i],
            submissions[i],
            pending[i],
        ) && pending[i].writes(states[i + 1])
}

/// Order, durations and number of the frames are preserved: each frame starts in
/// the output where the one before it ends in the source, keeps its duration, and
/// has its pixels made from that frame of the source; the output ends where the
/// source does and has as many frames.
pub proof fn law_timing_preserved(
    states: Seq<Transcode>,
    frames: Seq<Seq<u8>>,
    timestamps: Seq<int>,
    submissions: Seq<FrameSubmission>,
    pending: Seq<Transcode>,
)
    requires
        transcode_run(states, frames, timestamps, submissions, pending),
        states[0].read_ms() == 0,
        states[0].written_ms() == 0,
        states[0].spec_frame_count() == 0,
    ensures
        states.last().same_job(states[0]),
        states.last().spec_frame_count() == frames.len(),
        states.last().written_ms() == states.last().read_ms(),
        frames.len() > 0 ==> states.last().written_ms() == timestamps.last(),
        forall|i: int|
            0 <= i < frames.len() ==> (#[trigger] submissions[i]).timestamp_ms == if i == 0 {
                0
            } else {
                timestamps[i - 1]
            },
        forall|i: int|
            0 <= i < frames.len() ==> states[0].spec_plan().transforms(
                frames[i],
                (#[trigger] pending[i]).spec_pixels(),
            ) && pending[i].pending() is Some && pending[i].pending()->Some_0@
                == time::millis_to_nanos(timestamps[i] - submissions[i].timestamp_ms),
{
    assert forall|i: int| 0 <= i < frames.len() implies (#[trigger] submissions[i]).timestamp_ms
        == if i == 0 {
        0
    } else {
        timestamps[i - 1]
    } by {
        assert(states[i].reads(frames[i], timestamps[i], submissions[i], pending[i]));
        if i > 0 {
            lemma_step(states, frames, timestamps, submissions, pending, i - 1);
        }
    }
    assert forall|i: int| 0 <= i < frames.len() implies states[0].spec_plan().transforms(
        frames[i],
        (#[trigger] pending[i]).spec_pixels(),
    ) && pending[i].pending() is Some && pending[i].pending()->Some_0@ == time::millis_to_nanos(
        timestamps[i] - submissions[i].timestamp_ms,
    ) by {
        if i > 0 {
            lemma_step(states, frames, timestamps, submissions, pending, i - 1);
        }
        assert(states[i].reads(frames[i], timestamps[i], submissions[i], pending[i]));
        lemma_frames_counted(states, frames, timestamps, submissions, pending, i);
    }
    let count = frames.len() as int;
    lemma_frames_counted(states, frames, timestamps, submissions, pending, count);
    if count > 0 {
        lemma_step(states, frames, timestamps, submissions, pending, count - 1);
    }
}

/// Reading and writing one frame takes the transcode to the end of that frame.
proof fn lemma_step(
    states: Seq<Transcode>,
    frames: Seq<Seq<u8>>,
    timestamps: Seq<int>,
    submissions: Seq<FrameSubmission>,
    pending: Seq<Transcode>,
    index: int,
)
    requires
        transcode_run(states, frames, timestamps, submissions, pending),
        0 <= index < frames.len(),
    ensures
        states[index + 1].same_job(states[index]),
        states[index + 1].spec_frame_count() == states[index].spec_frame_count() + 1,
        states[index + 1].read_ms() == timestamps[index],
        states[index + 1].written_ms() == timestamps[index],
        0 <= timestamps[index] <= i32::MAX,
{
    assert(states[index].reads(
        frames[index],
        timestamps[index],
        submissions[index],
        pending[index],
    ) && pending[index].writes(states[index + 1]));
    assert(pending[index].wf());
}

/// After `count` frames of a run, `count` frames have been written.
proof fn lemma_frames_counted(
    states: Seq<Transcode>,
    frames: Seq<Seq<u8>>,
    timestamps: Seq<int>,
    submissions: Seq<FrameSubmission>,
    pending: Seq<Transcode>,
    count: int,
)
    requires
        transcode_run(states, frames, timestamps, submissions, pending),
        states[0].spec_frame_count() == 0,
        0 <= count <= frames.len(),
    ensures
        states[count].same_job(states[0]),
        states[count].spec_frame_count() == count,
    decreases count,
{
    if count > 0 {
        lemma_frames_counted(states, frames, timestamps, submissions, pending, count - 1);
        lemma_step(states, frames, timestamps, submissions, pending, count - 1);
    }
}

/// A transcode gives libwebp what the lower-level stages driven by hand give it.
///
/// A decoder reads the same sequence from its start, and a fresh encoder on the
/// destination canvas takes the resized pixels with the durations so read. Then
/// the encoder refuses none of the frames, each is handed over as the transcode
/// hands it over, and both count the same frames and end at the same timestamp.
pub proof fn law_same_as_driven_by_hand(
    states: Seq<Transcode>,
    frames: Seq<Seq<u8>>,
    timestamps: Seq<int>,
    submissions: Seq<FrameSubmission>,
    pending: Seq<Transcode>,
    decoders: Seq<AnimationDecoder>,
    durations: Seq<Duration>,
    encoders: Seq<AnimationEncoder>,
)
    requires
        transcode_run(states, frames, timestamps, submissions, pending),
        states[0].read_ms() == 0,
        states[0].written_ms() == 0,
        states[0].spec_frame_count() == 0,
        decode::decoder_run(decoders, timestamps, durations),
        decoders[0].at_start(),
        encode::encoder_run(encoders, durations),
        encoders[0].position_ms() == 0,
        encoders[0].spec_frame_count() == 0,
        encoders[0].spec_canvas() == states[0].spec_plan().spec_destination(),
        encoders[0].spec_config() == states[0].spec_config(),
    ensures
        forall|i: int|
            0 <= i < frames.len() ==> {
                &&& #[trigger] submissions[i] == encoders[i].submission()
                &&& states[0].spec_plan().transforms(frames[i], pending[i].spec_pixels())
                &&& pending[i].pending() == Some(durations[i])
                &&& encoders[i].frame_fault(pending[i].spec_pixels().len(), durations[i]) is None
            },
        states.last().written_ms() == encoders.last().position_ms(),
        states.last().spec_frame_count() == encoders.last().spec_frame_count(),
{
    law_timing_preserved(states, frames, timestamps, submissions, pending);
    assert forall|i: int| 0 <= i < frames.len() implies {
        &&& #[trigger] submissions[i] == encoders[i].submission()
        &&& states[0].spec_plan().transforms(frames[i], pending[i].spec_pixels())
        &&& pending[i].pending() == Some(durations[i])
        &&& encoders[i].frame_fault(pending[i].spec_pixels().len(), durations[i]) is None
    } by {
        lemma_hands_agree(decoders, timestamps, durations, encoders, i);
        lemma_hands_agree(decoders, timestamps, durations, encoders, i + 1);
        lemma_frames_counted(states, frames, timestamps, submissions, pending, i);
        lemma_step(states, frames, timestamps, submissions, pending, i);
        assert(states[i].reads(frames[i], timestamps[i], submissions[i], pending[i]));
        assert(pending[i].wf());
        assert(decoders[i].reads(timestamps[i], durations[i], decoders[i + 1]));
        assert(encoders[i].appends(durations[i], encoders[i + 1]));
        time::lemma_equal_lengths(pending[i].pending()->Some_0, durations[i]);
    }
    lemma_hands_agree(decoders, timestamps, durations, encoders, frames.len() as int);
}

/// A fresh encoder that takes the durations read stands where the decoder does.
proof fn lemma_hands_agree(
    decoders: Seq<AnimationDecoder>,
    timestamps: Seq<int>,
    durations: Seq<Duration>,
    encoders: Seq<AnimationEncoder>,
    count: int,
)
    requires
        decode::decoder_run(decoders, timestamps, durations),
        decoders[0].at_start(),
        encode::encoder_run(encoders, durations),
        encoders[0].position_ms() == 0,
        encoders[0].spec_frame_count() == 0,
        0 <= count <= timestamps.len(),
    ensures
        encoders[count].position_ms() == if count == 0 {
            0
        } else {
            timestamps[count - 1]
        },
        encoders[count].position_ms() == decoders[count].position_ms(),
        encoders[count].spec_frame_count() == count,
        encoders[count].spec_canvas() == encoders[0].spec_canvas(),
        encoders[count].spec_config() == encoders[0].spec_config(),
    decreases count,
{
    if count > 0 {
        lemma_hands_agree(decoders, timestamps, durations, encoders, count - 1);
        assert(decoders[count - 1].reads(
            timestamps[count - 1],
            durations[count - 1],
            decoders[count],
        ));
        assert(encoders[count - 1].appends(durations[count - 1], encoders[count]));
    }
}

/// Given the same answer by libwebp, a transcode that has written every declared
/// frame and an encoder driven by hand that has taken as many return the same
/// bytes, or both fail.
pub proof fn law_same_bytes_as_driven_by_hand(
    transcode: Transcode,
    encoder: AnimationEncoder,
    reply: Result<Vec<u8>, Option<String>>,
    result: Result<TranscodedAnimation, TranscodeError>,
    by_hand: Result<Vec<u8>, EncodeError>,
)
    requires
        transcode.spec_frame_count() == transcode.spec_source().frame_count,
        transcode.spec_frame_count() == encoder.spec_frame_count(),
        transcode.finishes(reply, result),
        encoder.finishes(reply, by_hand),
    ensures
        result is Ok <==> by_hand is Ok,
        result is Ok ==> result->Ok_0.bytes == by_hand->Ok_0,
{
}

/// The total duration of a transcode is the sum of the durations that the
/// source's metadata lists, wherever libwebp's decoder agrees with its demuxer.
pub proof fn law_total_duration_is_the_listed_sum(
    states: Seq<Transcode>,
    rgba: Seq<Seq<u8>>,
    timestamps: Seq<int>,
    submissions: Seq<FrameSubmission>,
    pending: Seq<Transcode>,
    frames: Seq<DemuxFrame>,
    durations: Seq<Duration>,
    reply: Result<Vec<u8>, Option<String>>,
    result: Result<TranscodedAnimation, TranscodeError>,
)
    requires
        transcode_run(states, rgba, timestamps, submissions, pending),
        states[0].read_ms() == 0,
        states[0].written_ms() == 0,
        states[0].spec_frame_count() == 0,
        decode::listed(frames, durations),
        decode::timestamps_agree(timestamps, frames),
        states.last().finishes(reply, result),
        result is Ok,
    ensures
        result->Ok_0.total_duration@ == time::total(durations),
        result->Ok_0.frame_count == durations.len(),
        result->Ok_0.input == states[0].spec_source(),
        result->Ok_0.output_canvas == states[0].spec_plan().spec_destination(),
{
    law_timing_preserved(states, rgba, timestamps, submissions, pending);
    decode::lemma_listed_total(frames, durations);
    if frames.len() > 0 {
        let last = frames.len() - 1;
        assert(timestamps[last] == decode::total_millis(frames, last + 1));
    }
}

} // verus!
