//! Sequential decoding of one stored animation sequence.
//!
//! The native codec reads the container and composites the frames. What it
//! reports is handed to the functions here as plain values; they decide which
//! inputs and frames are accepted and keep the timing of the sequence.

use vstd::prelude::*;
use vstd::slice::slice_to_vec;

use crate::inspect::{self, animation_flag};
use crate::model::{
    self, AnimationFrame, AnimationInfo, BackgroundColor, CanvasSize, LoopCount, NonZeroU16,
};
use crate::text::{self, push_decimal};
use crate::time::{self, Duration, NANOS_PER_SEC};

verus! {

/// Per-animation limits applied before and while decoding.
///
/// The [`Default`] values are intended for ordinary untrusted inputs. Use
/// [`Self::for_trusted_input`] only when the caller has already established an
/// appropriate process-wide memory and workload policy.
#[derive(Clone, Copy, Debug)]
pub struct DecodeLimits {
    /// Maximum number of input bytes accepted by [`AnimationDecoder::new`].
    pub max_input_bytes: usize,
    /// Maximum number of pixels in the decoded animation canvas.
    pub max_canvas_pixels: u64,
    /// Maximum number of frames in the stored animation sequence.
    pub max_frame_count: u32,
    /// Maximum sum of source frame durations observed while decoding.
    pub max_total_duration: Duration,
    /// Maximum number of bytes in one full-canvas RGBA frame.
    pub max_frame_rgba_bytes: usize,
}

impl Default for DecodeLimits {
    fn default() -> (limits: Self)
        ensures
            limits.max_input_bytes == 256 * 1024 * 1024,
            limits.max_canvas_pixels == 100_000_000,
            limits.max_frame_count == 10_000,
            limits.max_total_duration@ == 60 * 60 * NANOS_PER_SEC,
            limits.max_frame_rgba_bytes == 400 * 1024 * 1024,
    {
        DecodeLimits {
            max_input_bytes: 256 * 1024 * 1024,
            max_canvas_pixels: 100_000_000,
            max_frame_count: 10_000,
            max_total_duration: Duration::from_secs(60 * 60),
            max_frame_rgba_bytes: 400 * 1024 * 1024,
        }
    }
}

impl DecodeLimits {
    /// Relaxes crate-level resource limits for trusted input.
    ///
    /// This does not bypass libwebp or platform allocation limits.
    pub fn for_trusted_input() -> (limits: Self)
        ensures
            limits.max_input_bytes == usize::MAX,
            limits.max_canvas_pixels == u64::MAX,
            limits.max_frame_count == u32::MAX,
            limits.max_total_duration@ == time::max_nanos(),
            limits.max_frame_rgba_bytes == usize::MAX,
    {
        DecodeLimits {
            max_input_bytes: usize::MAX,
            max_canvas_pixels: u64::MAX,
            max_frame_count: u32::MAX,
            max_total_duration: Duration::max(),
            max_frame_rgba_bytes: usize::MAX,
        }
    }
}

/// Failure to create or read an animation decoder.
#[derive(Clone, Debug, PartialEq, Eq)]
pub enum DecodeError {
    /// The input is larger than the configured byte limit.
    InputTooLarge {
        /// Actual input length in bytes.
        actual: usize,
        /// Configured maximum input length in bytes.
        maximum: usize,
    },
    /// The input is a valid WebP image but does not contain animation data.
    NotAnimatedWebp,
    /// libwebp could not initialize its decoder options.
    DecoderOptionsInitialization,
    /// libwebp could not create an animation decoder. A malformed container is
    /// refused so without asking it.
    DecoderCreation,
    /// libwebp could not provide animation metadata.
    DecoderInfo,
    /// The animation metadata could not be represented by this crate's types.
    InvalidAnimationInfo,
    /// A canvas or frame size overflowed the host address space.
    FrameSizeOverflow,
    /// A configured resource limit was exceeded.
    LimitExceeded {
        /// Name of the exceeded limit.
        limit: &'static str,
        /// Observed value.
        actual: u64,
        /// Configured maximum value.
        maximum: u64,
    },
    /// libwebp failed to decode the next frame.
    FrameDecode,
    /// Frame timestamps were not monotonic or could not be accumulated.
    InvalidTimestamp,
}

impl DecodeError {
    /// The message that [`Self::message`] gives.
    pub open spec fn text(self) -> Seq<char> {
        match self {
            DecodeError::InputTooLarge { actual, maximum } => "input is "@ + text::decimal(actual as nat)
                + " bytes, exceeding the "@ + text::decimal(maximum as nat) + "-byte limit"@,
            DecodeError::NotAnimatedWebp => "input is not an animated WebP"@,
            DecodeError::DecoderOptionsInitialization
            => "failed to initialize WebP decoder options"@,
            DecodeError::DecoderCreation => "failed to create WebP animation decoder"@,
            DecodeError::DecoderInfo => "failed to read WebP animation information"@,
            DecodeError::InvalidAnimationInfo => "WebP animation information is invalid"@,
            DecodeError::FrameSizeOverflow
            => "WebP animation frame size overflows the host address space"@,
            DecodeError::LimitExceeded { limit, actual, maximum } => limit@ + " is "@ + text::decimal(
                actual as nat,
            ) + ", exceeding the "@ + text::decimal(maximum as nat) + " limit"@,
            DecodeError::FrameDecode => "failed to decode WebP animation frame"@,
            DecodeError::InvalidTimestamp => "WebP animation timestamps are invalid"@,
        }
    }

    /// Describes the failure in a sentence fragment.
    pub fn message(&self) -> (message: String)
        ensures
            message@ == self.text(),
    {
        match self {
            DecodeError::InputTooLarge { actual, maximum } => {
                let mut out = String::from_str("input is ");
                push_decimal(&mut out, *actual as u64);
                out.append(" bytes, exceeding the ");
                push_decimal(&mut out, *maximum as u64);
                out.append("-byte limit");
                out
            },
            DecodeError::NotAnimatedWebp => String::from_str("input is not an animated WebP"),
            DecodeError::DecoderOptionsInitialization => String::from_str(
                "failed to initialize WebP decoder options",
            ),
            DecodeError::DecoderCreation => String::from_str(
                "failed to create WebP animation decoder",
            ),
            DecodeError::DecoderInfo => String::from_str(
                "failed to read WebP animation information",
            ),
            DecodeError::InvalidAnimationInfo => String::from_str(
                "WebP animation information is invalid",
            ),
            DecodeError::FrameSizeOverflow => String::from_str(
                "WebP animation frame size overflows the host address space",
            ),
            DecodeError::LimitExceeded { limit, actual, maximum } => {
                let mut out = String::from_str(limit);
                out.append(" is ");
                push_decimal(&mut out, *actual);
                out.append(", exceeding the ");
                push_decimal(&mut out, *maximum);
                out.append(" limit");
                out
            },
            DecodeError::FrameDecode => String::from_str("failed to decode WebP animation frame"),
            DecodeError::InvalidTimestamp => String::from_str(
                "WebP animation timestamps are invalid",
            ),
        }
    }
}

/// Refuses a value above its limit.
pub fn enforce_limit(limit: &'static str, actual: u64, maximum: u64) -> (result: Result<
    (),
    DecodeError,
>)
    ensures
        result == if actual > maximum {
            Err(DecodeError::LimitExceeded { limit, actual, maximum })
        } else {
            Ok(())
        },
{
    if actual > maximum {
        return Err(DecodeError::LimitExceeded { limit, actual, maximum });
    }
    Ok(())
}

/// Animation metadata as the native decoder reports it.
#[derive(Clone, Copy, Debug, PartialEq, Eq, Structural)]
pub struct RawAnimationInfo {
    /// Canvas width in pixels.
    pub canvas_width: u32,
    /// Canvas height in pixels.
    pub canvas_height: u32,
    /// Loop count, where zero stands for endless repetition.
    pub loop_count: u32,
    /// Background color of the ANIM chunk.
    pub bgcolor: u32,
    /// Number of stored frames.
    pub frame_count: u32,
}

/// Order of the color channels that the native decoder gives.
#[derive(Clone, Copy, Debug, PartialEq, Eq, Structural)]
pub enum ColorMode {
    /// Red, green, blue, alpha, one byte each.
    Rgba,
}

/// How the native decoder is opened.
#[derive(Clone, Copy, Debug, PartialEq, Eq, Structural)]
pub struct DecoderOptions {
    /// Order of the color channels.
    pub color_mode: ColorMode,
    /// Non-zero to let libwebp decode with several threads.
    pub use_threads: i32,
}

/// How opening the native decoder ended.
#[derive(Clone, Copy, Debug, PartialEq, Eq, Structural)]
pub enum NativeOpening {
    /// Its options could not be initialized.
    OptionsFailed,
    /// It could not be created.
    CreationFailed,
    /// It was created but gave no animation metadata.
    InfoFailed,
    /// It was created and reported this metadata.
    Opened(RawAnimationInfo),
}

/// What the native decoder gave when asked for the next frame.
#[derive(Clone, Copy, Debug)]
pub enum NativeFrame<'a> {
    /// Every frame of the sequence has been read.
    Exhausted,
    /// The frame could not be decoded.
    Failed,
    /// A composited canvas and the time at which the frame ends.
    Decoded {
        /// RGBA8 pixels of the full canvas.
        rgba: &'a [u8],
        /// End of the frame in milliseconds from the start of the sequence.
        timestamp_ms: i32,
    },
}

/// Metadata of one stored frame, as the native demuxer lists it.
#[derive(Clone, Copy, Debug, PartialEq, Eq, Structural)]
pub struct DemuxFrame {
    /// Number of frames in the container.
    pub num_frames: i32,
    /// Number of this frame, counted from one.
    pub frame_num: i32,
    /// Display duration in milliseconds.
    pub duration: i32,
}

impl RawAnimationInfo {
    /// The reported canvas.
    pub open spec fn canvas(self) -> CanvasSize {
        CanvasSize { width: self.canvas_width, height: self.canvas_height }
    }
}

/// The reason to refuse an input before the native decoder sees it, if there
/// is one.
pub open spec fn input_fault(input: Seq<u8>, limits: DecodeLimits) -> Option<DecodeError> {
    if input.len() > limits.max_input_bytes {
        Some(
            DecodeError::InputTooLarge {
                actual: input.len() as usize,
                maximum: limits.max_input_bytes,
            },
        )
    } else {
        match inspect::container_verdict(input) {
            Ok(true) => None,
            Ok(false) => Some(DecodeError::NotAnimatedWebp),
            Err(_) => Some(DecodeError::DecoderCreation),
        }
    }
}

/// The reason to refuse reported metadata, if there is one.
pub open spec fn info_fault(raw: RawAnimationInfo, limits: DecodeLimits) -> Option<DecodeError> {
    let canvas = raw.canvas();
    if canvas.pixels() > limits.max_canvas_pixels {
        Some(
            DecodeError::LimitExceeded {
                limit: "canvas pixels",
                actual: canvas.pixels() as u64,
                maximum: limits.max_canvas_pixels,
            },
        )
    } else if raw.frame_count > limits.max_frame_count {
        Some(
            DecodeError::LimitExceeded {
                limit: "frame count",
                actual: raw.frame_count as u64,
                maximum: limits.max_frame_count as u64,
            },
        )
    } else if canvas.rgba_len() > usize::MAX {
        Some(DecodeError::FrameSizeOverflow)
    } else if canvas.rgba_len() > limits.max_frame_rgba_bytes {
        Some(
            DecodeError::LimitExceeded {
                limit: "RGBA bytes per frame",
                actual: canvas.rgba_len() as u64,
                maximum: limits.max_frame_rgba_bytes as u64,
            },
        )
    } else if raw.loop_count > u16::MAX {
        Some(DecodeError::InvalidAnimationInfo)
    } else {
        None
    }
}

/// The reason not to decode an input, if there is one, where opening the
/// native decoder on it ended with `opening`.
pub open spec fn opening_fault(
    input: Seq<u8>,
    limits: DecodeLimits,
    opening: NativeOpening,
) -> Option<DecodeError> {
    match input_fault(input, limits) {
        Some(error) => Some(error),
        None => match opening {
            NativeOpening::OptionsFailed => Some(DecodeError::DecoderOptionsInitialization),
            NativeOpening::CreationFailed => Some(DecodeError::DecoderCreation),
            NativeOpening::InfoFailed => Some(DecodeError::DecoderInfo),
            NativeOpening::Opened(raw) => info_fault(raw, limits),
        },
    }
}

/// The metadata `info` says what the native decoder reported in `raw`.
pub open spec fn info_matches(info: AnimationInfo, raw: RawAnimationInfo) -> bool {
    &&& info.canvas == raw.canvas()
    &&& info.frame_count == raw.frame_count
    &&& match info.loop_count {
        LoopCount::Infinite => raw.loop_count == 0,
        LoopCount::Finite(count) => raw.loop_count != 0 && count@ == raw.loop_count,
    }
    &&& info.background_color.raw == raw.bgcolor
}

/// Sum of the durations of the first `count` frames, in milliseconds.
pub open spec fn total_millis(frames: Seq<DemuxFrame>, count: int) -> int
    decreases count,
{
    if count <= 0 {
        0
    } else {
        total_millis(frames, count - 1) + frames[count - 1].duration
    }
}

/// One duration per record, in order, as the record says.
pub open spec fn listed(frames: Seq<DemuxFrame>, durations: Seq<Duration>) -> bool {
    &&& durations.len() == frames.len()
    &&& forall|i: int|
        0 <= i < frames.len() ==> #[trigger] durations[i]@ == time::millis_to_nanos(
            frames[i].duration as int,
        )
}

/// The native decoder and the native demuxer agree: there is one frame for each
/// record, and it ends where the durations up to it add up to.
pub open spec fn timestamps_agree(timestamps: Seq<int>, frames: Seq<DemuxFrame>) -> bool {
    &&& timestamps.len() == frames.len()
    &&& forall|i: int|
        0 <= i < frames.len() ==> #[trigger] timestamps[i] == total_millis(frames, i + 1)
}

/// A limit on the total duration in whole milliseconds, as far as 64 bits
/// count them.
pub open spec fn limit_millis(limit: Duration) -> nat {
    if limit.spec_millis() <= u64::MAX {
        limit.spec_millis()
    } else {
        u64::MAX as nat
    }
}

/// The reason to refuse a frame that ends at `timestamp_ms` after one that ended
/// at `position_ms`, if there is one: time runs backwards or past the limit.
pub open spec fn timestamp_fault(
    position_ms: int,
    limit: Duration,
    timestamp_ms: int,
) -> Option<DecodeError> {
    if timestamp_ms < position_ms {
        Some(DecodeError::InvalidTimestamp)
    } else if timestamp_ms > limit_millis(limit) {
        Some(
            DecodeError::LimitExceeded {
                limit: "total duration in milliseconds",
                actual: timestamp_ms as u64,
                maximum: limit_millis(limit) as u64,
            },
        )
    } else {
        None
    }
}

/// Stateful decoder for exactly one stored animation sequence.
pub struct AnimationDecoder {
    info: AnimationInfo,
    frame_rgba_bytes: usize,
    previous_timestamp_ms: i32,
    total_duration: Duration,
    max_total_duration: Duration,
}

impl AnimationDecoder {
    #[verifier::type_invariant]
    spec fn timing_consistent(self) -> bool {
        &&& self.frame_rgba_bytes == self.info.canvas.rgba_len()
        &&& self.previous_timestamp_ms >= 0
        &&& self.total_duration@ == time::millis_to_nanos(self.previous_timestamp_ms as int)
    }

    /// Metadata of the stored sequence.
    pub closed spec fn spec_info(self) -> AnimationInfo {
        self.info
    }

    /// End of the last frame read, in milliseconds.
    pub closed spec fn position_ms(self) -> int {
        self.previous_timestamp_ms as int
    }

    /// Sum of the durations of the frames read, in nanoseconds.
    pub closed spec fn elapsed(self) -> nat {
        self.total_duration@
    }

    /// The configured maximum of the total duration.
    pub closed spec fn duration_limit(self) -> Duration {
        self.max_total_duration
    }

    /// The maximum of the total duration in milliseconds.
    pub open spec fn limit_ms(self) -> nat {
        limit_millis(self.duration_limit())
    }

    /// Nothing has been read since the decoder was opened or reset.
    pub open spec fn at_start(self) -> bool {
        self.position_ms() == 0 && self.elapsed() == 0
    }

    /// The reason to refuse a frame that ends at `timestamp_ms`, if there is
    /// one.
    pub open spec fn timestamp_fault(self, timestamp_ms: int) -> Option<DecodeError> {
        timestamp_fault(self.position_ms(), self.duration_limit(), timestamp_ms)
    }

    /// The decoder is `after` once it has read a frame of the given duration
    /// that ends at `timestamp_ms`.
    pub open spec fn reads(self, timestamp_ms: int, duration: Duration, after: Self) -> bool {
        &&& self.timestamp_fault(timestamp_ms) is None
        &&& duration@ == time::millis_to_nanos(timestamp_ms - self.position_ms())
        &&& after.position_ms() == timestamp_ms
        &&& after.elapsed() == self.elapsed() + duration@
        &&& after.spec_info() == self.spec_info()
        &&& after.duration_limit() == self.duration_limit()
    }

    /// The decoder is `after` once it has been reset.
    pub open spec fn rewinds(self, after: Self) -> bool {
        &&& after.at_start()
        &&& after.spec_info() == self.spec_info()
        &&& after.duration_limit() == self.duration_limit()
    }

    /// The reason to refuse the record of the frame at `index`, if there is
    /// one.
    pub open spec fn record_fault(
        self,
        frames: Seq<DemuxFrame>,
        index: int,
    ) -> Option<DecodeError> {
        let total = total_millis(frames, index + 1);
        if index + 1 > self.spec_info().frame_count || frames[index].frame_num != index + 1 {
            Some(DecodeError::InvalidAnimationInfo)
        } else if frames[index].duration < 0 {
            Some(DecodeError::InvalidTimestamp)
        } else if total > self.limit_ms() {
            Some(
                DecodeError::LimitExceeded {
                    limit: "total duration in milliseconds",
                    actual: total as u64,
                    maximum: self.limit_ms() as u64,
                },
            )
        } else {
            None
        }
    }

    /// The reason to refuse the records from `index` on: that of the first one
    /// refused, or that there are too few.
    pub open spec fn records_fault(self, frames: Seq<DemuxFrame>, index: int) -> Option<DecodeError>
        decreases frames.len() - index,
    {
        if index >= frames.len() {
            if frames.len() != self.spec_info().frame_count {
                Some(DecodeError::InvalidAnimationInfo)
            } else {
                None
            }
        } else {
            match self.record_fault(frames, index) {
                Some(error) => Some(error),
                None => self.records_fault(frames, index + 1),
            }
        }
    }

    /// The reason not to list the frame durations, if there is one.
    pub open spec fn demux_fault(self, frames: Seq<DemuxFrame>) -> Option<DecodeError> {
        if frames.len() == 0 {
            Some(DecodeError::DecoderInfo)
        } else if frames[0].num_frames != self.spec_info().frame_count || frames[0].frame_num != 1 {
            Some(DecodeError::InvalidAnimationInfo)
        } else {
            self.records_fault(frames, 0)
        }
    }

    /// Checks an input and settles how the native decoder is opened on it.
    pub fn check_input(input: &[u8], limits: &DecodeLimits) -> (result: Result<
        DecoderOptions,
        DecodeError,
    >)
        ensures
            match input_fault(input@, *limits) {
                Some(error) => result == Err::<DecoderOptions, DecodeError>(error),
                None => result == Ok::<DecoderOptions, DecodeError>(
                    DecoderOptions { color_mode: ColorMode::Rgba, use_threads: 1 },
                ),
            },
    {
        if input.len() > limits.max_input_bytes {
            return Err(
                DecodeError::InputTooLarge {
                    actual: input.len(),
                    maximum: limits.max_input_bytes,
                },
            );
        }
        match animation_flag(input) {
            Ok(true) => Ok(DecoderOptions { color_mode: ColorMode::Rgba, use_threads: 1 }),
            Ok(false) => Err(DecodeError::NotAnimatedWebp),
            Err(_) => Err(DecodeError::DecoderCreation),
        }
    }

    /// Creates a decoder for one stored animated WebP sequence, where opening
    /// the native decoder on `input` ended with `opening`.
    ///
    /// Frames are returned as composited, full-canvas RGBA buffers. The decoder
    /// does not replay the sequence according to its loop count.
    pub fn new(input: &[u8], limits: DecodeLimits, opening: NativeOpening) -> (result: Result<
        Self,
        DecodeError,
    >)
        ensures
            match opening_fault(input@, limits, opening) {
                Some(error) => result == Err::<Self, DecodeError>(error),
                None => result matches Ok(decoder) && opening matches
                NativeOpening::Opened(raw) && {
                    &&& info_matches(decoder.spec_info(), raw)
                    &&& decoder.at_start()
                    &&& decoder.duration_limit() == limits.max_total_duration
                },
            },
            result matches Err(DecodeError::NotAnimatedWebp) ==> inspect::container_verdict(input@)
                == Ok::<bool, inspect::InspectError>(false),
    {
        if let Err(error) = Self::check_input(input, &limits) {
            return Err(error);
        }
        let raw_info = match opening {
            NativeOpening::OptionsFailed => return Err(DecodeError::DecoderOptionsInitialization),
            NativeOpening::CreationFailed => return Err(DecodeError::DecoderCreation),
            NativeOpening::InfoFailed => return Err(DecodeError::DecoderInfo),
            NativeOpening::Opened(raw_info) => raw_info,
        };
        let canvas = CanvasSize { width: raw_info.canvas_width, height: raw_info.canvas_height };
        let pixel_count: u64 = match canvas.pixel_count() {
            Some(count) => count,
            None => return Err(DecodeError::FrameSizeOverflow),
        };
        if let Err(error) = enforce_limit("canvas pixels", pixel_count, limits.max_canvas_pixels) {
            return Err(error);
        }
        if let Err(error) = enforce_limit(
            "frame count",
            raw_info.frame_count as u64,
            limits.max_frame_count as u64,
        ) {
            return Err(error);
        }
        let frame_rgba_bytes: usize = match canvas.rgba_bytes() {
            Some(bytes) => bytes,
            None => return Err(DecodeError::FrameSizeOverflow),
        };
        if let Err(error) = enforce_limit(
            "RGBA bytes per frame",
            frame_rgba_bytes as u64,
            limits.max_frame_rgba_bytes as u64,
        ) {
            return Err(error);
        }
        if raw_info.loop_count > u16::MAX as u32 {
            return Err(DecodeError::InvalidAnimationInfo);
        }
        let loop_count = match NonZeroU16::new(raw_info.loop_count as u16) {
            None => LoopCount::Infinite,
            Some(count) => LoopCount::Finite(count),
        };
        Ok(
            AnimationDecoder {
                info: AnimationInfo {
                    canvas,
                    frame_count: raw_info.frame_count,
                    loop_count,
                    background_color: BackgroundColor { raw: raw_info.bgcolor },
                },
                frame_rgba_bytes,
                previous_timestamp_ms: 0,
                total_duration: Duration::zero(),
                max_total_duration: limits.max_total_duration,
            },
        )
    }

    /// Returns metadata for the stored animation sequence.
    pub fn info(&self) -> (info: &AnimationInfo)
        ensures
            *info == self.spec_info(),
    {
        &self.info
    }

    /// Returns the length in bytes of one full-canvas RGBA frame.
    pub fn frame_rgba_bytes(&self) -> (bytes: usize)
        ensures
            bytes == self.spec_info().canvas.rgba_len(),
    {
        proof {
            use_type_invariant(self);
        }
        self.frame_rgba_bytes
    }

    /// Returns one source display duration per stored frame, in frame order.
    ///
    /// `frames` is what the native demuxer lists, first frame first; it is empty
    /// where there is no demuxer or no first frame. This reads
    /// animation-container metadata only: it does not decode RGBA pixels or
    /// advance the sequential decoder. The configured total-duration limit is
    /// applied and may cause this method to return an error.
    pub fn frame_durations(&self, frames: &[DemuxFrame]) -> (result: Result<
        Vec<Duration>,
        DecodeError,
    >)
        ensures
            match self.demux_fault(frames@) {
                Some(error) => result == Err::<Vec<Duration>, DecodeError>(error),
                None => result matches Ok(durations) && listed(frames@, durations@),
            },
    {
        if frames.len() == 0 {
            return Err(DecodeError::DecoderInfo);
        }
        let frame_count: usize = self.info.frame_count as usize;
        let first = frames[0];
        if first.num_frames < 0 || first.num_frames as u32 != self.info.frame_count
            || first.frame_num != 1 {
            return Err(DecodeError::InvalidAnimationInfo);
        }
        let limit_ms: u64 = self.max_total_duration.saturating_millis();
        let mut durations: Vec<Duration> = Vec::with_capacity(frame_count);
        let mut total_duration = Duration::zero();
        let mut index: usize = 0;
        while index < frames.len()
            invariant
                index <= frames@.len(),
                index <= frame_count,
                frame_count == self.spec_info().frame_count,
                limit_ms == self.limit_ms(),
                frames@.len() > 0,
                frames@[0].num_frames == self.spec_info().frame_count,
                frames@[0].frame_num == 1,
                self.demux_fault(frames@) == self.records_fault(frames@, index as int),
                0 <= total_millis(frames@, index as int) <= index * i32::MAX,
                total_duration@ == time::millis_to_nanos(total_millis(frames@, index as int)),
                durations@.len() == index,
                forall|i: int|
                    0 <= i < index ==> #[trigger] durations@[i]@ == time::millis_to_nanos(
                        frames@[i].duration as int,
                    ),
            decreases frames@.len() - index,
        {
            let frame = frames[index];
            if index >= frame_count {
                return Err(DecodeError::InvalidAnimationInfo);
            }
            if frame.frame_num < 0 || frame.frame_num as usize != index + 1 {
                return Err(DecodeError::InvalidAnimationInfo);
            }
            if frame.duration < 0 {
                return Err(DecodeError::InvalidTimestamp);
            }
            proof {
                let (i, bound) = (index as int, i32::MAX as int);
                assert((i + 1) * bound == i * bound + bound) by (nonlinear_arith);
                assert(i * bound <= 0xffff_ffff * bound) by (nonlinear_arith)
                    requires
                        0 <= i <= 0xffff_ffff,
                        bound > 0,
                ;
            }
            let duration = Duration::from_millis(frame.duration as u64);
            total_duration =
            match total_duration.checked_add(duration) {
                Some(total) => total,
                None => return Err(DecodeError::InvalidTimestamp),
            };
            if let Err(error) = enforce_limit(
                "total duration in milliseconds",
                total_duration.saturating_millis(),
                limit_ms,
            ) {
                return Err(error);
            }
            durations.push(duration);
            index += 1;
        }
        if durations.len() != frame_count {
            return Err(DecodeError::InvalidAnimationInfo);
        }
        Ok(durations)
    }

    /// Resets this decoder to the first frame of its stored animation sequence.
    ///
    /// The metadata and configured limits are preserved; only the timing of the
    /// sequence is reset. The native decoder is reset beside it. This is a
    /// sequence reset, not a random-seek operation; the next
    /// [`Self::next_frame`] call starts at the first stored frame.
    pub fn reset(&mut self)
        ensures
            old(self).rewinds(*final(self)),
    {
        proof {
            use_type_invariant(&*self);
        }
        *self = AnimationDecoder {
            info: self.info,
            frame_rgba_bytes: self.frame_rgba_bytes,
            previous_timestamp_ms: 0,
            total_duration: Duration::zero(),
            max_total_duration: self.max_total_duration,
        };
    }

    /// Takes the next frame from what the native decoder gave.
    ///
    /// Returns `None` only after every frame in the stored sequence was read. A
    /// refused frame leaves the decoder unchanged.
    pub fn next_frame(&mut self, reply: NativeFrame<'_>) -> (result: Result<
        Option<AnimationFrame>,
        DecodeError,
    >)
        requires
            reply matches NativeFrame::Decoded { rgba, .. } ==> rgba@.len() == old(
                self,
            ).spec_info().canvas.rgba_len(),
        ensures
            match reply {
                NativeFrame::Exhausted => {
                    &&& result == Ok::<Option<AnimationFrame>, DecodeError>(None)
                    &&& *final(self) == *old(self)
                },
                NativeFrame::Failed => {
                    &&& result == Err::<Option<AnimationFrame>, DecodeError>(
                        DecodeError::FrameDecode,
                    )
                    &&& *final(self) == *old(self)
                },
                NativeFrame::Decoded { rgba, timestamp_ms } => match old(self).timestamp_fault(
                    timestamp_ms as int,
                ) {
                    Some(error) => {
                        &&& result == Err::<Option<AnimationFrame>, DecodeError>(error)
                        &&& *final(self) == *old(self)
                    },
                    None => result matches Ok(Some(frame)) && {
                        &&& frame.rgba@ == rgba@
                        &&& frame.canvas == old(self).spec_info().canvas
                        &&& old(self).reads(timestamp_ms as int, frame.duration, *final(self))
                    },
                },
            },
    {
        proof {
            use_type_invariant(&*self);
        }
        let (rgba, timestamp_ms): (&[u8], i32) = match reply {
            NativeFrame::Exhausted => return Ok(None),
            NativeFrame::Failed => return Err(DecodeError::FrameDecode),
            NativeFrame::Decoded { rgba, timestamp_ms } => (rgba, timestamp_ms),
        };
        let duration_ms: i32 = match timestamp_ms.checked_sub(self.previous_timestamp_ms) {
            Some(duration_ms) => duration_ms,
            None => return Err(DecodeError::InvalidTimestamp),
        };
        if duration_ms < 0 {
            return Err(DecodeError::InvalidTimestamp);
        }
        let duration = Duration::from_millis(duration_ms as u64);
        let total_duration = match self.total_duration.checked_add(duration) {
            Some(total_duration) => total_duration,
            None => return Err(DecodeError::InvalidTimestamp),
        };
        if let Err(error) = enforce_limit(
            "total duration in milliseconds",
            total_duration.saturating_millis(),
            self.max_total_duration.saturating_millis(),
        ) {
            return Err(error);
        }
        let rgba = slice_to_vec(rgba);
        *self = AnimationDecoder {
            info: self.info,
            frame_rgba_bytes: self.frame_rgba_bytes,
            previous_timestamp_ms: timestamp_ms,
            total_duration,
            max_total_duration: self.max_total_duration,
        };
        Ok(Some(AnimationFrame { rgba, canvas: self.info.canvas, duration }))
    }
}

/// An input is opened exactly where it is small enough, declares an animation,
/// and the native decoder reports metadata within every limit.
pub proof fn law_opened_iff_within_limits(
    input: Seq<u8>,
    limits: DecodeLimits,
    opening: NativeOpening,
)
    ensures
        opening_fault(input, limits, opening) is None <==> {
            &&& input.len() <= limits.max_input_bytes
            &&& inspect::container_verdict(input) == Ok::<bool, inspect::InspectError>(true)
            &&& opening matches NativeOpening::Opened(raw) && {
                &&& raw.canvas().pixels() <= limits.max_canvas_pixels
                &&& raw.frame_count <= limits.max_frame_count
                &&& raw.canvas().rgba_len() <= limits.max_frame_rgba_bytes
                &&& raw.loop_count <= u16::MAX
            }
        },
{
}

/// With the limits for trusted input no limit is ever exceeded, neither when a
/// sequence is opened, nor by a timestamp that the native decoder can report, nor
/// by what the native demuxer lists.
pub proof fn law_trusted_input_exceeds_no_limit(
    input: Seq<u8>,
    limits: DecodeLimits,
    opening: NativeOpening,
    position_ms: int,
    timestamp_ms: i32,
    decoder: AnimationDecoder,
    frames: Seq<DemuxFrame>,
)
    requires
        decoder.duration_limit() == limits.max_total_duration,
        limits.max_input_bytes == usize::MAX,
        limits.max_canvas_pixels == u64::MAX,
        limits.max_frame_count == u32::MAX,
        limits.max_total_duration@ == time::max_nanos(),
        limits.max_frame_rgba_bytes == usize::MAX,
        input.len() <= usize::MAX,
    ensures
        opening_fault(input, limits, opening) matches Some(error) ==> !(error is InputTooLarge)
            && !(error is LimitExceeded),
        timestamp_fault(position_ms, limits.max_total_duration, timestamp_ms as int) is Some
            <==> timestamp_ms < position_ms,
        decoder.demux_fault(frames) matches Some(error) ==> !(error is LimitExceeded),
{
    if let NativeOpening::Opened(raw) = opening {
        model::lemma_pixels_bounded(raw.canvas());
    }
    lemma_listing_within_widest_limit(decoder, frames, 0);
}

/// The largest limit on the total duration is beyond what any records add up to.
proof fn lemma_listing_within_widest_limit(
    decoder: AnimationDecoder,
    frames: Seq<DemuxFrame>,
    from: int,
)
    requires
        0 <= from,
        decoder.duration_limit()@ == time::max_nanos(),
    ensures
        decoder.records_fault(frames, from) matches Some(error) ==> !(error is LimitExceeded),
    decreases frames.len() - from,
{
    if from < frames.len() {
        lemma_total_bounded(frames, from + 1);
        lemma_listing_within_widest_limit(decoder, frames, from + 1);
        let bound = i32::MAX as int;
        if from < decoder.spec_info().frame_count {
            assert((from + 1) * bound <= 0xffff_ffff * bound) by (nonlinear_arith)
                requires
                    0 <= from < 0xffff_ffff,
                    bound > 0,
            ;
        }
    }
}

/// The sum of durations is at most the longest one for each of them.
proof fn lemma_total_bounded(frames: Seq<DemuxFrame>, count: int)
    requires
        0 <= count <= frames.len(),
    ensures
        total_millis(frames, count) <= count * i32::MAX,
    decreases count,
{
    if count > 0 {
        lemma_total_bounded(frames, count - 1);
        let bound = i32::MAX as int;
        assert(count * bound == (count - 1) * bound + bound) by (nonlinear_arith);
    }
}

/// A decoder passes through `states` while it reads frames of the given
/// durations that end at `timestamps`.
pub open spec fn decoder_run(
    states: Seq<AnimationDecoder>,
    timestamps: Seq<int>,
    durations: Seq<Duration>,
) -> bool {
    &&& states.len() == timestamps.len() + 1
    &&& durations.len() == timestamps.len()
    &&& forall|i: int|
        0 <= i < timestamps.len() ==> (#[trigger] states[i]).reads(
            timestamps[i],
            durations[i],
            states[i + 1],
        )
}

/// Source durations are passed through without normalization: from the start,
/// the durations of the frames read add up to the end of the last of them.
pub proof fn law_durations_add_up(
    states: Seq<AnimationDecoder>,
    timestamps: Seq<int>,
    durations: Seq<Duration>,
)
    requires
        decoder_run(states, timestamps, durations),
        states[0].at_start(),
    ensures
        time::total(durations) == states.last().elapsed(),
        states.last().elapsed() == time::millis_to_nanos(states.last().position_ms()),
    decreases timestamps.len(),
{
    if timestamps.len() > 0 {
        let last = timestamps.len() - 1;
        assert(decoder_run(states.drop_last(), timestamps.drop_last(), durations.drop_last()));
        law_durations_add_up(states.drop_last(), timestamps.drop_last(), durations.drop_last());
        assert(states[last].reads(timestamps[last], durations[last], states[last + 1]));
        assert(states.drop_last().last() == states[last]);
    }
}

/// No run of the decoder exceeds the configured total duration, and time never
/// runs backwards in it.
pub proof fn law_total_duration_within_limit(
    states: Seq<AnimationDecoder>,
    timestamps: Seq<int>,
    durations: Seq<Duration>,
)
    requires
        decoder_run(states, timestamps, durations),
        states[0].at_start(),
    ensures
        states.last().elapsed() <= states[0].duration_limit()@,
        states.last().position_ms() >= 0,
    decreases timestamps.len(),
{
    law_durations_add_up(states, timestamps, durations);
    if timestamps.len() > 0 {
        let last = timestamps.len() - 1;
        assert(decoder_run(states.drop_last(), timestamps.drop_last(), durations.drop_last()));
        law_total_duration_within_limit(
            states.drop_last(),
            timestamps.drop_last(),
            durations.drop_last(),
        );
        assert(states[last].reads(timestamps[last], durations[last], states[last + 1]));
        assert(states.drop_last().last() == states[last]);
        lemma_limit_kept(states, timestamps, durations);
    }
}

/// A run of the decoder keeps its metadata and its limit.
proof fn lemma_limit_kept(
    states: Seq<AnimationDecoder>,
    timestamps: Seq<int>,
    durations: Seq<Duration>,
)
    requires
        decoder_run(states, timestamps, durations),
    ensures
        states.last().duration_limit() == states[0].duration_limit(),
        states.last().spec_info() == states[0].spec_info(),
    decreases timestamps.len(),
{
    if timestamps.len() > 0 {
        let last = timestamps.len() - 1;
        assert(decoder_run(states.drop_last(), timestamps.drop_last(), durations.drop_last()));
        lemma_limit_kept(states.drop_last(), timestamps.drop_last(), durations.drop_last());
        assert(states[last].reads(timestamps[last], durations[last], states[last + 1]));
        assert(states.drop_last().last() == states[last]);
    }
}

/// A reset decoder reads the sequence as it did when it was opened: whatever was
/// read before, each frame is accepted or refused as at first, and with the same
/// duration.
pub proof fn law_reset_starts_over(
    states: Seq<AnimationDecoder>,
    timestamps: Seq<int>,
    durations: Seq<Duration>,
    reset: AnimationDecoder,
)
    requires
        decoder_run(states, timestamps, durations),
        states[0].at_start(),
        states.last().rewinds(reset),
    ensures
        reset.spec_info() == states[0].spec_info(),
        forall|timestamp: int| #[trigger]
            reset.timestamp_fault(timestamp) == states[0].timestamp_fault(timestamp),
        forall|timestamp: int, duration: Duration, after: AnimationDecoder| #[trigger]
            reset.reads(timestamp, duration, after) <==> states[0].reads(
                timestamp,
                duration,
                after,
            ),
{
    lemma_limit_kept(states, timestamps, durations);
}

/// The records of all frames in order: as many as the metadata says, numbered
/// from one, none of negative duration, and together within the limit.
pub open spec fn well_listed(decoder: AnimationDecoder, frames: Seq<DemuxFrame>) -> bool {
    &&& frames.len() > 0
    &&& frames.len() == decoder.spec_info().frame_count
    &&& frames[0].num_frames == frames.len()
    &&& forall|i: int|
        0 <= i < frames.len() ==> (#[trigger] frames[i]).frame_num == i + 1 && frames[i].duration
            >= 0
    &&& total_millis(frames, frames.len() as int) <= decoder.limit_ms()
}

/// The frame durations are listed exactly where the records are well formed.
pub proof fn law_durations_listed_iff_well_formed(
    decoder: AnimationDecoder,
    frames: Seq<DemuxFrame>,
)
    ensures
        decoder.demux_fault(frames) is None <==> well_listed(decoder, frames),
{
    if decoder.demux_fault(frames) is None {
        lemma_accepted_records(decoder, frames, 0);
        assert(decoder.record_fault(frames, frames.len() - 1) is None);
        assert forall|i: int| 0 <= i < frames.len() implies (#[trigger] frames[i]).frame_num == i
            + 1 && frames[i].duration >= 0 by {
            assert(decoder.record_fault(frames, i) is None);
        }
    }
    if well_listed(decoder, frames) {
        assert forall|i: int| 0 <= i < frames.len() implies #[trigger] decoder.record_fault(
            frames,
            i,
        ) is None by {
            assert(frames[i].frame_num == i + 1);
            lemma_total_grows(frames, i + 1, frames.len() as int);
        }
        lemma_no_record_refused(decoder, frames, 0);
    }
}

/// Where the records from `from` on are accepted, each of them is.
pub proof fn lemma_accepted_records(decoder: AnimationDecoder, frames: Seq<DemuxFrame>, from: int)
    requires
        0 <= from,
        decoder.records_fault(frames, from) is None,
    ensures
        frames.len() <= from || frames.len() == decoder.spec_info().frame_count,
        forall|i: int|
            from <= i < frames.len() ==> #[trigger] decoder.record_fault(frames, i) is None,
    decreases frames.len() - from,
{
    if from < frames.len() {
        lemma_accepted_records(decoder, frames, from + 1);
    }
}

/// Where no record from `from` on is refused and none is missing, they are
/// accepted.
proof fn lemma_no_record_refused(decoder: AnimationDecoder, frames: Seq<DemuxFrame>, from: int)
    requires
        frames.len() == decoder.spec_info().frame_count,
        0 <= from,
        forall|i: int|
            from <= i < frames.len() ==> #[trigger] decoder.record_fault(frames, i) is None,
    ensures
        decoder.records_fault(frames, from) is None,
    decreases frames.len() - from,
{
    if from < frames.len() {
        assert(decoder.record_fault(frames, from) is None);
        lemma_no_record_refused(decoder, frames, from + 1);
    }
}

/// The sum of durations that are not negative grows with their count.
proof fn lemma_total_grows(frames: Seq<DemuxFrame>, few: int, many: int)
    requires
        0 <= few <= many <= frames.len(),
        forall|i: int| 0 <= i < frames.len() ==> (#[trigger] frames[i]).duration >= 0,
    ensures
        0 <= total_millis(frames, few) <= total_millis(frames, many),
    decreases many,
{
    if few < many {
        lemma_total_grows(frames, few, many - 1);
    } else if 0 < few {
        lemma_total_grows(frames, few - 1, many - 1);
    }
}

/// Where the durations are listed and the native decoder ends a frame after the
/// durations up to it, the frame is not refused for its timing.
pub proof fn law_listed_timing_is_accepted(
    decoder: AnimationDecoder,
    frames: Seq<DemuxFrame>,
    index: int,
)
    requires
        decoder.demux_fault(frames) is None,
        0 <= index < frames.len(),
        decoder.position_ms() == total_millis(frames, index),
    ensures
        decoder.timestamp_fault(total_millis(frames, index + 1)) is None,
{
    law_durations_listed_iff_well_formed(decoder, frames);
    assert(frames[index].duration >= 0);
    lemma_total_grows(frames, index + 1, frames.len() as int);
}

/// Reading the container's metadata and decoding agree: wherever libwebp's
/// decoder agrees with its demuxer, a decoder that reads the sequence from the
/// start to its end reads as many frames as the metadata says, each with the
/// listed duration.
pub proof fn law_listed_durations_are_decoded(
    states: Seq<AnimationDecoder>,
    timestamps: Seq<int>,
    decoded: Seq<Duration>,
    frames: Seq<DemuxFrame>,
    durations: Seq<Duration>,
)
    requires
        decoder_run(states, timestamps, decoded),
        states[0].at_start(),
        states[0].demux_fault(frames) is None,
        listed(frames, durations),
        timestamps_agree(timestamps, frames),
    ensures
        durations.len() == states[0].spec_info().frame_count,
        decoded == durations,
{
    law_durations_listed_iff_well_formed(states[0], frames);
    assert forall|i: int| 0 <= i < durations.len() implies #[trigger] decoded[i]
        == durations[i] by {
        assert(states[i].reads(timestamps[i], decoded[i], states[i + 1]));
        assert(timestamps[i] == total_millis(frames, i + 1));
        assert(durations[i]@ == time::millis_to_nanos(frames[i].duration as int));
        if i > 0 {
            assert(states[i - 1].reads(timestamps[i - 1], decoded[i - 1], states[i]));
            assert(timestamps[i - 1] == total_millis(frames, i));
        }
        assert(total_millis(frames, 0) == 0);
        time::lemma_equal_lengths(decoded[i], durations[i]);
    }
    assert(decoded =~= durations);
}

/// Listed durations add up to the sum that the records give.
pub proof fn lemma_listed_total(frames: Seq<DemuxFrame>, durations: Seq<Duration>)
    requires
        listed(frames, durations),
    ensures
        time::total(durations) == time::millis_to_nanos(
            total_millis(frames, frames.len() as int),
        ),
    decreases frames.len(),
{
    if frames.len() > 0 {
        let last = frames.len() - 1;
        lemma_listed_total(frames.drop_last(), durations.drop_last());
        lemma_total_of_prefix(frames, last);
        assert(durations[last]@ == time::millis_to_nanos(frames[last].duration as int));
    }
}

/// The sum of the first durations does not depend on the last one.
proof fn lemma_total_of_prefix(frames: Seq<DemuxFrame>, count: int)
    requires
        count < frames.len(),
    ensures
        total_millis(frames.drop_last(), count) == total_millis(frames, count),
    decreases count,
{
    if count > 0 {
        lemma_total_of_prefix(frames, count - 1);
    }
}

} // verus!
