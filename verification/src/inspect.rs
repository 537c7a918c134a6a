//! WebP container classification and metadata inspection.

use vstd::prelude::*;

use crate::codec::decode::{self, AnimationDecoder, DecodeError, DecodeLimits, NativeOpening};
use crate::model::{AnimationInfo, CanvasSize, StaticWebpInfo};
use crate::text::{self, push_decimal};
use crate::time::NANOS_PER_SEC;

verus! {

const RIFF_HEADER_LEN: usize = 12;

const RIFF_CHUNK_HEADER_LEN: usize = 8;

const WEBP_ANIMATION_FLAG: u8 = 0x02;

/// Resource limits used while classifying a WebP container and reading its
/// animation metadata.
///
/// The [`Default`] values mirror [`DecodeLimits::default`]. Metadata inspection
/// does not decode the complete frame sequence, but animated inputs are still
/// checked against the canvas, frame-count, and per-frame RGBA limits.
#[derive(Clone, Copy, Debug)]
pub struct InspectLimits {
    /// Maximum number of input bytes accepted by [`inspect`].
    pub max_input_bytes: usize,
    /// Maximum number of pixels in the image canvas.
    pub max_canvas_pixels: u64,
    /// Maximum number of frames reported for an animated input.
    pub max_frame_count: u32,
    /// Maximum number of bytes in one full-canvas RGBA frame.
    pub max_frame_rgba_bytes: usize,
}

impl Default for InspectLimits {
    fn default() -> (limits: Self)
        ensures
            limits.max_input_bytes == 256 * 1024 * 1024,
            limits.max_canvas_pixels == 100_000_000,
            limits.max_frame_count == 10_000,
            limits.max_frame_rgba_bytes == 400 * 1024 * 1024,
    {
        let decode = DecodeLimits::default();
        InspectLimits {
            max_input_bytes: decode.max_input_bytes,
            max_canvas_pixels: decode.max_canvas_pixels,
            max_frame_count: decode.max_frame_count,
            max_frame_rgba_bytes: decode.max_frame_rgba_bytes,
        }
    }
}

impl InspectLimits {
    /// Relaxes crate-level metadata inspection limits for trusted input.
    ///
    /// This does not bypass libwebp or platform allocation limits.
    pub fn for_trusted_input() -> (limits: Self)
        ensures
            limits == (InspectLimits {
                max_input_bytes: usize::MAX,
                max_canvas_pixels: u64::MAX,
                max_frame_count: u32::MAX,
                max_frame_rgba_bytes: usize::MAX,
            }),
    {
        InspectLimits {
            max_input_bytes: usize::MAX,
            max_canvas_pixels: u64::MAX,
            max_frame_count: u32::MAX,
            max_frame_rgba_bytes: usize::MAX,
        }
    }

    /// `limits` are these limits for a decoder, with the default maximum of the
    /// total duration.
    pub open spec fn decodes_under(self, limits: DecodeLimits) -> bool {
        &&& limits.max_input_bytes == self.max_input_bytes
        &&& limits.max_canvas_pixels == self.max_canvas_pixels
        &&& limits.max_frame_count == self.max_frame_count
        &&& limits.max_frame_rgba_bytes == self.max_frame_rgba_bytes
        &&& limits.max_total_duration@ == 60 * 60 * NANOS_PER_SEC
    }

    /// The limits for the decoder that reads the metadata of an animation.
    pub fn decode_limits(&self) -> (limits: DecodeLimits)
        ensures
            self.decodes_under(limits),
    {
        DecodeLimits {
            max_input_bytes: self.max_input_bytes,
            max_canvas_pixels: self.max_canvas_pixels,
            max_frame_count: self.max_frame_count,
            max_frame_rgba_bytes: self.max_frame_rgba_bytes,
            ..DecodeLimits::default()
        }
    }
}

/// The kind and metadata of a valid WebP image.
#[derive(Clone, Copy, Debug, PartialEq, Eq, Structural)]
pub enum WebpKind {
    /// A non-animated WebP image and its canvas dimensions.
    Static(StaticWebpInfo),
    /// One stored animated WebP sequence and its metadata.
    Animated(AnimationInfo),
}

/// What libwebp says of an image payload.
#[derive(Clone, Copy, Debug, PartialEq, Eq, Structural)]
pub struct NativeInfo {
    /// Non-zero where the payload is a valid image.
    pub valid: i32,
    /// Reported width in pixels.
    pub width: i32,
    /// Reported height in pixels.
    pub height: i32,
}

/// Failure while classifying a WebP container or reading its metadata.
#[derive(Clone, Debug, PartialEq, Eq)]
pub enum InspectError {
    /// The input is larger than the configured byte limit.
    InputTooLarge {
        /// Actual input length in bytes.
        actual: usize,
        /// Configured maximum input length in bytes.
        maximum: usize,
    },
    /// The input does not begin with a RIFF/WebP container header.
    InvalidContainer,
    /// The RIFF/WebP container ends before its declared chunks do.
    TruncatedContainer,
    /// libwebp rejected the image payload as invalid WebP data.
    InvalidWebp,
    /// A configured inspection limit was exceeded.
    LimitExceeded {
        /// Name of the exceeded limit.
        limit: &'static str,
        /// Observed value.
        actual: u64,
        /// Configured maximum value.
        maximum: u64,
    },
    /// Animated metadata inspection failed while constructing a decoder.
    Animation(DecodeError),
}

impl InspectError {
    /// The message that [`Self::message`] gives.
    pub open spec fn text(self) -> Seq<char> {
        match self {
            InspectError::InputTooLarge { actual, maximum } => "input is "@
                + text::decimal(actual as nat) + " bytes, exceeding the "@
                + text::decimal(maximum as nat) + "-byte limit"@,
            InspectError::InvalidContainer => "input is not a RIFF/WebP container"@,
            InspectError::TruncatedContainer => "WebP RIFF container is truncated or malformed"@,
            InspectError::InvalidWebp => "input is not a valid WebP image"@,
            InspectError::LimitExceeded { limit, actual, maximum } => limit@ + " is "@
                + text::decimal(actual as nat) + ", exceeding the "@
                + text::decimal(maximum as nat) + " limit"@,
            InspectError::Animation(error) => "failed to inspect animated WebP: "@ + error.text(),
        }
    }

    /// Describes the failure in a sentence fragment.
    pub fn message(&self) -> (message: String)
        ensures
            message@ == self.text(),
    {
        match self {
            InspectError::InputTooLarge { actual, maximum } => {
                let mut out = String::from_str("input is ");
                push_decimal(&mut out, *actual as u64);
                out.append(" bytes, exceeding the ");
                push_decimal(&mut out, *maximum as u64);
                out.append("-byte limit");
                out
            },
            InspectError::InvalidContainer => String::from_str(
                "input is not a RIFF/WebP container",
            ),
            InspectError::TruncatedContainer => String::from_str(
                "WebP RIFF container is truncated or malformed",
            ),
            InspectError::InvalidWebp => String::from_str("input is not a valid WebP image"),
            InspectError::LimitExceeded { limit, actual, maximum } => {
                let mut out = String::from_str(limit);
                out.append(" is ");
                push_decimal(&mut out, *actual);
                out.append(", exceeding the ");
                push_decimal(&mut out, *maximum);
                out.append(" limit");
                out
            },
            InspectError::Animation(error) => {
                let mut out = String::from_str("failed to inspect animated WebP: ");
                out.append(error.message().as_str());
                out
            },
        }
    }
}

/// The tag `RIFF` that opens a container.
pub open spec fn riff_tag() -> Seq<u8> {
    seq![0x52u8, 0x49, 0x46, 0x46]
}

/// The form `WEBP` of the container.
pub open spec fn webp_tag() -> Seq<u8> {
    seq![0x57u8, 0x45, 0x42, 0x50]
}

/// The tag `VP8X` of the chunk that holds the feature flags.
pub open spec fn vp8x_tag() -> Seq<u8> {
    seq![0x56u8, 0x50, 0x38, 0x58]
}

/// The four bytes at `at`.
pub open spec fn tag_at(bytes: Seq<u8>, at: int) -> Seq<u8> {
    bytes.subrange(at, at + 4)
}

/// The 32-bit little-endian number at `at`.
pub open spec fn le32_at(bytes: Seq<u8>, at: int) -> nat {
    (bytes[at] + 0x100 * bytes[at + 1] + 0x1_0000 * bytes[at + 2] + 0x100_0000 * bytes[at
        + 3]) as nat
}

/// Whether the animation flag is set in the feature flags of a `VP8X` chunk.
pub open spec fn animation_bit(flags: u8) -> bool {
    flags & 0x02 != 0
}

/// The end of the chunk at `offset`: its header, its payload, and a padding
/// byte behind a payload of odd length.
pub open spec fn chunk_end(bytes: Seq<u8>, offset: int) -> int {
    let length = le32_at(bytes, offset + 4);
    offset + 8 + length + length % 2
}

/// What the chunks from `offset` to `end` say of animation: the flag in the
/// first `VP8X` chunk, none without such a chunk, or that a chunk is cut off.
pub open spec fn chunks_verdict(bytes: Seq<u8>, end: int, offset: int) -> Result<bool, InspectError>
    decreases end - offset,
{
    if offset >= end {
        Ok(false)
    } else if offset + 8 > end || chunk_end(bytes, offset) > end {
        Err(InspectError::TruncatedContainer)
    } else if tag_at(bytes, offset) != vp8x_tag() {
        chunks_verdict(bytes, end, chunk_end(bytes, offset))
    } else if le32_at(bytes, offset + 4) < 10 {
        Err(InspectError::TruncatedContainer)
    } else {
        Ok(animation_bit(bytes[offset + 8]))
    }
}

/// No byte that is present in the place of a tag at `at` differs from the tag.
pub open spec fn tag_begun(bytes: Seq<u8>, at: int, tag: Seq<u8>) -> bool {
    &&& at < bytes.len() ==> bytes[at] == tag[0]
    &&& at + 1 < bytes.len() ==> bytes[at + 1] == tag[1]
    &&& at + 2 < bytes.len() ==> bytes[at + 2] == tag[2]
    &&& at + 3 < bytes.len() ==> bytes[at + 3] == tag[3]
}

/// The bytes begin with the header of a WebP container, as far as they go.
pub open spec fn header_begun(bytes: Seq<u8>) -> bool {
    tag_begun(bytes, 0, riff_tag()) && tag_begun(bytes, 8, webp_tag())
}

/// What the container says of animation, or why it is not a WebP container.
pub open spec fn container_verdict(bytes: Seq<u8>) -> Result<bool, InspectError> {
    if !header_begun(bytes) {
        Err(InspectError::InvalidContainer)
    } else if bytes.len() < 12 || 8 + le32_at(bytes, 4) > bytes.len() {
        Err(InspectError::TruncatedContainer)
    } else {
        chunks_verdict(bytes, 8 + le32_at(bytes, 4) as int, 12)
    }
}

/// Compares the bytes that are present at `at` with a tag.
fn tag_begins(bytes: &[u8], at: usize, tag: &[u8; 4]) -> (begins: bool)
    requires
        at <= 8,
    ensures
        begins == tag_begun(bytes@, at as int, tag@),
{
    let length: usize = bytes.len();
    (at >= length || bytes[at] == tag[0]) && (at + 1 >= length || bytes[at + 1] == tag[1]) && (at
        + 2 >= length || bytes[at + 2] == tag[2]) && (at + 3 >= length || bytes[at + 3] == tag[3])
}

/// Compares the four bytes at `at` with a tag.
fn tag_matches(bytes: &[u8], at: usize, tag: &[u8; 4]) -> (matches: bool)
    requires
        at + 4 <= bytes@.len(),
    ensures
        matches == (tag_at(bytes@, at as int) == tag@),
{
    let matches: bool = bytes[at] == tag[0] && bytes[at + 1] == tag[1] && bytes[at + 2] == tag[2]
        && bytes[at + 3] == tag[3];
    proof {
        let found = tag_at(bytes@, at as int);
        assert(found[0] == bytes@[at as int] && found[1] == bytes@[at + 1] && found[2] == bytes@[at
            + 2] && found[3] == bytes@[at + 3]);
        if matches {
            assert(found =~= tag@);
        }
    }
    matches
}

/// Reads the 32-bit little-endian number at `at`.
fn read_le32(bytes: &[u8], at: usize) -> (value: u32)
    requires
        at + 4 <= bytes@.len(),
    ensures
        value == le32_at(bytes@, at as int),
{
    bytes[at] as u32 + 0x100 * bytes[at + 1] as u32 + 0x1_0000 * bytes[at + 2] as u32 + 0x100_0000
        * bytes[at + 3] as u32
}

/// Reads from the container whether it holds an animation.
pub fn animation_flag(input: &[u8]) -> (result: Result<bool, InspectError>)
    ensures
        result == container_verdict(input@),
{
    let (riff, webp, vp8x): ([u8; 4], [u8; 4], [u8; 4]) = (
        [0x52, 0x49, 0x46, 0x46],
        [0x57, 0x45, 0x42, 0x50],
        [0x56, 0x50, 0x38, 0x58],
    );
    assert(riff@ =~= riff_tag() && webp@ =~= webp_tag() && vp8x@ =~= vp8x_tag());
    if !tag_begins(input, 0, &riff) || !tag_begins(input, 8, &webp) {
        return Err(InspectError::InvalidContainer);
    }
    if input.len() < RIFF_HEADER_LEN {
        return Err(InspectError::TruncatedContainer);
    }
    let riff_size: usize = read_le32(input, 4) as usize;
    let container_end: usize = match riff_size.checked_add(8) {
        Some(end) => end,
        None => return Err(InspectError::TruncatedContainer),
    };
    if container_end > input.len() {
        return Err(InspectError::TruncatedContainer);
    }
    let mut offset: usize = RIFF_HEADER_LEN;
    while offset < container_end
        invariant
            12 <= offset,
            container_end <= input@.len(),
            vp8x@ == vp8x_tag(),
            container_verdict(input@) == chunks_verdict(
                input@,
                container_end as int,
                offset as int,
            ),
        decreases container_end - offset,
    {
        let header_end: usize = match offset.checked_add(RIFF_CHUNK_HEADER_LEN) {
            Some(end) => end,
            None => return Err(InspectError::TruncatedContainer),
        };
        if header_end > container_end {
            return Err(InspectError::TruncatedContainer);
        }
        let length: usize = read_le32(input, offset + 4) as usize;
        let padded_length: usize = match length.checked_add(length % 2) {
            Some(padded) => padded,
            None => return Err(InspectError::TruncatedContainer),
        };
        let next: usize = match header_end.checked_add(padded_length) {
            Some(next) => next,
            None => return Err(InspectError::TruncatedContainer),
        };
        if next > container_end {
            return Err(InspectError::TruncatedContainer);
        }
        if tag_matches(input, offset, &vp8x) {
            if length < 10 {
                return Err(InspectError::TruncatedContainer);
            }
            return Ok(input[header_end] & WEBP_ANIMATION_FLAG != 0);
        }
        offset = next;
    }
    Ok(false)
}

/// Cheap boolean classification for routing. Use [`inspect`] when malformed
/// input must be reported.
pub fn is_animated_webp_fast(input: &[u8]) -> (animated: bool)
    ensures
        animated == (container_verdict(input@) == Ok::<bool, InspectError>(true)),
{
    match animation_flag(input) {
        Ok(animated) => animated,
        Err(_) => false,
    }
}

/// Refuses a canvas with more pixels than allowed.
pub fn enforce_canvas_limit(canvas: CanvasSize, maximum: u64) -> (result: Result<(), InspectError>)
    ensures
        result == if canvas.pixels() > maximum {
            Err(
                InspectError::LimitExceeded {
                    limit: "canvas pixels",
                    actual: canvas.pixels() as u64,
                    maximum,
                },
            )
        } else {
            Ok(())
        },
{
    let actual: u64 = match canvas.pixel_count() {
        Some(count) => count,
        None => return Err(InspectError::InvalidWebp),
    };
    if actual > maximum {
        return Err(InspectError::LimitExceeded { limit: "canvas pixels", actual, maximum });
    }
    Ok(())
}

/// The reason to refuse an input by its size or its container, if there is one.
pub open spec fn container_fault(input: Seq<u8>, limits: InspectLimits) -> Option<InspectError> {
    if input.len() > limits.max_input_bytes {
        Some(
            InspectError::InputTooLarge {
                actual: input.len() as usize,
                maximum: limits.max_input_bytes,
            },
        )
    } else {
        match container_verdict(input) {
            Ok(_) => None,
            Err(error) => Some(error),
        }
    }
}

/// The canvas that libwebp reports, where it is one.
pub open spec fn native_canvas(info: NativeInfo) -> CanvasSize {
    CanvasSize { width: info.width as u32, height: info.height as u32 }
}

/// The reason to refuse what libwebp reports of the canvas, if there is one.
pub open spec fn canvas_fault(info: NativeInfo, limits: InspectLimits) -> Option<InspectError> {
    if info.valid == 0 || info.width < 0 || info.height < 0 {
        Some(InspectError::InvalidWebp)
    } else if native_canvas(info).pixels() > limits.max_canvas_pixels {
        Some(
            InspectError::LimitExceeded {
                limit: "canvas pixels",
                actual: native_canvas(info).pixels() as u64,
                maximum: limits.max_canvas_pixels,
            },
        )
    } else {
        None
    }
}

/// Checks an input before libwebp is asked about it, and reads from its
/// container whether it holds an animation.
pub fn inspect_container(input: &[u8], limits: &InspectLimits) -> (result: Result<
    bool,
    InspectError,
>)
    ensures
        match container_fault(input@, *limits) {
            Some(error) => result == Err::<bool, InspectError>(error),
            None => result == container_verdict(input@),
        },
{
    if input.len() > limits.max_input_bytes {
        return Err(
            InspectError::InputTooLarge { actual: input.len(), maximum: limits.max_input_bytes },
        );
    }
    animation_flag(input)
}

/// Checks the canvas that libwebp reports.
pub fn inspect_canvas(info: NativeInfo, limits: &InspectLimits) -> (result: Result<
    CanvasSize,
    InspectError,
>)
    ensures
        match canvas_fault(info, *limits) {
            Some(error) => result == Err::<CanvasSize, InspectError>(error),
            None => result == Ok::<CanvasSize, InspectError>(native_canvas(info)),
        },
{
    if info.valid == 0 || info.width < 0 || info.height < 0 {
        return Err(InspectError::InvalidWebp);
    }
    let canvas = CanvasSize { width: info.width as u32, height: info.height as u32 };
    match enforce_canvas_limit(canvas, limits.max_canvas_pixels) {
        Ok(()) => Ok(canvas),
        Err(error) => Err(error),
    }
}

/// Inspects container kind and metadata without decoding its complete frame
/// sequence.
///
/// `info` is what libwebp says of the payload, and `opening` how opening an
/// animation decoder under [`InspectLimits::decode_limits`] ended. The first is
/// read only where [`inspect_container`] succeeds, the second only where
/// moreover [`inspect_canvas`] does and the container holds an animation.
pub fn inspect(
    input: &[u8],
    limits: InspectLimits,
    info: NativeInfo,
    opening: NativeOpening,
) -> (result: Result<WebpKind, InspectError>)
    ensures
        match (container_fault(input@, limits), canvas_fault(info, limits)) {
            (Some(error), _) => result == Err::<WebpKind, InspectError>(error),
            (None, Some(error)) => result == Err::<WebpKind, InspectError>(error),
            (None, None) => if container_verdict(input@) == Ok::<bool, InspectError>(false) {
                result == Ok::<WebpKind, InspectError>(
                    WebpKind::Static(StaticWebpInfo { canvas: native_canvas(info) }),
                )
            } else {
                exists|decode_limits: DecodeLimits| #[trigger]
                    limits.decodes_under(decode_limits) && match decode::opening_fault(
                        input@,
                        decode_limits,
                        opening,
                    ) {
                        Some(error) => result == Err::<WebpKind, InspectError>(
                            InspectError::Animation(error),
                        ),
                        None => result matches Ok(WebpKind::Animated(animation)) && opening matches
                        NativeOpening::Opened(raw) && decode::info_matches(animation, raw),
                    }
            },
        },
        result matches Ok(WebpKind::Animated(_)) ==> container_verdict(input@) == Ok::<
            bool,
            InspectError,
        >(true),
        result matches Ok(WebpKind::Static(_)) ==> container_verdict(input@) == Ok::<
            bool,
            InspectError,
        >(false),
{
    let animated: bool = match inspect_container(input, &limits) {
        Ok(animated) => animated,
        Err(error) => return Err(error),
    };
    let canvas = match inspect_canvas(info, &limits) {
        Ok(canvas) => canvas,
        Err(error) => return Err(error),
    };
    if !animated {
        return Ok(WebpKind::Static(StaticWebpInfo { canvas }));
    }
    let decode_limits = limits.decode_limits();
    match AnimationDecoder::new(input, decode_limits, opening) {
        Ok(decoder) => Ok(WebpKind::Animated(*decoder.info())),
        Err(error) => Err(InspectError::Animation(error)),
    }
}

/// An input is an invalid container exactly where it does not begin with the
/// header of one, however short it is; whatever else is wrong with it, it is
/// truncated.
pub proof fn law_invalid_iff_header_differs(bytes: Seq<u8>)
    ensures
        container_verdict(bytes) == Err::<bool, InspectError>(InspectError::InvalidContainer)
            <==> !header_begun(bytes),
        header_begun(bytes) && container_verdict(bytes) is Err ==> container_verdict(bytes)
            == Err::<bool, InspectError>(InspectError::TruncatedContainer),
{
    lemma_chunks_only_truncated(bytes, 8 + le32_at(bytes, 4) as int, 12);
}

/// Chunks can be cut off, and nothing else can be wrong with them.
proof fn lemma_chunks_only_truncated(bytes: Seq<u8>, end: int, offset: int)
    ensures
        chunks_verdict(bytes, end, offset) is Ok || chunks_verdict(bytes, end, offset) == Err::<
            bool,
            InspectError,
        >(InspectError::TruncatedContainer),
    decreases end - offset,
{
    if offset < end && offset + 8 <= end && chunk_end(bytes, offset) <= end {
        lemma_chunks_only_truncated(bytes, end, chunk_end(bytes, offset));
    }
}

/// Bytes behind the declared end of a container do not change what it says.
pub proof fn law_trailing_bytes_ignored(bytes: Seq<u8>, trailing: Seq<u8>)
    requires
        container_verdict(bytes) is Ok,
    ensures
        container_verdict(bytes + trailing) == container_verdict(bytes),
{
    let all = bytes + trailing;
    lemma_chunks_read_within_end(bytes, all, 8 + le32_at(bytes, 4) as int, 12);
}

/// What the chunks up to `end` say depends on no byte behind `end`.
proof fn lemma_chunks_read_within_end(bytes: Seq<u8>, other: Seq<u8>, end: int, offset: int)
    requires
        0 <= offset,
        end <= bytes.len(),
        end <= other.len(),
        forall|i: int| 0 <= i < end ==> #[trigger] bytes[i] == other[i],
    ensures
        chunks_verdict(bytes, end, offset) == chunks_verdict(other, end, offset),
    decreases end - offset,
{
    if offset < end && offset + 8 <= end && chunk_end(bytes, offset) <= end {
        assert(tag_at(bytes, offset) =~= tag_at(other, offset));
        lemma_chunks_read_within_end(bytes, other, end, chunk_end(bytes, offset));
        assert(offset + 8 < end ==> bytes[offset + 8] == other[offset + 8]);
    }
}

/// A container that is cut off before its declared end is reported as truncated.
pub proof fn law_cut_off_container_is_truncated(bytes: Seq<u8>, length: int)
    requires
        container_verdict(bytes) is Ok,
        0 <= length < 8 + le32_at(bytes, 4),
    ensures
        container_verdict(bytes.take(length)) == Err::<bool, InspectError>(
            InspectError::TruncatedContainer,
        ),
{
}

/// A number below 2^32 as four bytes, lowest first.
pub open spec fn le32(value: nat) -> Seq<u8> {
    seq![
        (value % 0x100) as u8,
        (value / 0x100 % 0x100) as u8,
        (value / 0x1_0000 % 0x100) as u8,
        (value / 0x100_0000 % 0x100) as u8,
    ]
}

/// A chunk of a container: its tag and its payload.
pub ghost struct Chunk {
    /// The four bytes of the tag.
    pub tag: Seq<u8>,
    /// The payload, without padding.
    pub payload: Seq<u8>,
}

impl Chunk {
    /// The chunk as it is stored: tag, length, payload, and a padding byte
    /// behind a payload of odd length.
    pub open spec fn bytes(self) -> Seq<u8> {
        let padding = if self.payload.len() % 2 == 0 {
            seq![]
        } else {
            seq![0u8]
        };
        self.tag + le32(self.payload.len()) + self.payload + padding
    }
}

/// Chunks as they are stored, one behind the other.
pub open spec fn chunks_bytes(chunks: Seq<Chunk>) -> Seq<u8>
    decreases chunks.len(),
{
    if chunks.len() == 0 {
        seq![]
    } else {
        chunks[0].bytes() + chunks_bytes(chunks.drop_first())
    }
}

/// A WebP container of the given chunks.
pub open spec fn container_bytes(chunks: Seq<Chunk>) -> Seq<u8> {
    riff_tag() + le32(4 + chunks_bytes(chunks).len()) + webp_tag() + chunks_bytes(chunks)
}

/// What chunks say of animation: the flag in the first `VP8X` chunk, or none
/// without such a chunk; a `VP8X` chunk that is too short says nothing.
pub open spec fn declared_animation(chunks: Seq<Chunk>) -> Result<bool, InspectError>
    decreases chunks.len(),
{
    if chunks.len() == 0 {
        Ok(false)
    } else if chunks[0].tag != vp8x_tag() {
        declared_animation(chunks.drop_first())
    } else if chunks[0].payload.len() < 10 {
        Err(InspectError::TruncatedContainer)
    } else {
        Ok(animation_bit(chunks[0].payload[0]))
    }
}

/// A container of any chunks is classified by the flags in the first `VP8X`
/// chunk, whatever other chunks stand before or behind it.
pub proof fn law_container_says_what_its_chunks_declare(chunks: Seq<Chunk>)
    requires
        forall|i: int| 0 <= i < chunks.len() ==> (#[trigger] chunks[i]).tag.len() == 4,
        4 + chunks_bytes(chunks).len() < 0x1_0000_0000,
    ensures
        container_verdict(container_bytes(chunks)) == declared_animation(chunks),
{
    let body = chunks_bytes(chunks);
    let bytes = container_bytes(chunks);
    let header = riff_tag() + le32(4 + body.len()) + webp_tag();
    lemma_le32_read_back(riff_tag(), 4 + body.len(), webp_tag() + body);
    assert(riff_tag() + le32(4 + body.len()) + (webp_tag() + body) =~= bytes);
    lemma_chunks_read_back(header, chunks);
    assert(header + body =~= bytes);
}

/// A stored number is read back.
proof fn lemma_le32_read_back(before: Seq<u8>, value: nat, behind: Seq<u8>)
    requires
        value < 0x1_0000_0000,
    ensures
        le32_at(before + le32(value) + behind, before.len() as int) == value,
{
    let bytes = before + le32(value) + behind;
    let at = before.len() as int;
    assert(bytes[at] == le32(value)[0] && bytes[at + 1] == le32(value)[1] && bytes[at + 2] == le32(
        value,
    )[2] && bytes[at + 3] == le32(value)[3]);
}

/// Stored chunks are read back.
proof fn lemma_chunks_read_back(before: Seq<u8>, chunks: Seq<Chunk>)
    requires
        forall|i: int| 0 <= i < chunks.len() ==> (#[trigger] chunks[i]).tag.len() == 4,
        chunks_bytes(chunks).len() < 0x1_0000_0000,
    ensures
        ({
            let bytes = before + chunks_bytes(chunks);
            chunks_verdict(bytes, bytes.len() as int, before.len() as int) == declared_animation(
                chunks,
            )
        }),
    decreases chunks.len(),
{
    if chunks.len() > 0 {
        let (first, rest) = (chunks[0], chunks.drop_first());
        let bytes = before + chunks_bytes(chunks);
        let offset = before.len() as int;
        let behind = bytes.skip(offset + 8);
        assert(bytes =~= before + first.tag + le32(first.payload.len()) + behind);
        lemma_le32_read_back(before + first.tag, first.payload.len(), behind);
        assert(tag_at(bytes, offset) =~= first.tag);
        assert(chunk_end(bytes, offset) == offset + first.bytes().len());
        assert(bytes =~= before + first.bytes() + chunks_bytes(rest));
        lemma_chunks_read_back(before + first.bytes(), rest);
        assert(first.payload.len() > 0 ==> bytes[offset + 8] == first.payload[0]);
    }
}

} // verus!
