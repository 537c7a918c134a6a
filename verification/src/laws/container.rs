//! Laws of container classification and inspection, over the bytes of the input.

use vstd::prelude::*;

use crate::codec::decode::{
    AnimationDecoder, DecodeError, DecodeLimits, NativeOpening, RawAnimationInfo,
};
use crate::inspect::{
    self, animation_flag, enforce_canvas_limit, inspect, inspect_canvas, inspect_container,
    is_animated_webp_fast, InspectError, InspectLimits, NativeInfo, WebpKind,
};
use crate::laws::decoding;
use crate::model::CanvasSize;
use crate::time::Duration;

verus! {

/// The number that four bytes give, lowest first.
pub open spec fn number_at(bytes: Seq<u8>, at: int) -> int {
    bytes[at] + 256 * bytes[at + 1] + 65_536 * bytes[at + 2] + 16_777_216 * bytes[at + 3]
}

/// The declared end of the container.
pub open spec fn declared_end(bytes: Seq<u8>) -> int {
    8 + number_at(bytes, 4)
}

/// The bytes hold a whole container: `RIFF`, a size, `WEBP`, and all that the
/// size announces.
pub open spec fn whole_container(bytes: Seq<u8>) -> bool {
    &&& bytes.len() >= 12
    &&& bytes[0] == 0x52 && bytes[1] == 0x49 && bytes[2] == 0x46 && bytes[3] == 0x46
    &&& bytes[8] == 0x57 && bytes[9] == 0x45 && bytes[10] == 0x42 && bytes[11] == 0x50
    &&& declared_end(bytes) <= bytes.len()
}

/// The tag `VP8X` stands at `at`.
pub open spec fn features_at(bytes: Seq<u8>, at: int) -> bool {
    bytes[at] == 0x56 && bytes[at + 1] == 0x50 && bytes[at + 2] == 0x38 && bytes[at + 3] == 0x58
}

/// Where the chunk at `at` ends: behind its header, its payload, and one more
/// byte if the payload is odd.
pub open spec fn end_of_chunk(bytes: Seq<u8>, at: int) -> int {
    at + 8 + number_at(bytes, at + 4) + number_at(bytes, at + 4) % 2
}

/// `offsets` lead from the first chunk to a place in the container: each but the
/// last is that of a whole chunk other than `VP8X`, with the next one behind it.
pub open spec fn leads_through(bytes: Seq<u8>, offsets: Seq<int>) -> bool {
    &&& offsets.len() > 0
    &&& offsets[0] == 12
    &&& forall|i: int|
        0 <= i < offsets.len() - 1 ==> {
            &&& (#[trigger] offsets[i]) + 8 <= declared_end(bytes)
            &&& !features_at(bytes, offsets[i])
            &&& offsets[i + 1] == end_of_chunk(bytes, offsets[i])
            &&& offsets[i + 1] <= declared_end(bytes)
        }
}

/// The verdict on a container is that on its chunks from any place that the
/// first chunks lead to.
proof fn lemma_verdict_from(bytes: Seq<u8>, offsets: Seq<int>)
    requires
        whole_container(bytes),
        leads_through(bytes, offsets),
    ensures
        offsets.last() >= 12,
        inspect::container_verdict(bytes) == inspect::chunks_verdict(
            bytes,
            declared_end(bytes),
            offsets.last(),
        ),
    decreases offsets.len(),
{
    if offsets.len() > 1 {
        let earlier = offsets.drop_last();
        let at = earlier.last();
        assert(earlier[earlier.len() - 1] == offsets[offsets.len() - 2]);
        assert(leads_through(bytes, earlier)) by {
            assert forall|i: int| 0 <= i < earlier.len() - 1 implies {
                &&& (#[trigger] earlier[i]) + 8 <= declared_end(bytes)
                &&& !features_at(bytes, earlier[i])
                &&& earlier[i + 1] == end_of_chunk(bytes, earlier[i])
                &&& earlier[i + 1] <= declared_end(bytes)
            } by {
                assert(earlier[i] == offsets[i] && earlier[i + 1] == offsets[i + 1]);
            }
        }
        lemma_verdict_from(bytes, earlier);
        lemma_tag(bytes, at);
    }
}

/// A tag is `VP8X` exactly where its four bytes are.
proof fn lemma_tag(bytes: Seq<u8>, at: int)
    requires
        0 <= at,
        at + 4 <= bytes.len(),
    ensures
        inspect::tag_at(bytes, at) == inspect::vp8x_tag() <==> features_at(bytes, at),
{
    let found = inspect::tag_at(bytes, at);
    assert(found.len() == 4 && found[0] == bytes[at] && found[1] == bytes[at + 1] && found[2]
        == bytes[at + 2] && found[3] == bytes[at + 3]);
    let tag = inspect::vp8x_tag();
    assert(tag.len() == 4 && tag[0] == 0x56 && tag[1] == 0x50 && tag[2] == 0x38 && tag[3] == 0x58);
    if features_at(bytes, at) {
        assert(found =~= tag);
    }
}

/// The second lowest bit of the flags in the first `VP8X` chunk says whether a
/// container is animated, whatever the bits beside it say, and whatever chunks
/// stand before or behind.
pub proof fn law_second_flag_bit_decides(
    input: &[u8],
    result: Result<bool, InspectError>,
    offsets: Seq<int>,
)
    requires
        call_ensures(animation_flag, (input,), result),
        whole_container(input@),
        leads_through(input@, offsets),
        offsets.last() + 8 <= declared_end(input@),
        end_of_chunk(input@, offsets.last()) <= declared_end(input@),
        features_at(input@, offsets.last()),
        number_at(input@, offsets.last() + 4) >= 10,
    ensures
        result == Ok::<bool, InspectError>((input@[offsets.last() + 8] / 2) % 2 == 1),
{
    lemma_verdict_from(input@, offsets);
    lemma_tag(input@, offsets.last());
    let flags = input@[offsets.last() + 8];
    assert(flags & 0x02 != 0 <==> (flags / 2) % 2 == 1) by (bit_vector);
}

/// A container whose chunks are all whole and none of them `VP8X` is not
/// animated.
pub proof fn law_still_without_feature_chunk(
    input: &[u8],
    result: Result<bool, InspectError>,
    offsets: Seq<int>,
)
    requires
        call_ensures(animation_flag, (input,), result),
        whole_container(input@),
        leads_through(input@, offsets),
        offsets.last() >= declared_end(input@),
    ensures
        result == Ok::<bool, InspectError>(false),
{
    lemma_verdict_from(input@, offsets);
}

/// A container is truncated where a chunk before any `VP8X` chunk, or that chunk
/// itself, is cut off by the declared end, or where the `VP8X` chunk has fewer
/// than ten bytes.
pub proof fn law_cut_off_chunks_are_truncated(
    input: &[u8],
    result: Result<bool, InspectError>,
    offsets: Seq<int>,
)
    requires
        call_ensures(animation_flag, (input,), result),
        whole_container(input@),
        leads_through(input@, offsets),
        offsets.last() < declared_end(input@),
        offsets.last() + 8 > declared_end(input@) || end_of_chunk(input@, offsets.last())
            > declared_end(input@) || (features_at(input@, offsets.last()) && number_at(
            input@,
            offsets.last() + 4,
        ) < 10),
    ensures
        result == Err::<bool, InspectError>(InspectError::TruncatedContainer),
{
    lemma_verdict_from(input@, offsets);
    if offsets.last() + 8 <= declared_end(input@) {
        lemma_tag(input@, offsets.last());
    }
}

/// An input is no container exactly where one of its first twelve bytes, as far
/// as they are there, is not that of the header; what begins like a container and
/// is not whole is truncated.
pub proof fn law_header_decides_what_is_a_container(
    input: &[u8],
    result: Result<bool, InspectError>,
)
    requires
        call_ensures(animation_flag, (input,), result),
    ensures
        ({
            let (b, n) = (input@, input@.len());
            let differs = (n > 0 && b[0] != 0x52) || (n > 1 && b[1] != 0x49) || (n > 2 && b[2]
                != 0x46) || (n > 3 && b[3] != 0x46) || (n > 8 && b[8] != 0x57) || (n > 9 && b[9]
                != 0x45) || (n > 10 && b[10] != 0x42) || (n > 11 && b[11] != 0x50);
            &&& differs <==> result == Err::<bool, InspectError>(InspectError::InvalidContainer)
            &&& !differs && !whole_container(b) ==> result == Err::<bool, InspectError>(
                InspectError::TruncatedContainer,
            )
        }),
{
    inspect::law_invalid_iff_header_differs(input@);
    let tag = inspect::riff_tag();
    assert(tag[0] == 0x52 && tag[1] == 0x49 && tag[2] == 0x46 && tag[3] == 0x46);
    let form = inspect::webp_tag();
    assert(form[0] == 0x57 && form[1] == 0x45 && form[2] == 0x42 && form[3] == 0x50);
}

/// The fast classifier says yes exactly where the flag is read and set.
pub proof fn law_fast_classifier_agrees(
    input: &[u8],
    flag: Result<bool, InspectError>,
    animated: bool,
)
    requires
        call_ensures(animation_flag, (input,), flag),
        call_ensures(is_animated_webp_fast, (input,), animated),
    ensures
        animated <==> flag is Ok && flag->Ok_0,
{
}

/// An input is too large exactly where it is longer than allowed; otherwise the
/// container decides.
pub proof fn law_input_size_comes_first(
    input: &[u8],
    limits: &InspectLimits,
    flag: Result<bool, InspectError>,
    result: Result<bool, InspectError>,
)
    requires
        call_ensures(animation_flag, (input,), flag),
        call_ensures(inspect_container, (input, limits), result),
    ensures
        input@.len() > limits.max_input_bytes ==> result == Err::<bool, InspectError>(
            InspectError::InputTooLarge {
                actual: input@.len() as usize,
                maximum: limits.max_input_bytes,
            },
        ),
        input@.len() <= limits.max_input_bytes ==> result == flag,
{
}

/// A canvas is refused exactly where it has more pixels than allowed.
pub proof fn law_canvas_pixels_are_limited(
    canvas: CanvasSize,
    maximum: u64,
    result: Result<(), InspectError>,
)
    requires
        call_ensures(enforce_canvas_limit, (canvas, maximum), result),
    ensures
        result is Ok <==> canvas.width * canvas.height <= maximum,
        result is Err ==> result == Err::<(), InspectError>(
            InspectError::LimitExceeded {
                limit: "canvas pixels",
                actual: (canvas.width * canvas.height) as u64,
                maximum,
            },
        ),
{
    crate::model::lemma_pixels_bounded(canvas);
}

/// What libwebp reports of a canvas is taken over where it is valid, has no
/// negative side, and is not too large.
pub proof fn law_reported_canvas_is_taken_over(
    info: NativeInfo,
    limits: &InspectLimits,
    result: Result<CanvasSize, InspectError>,
)
    requires
        call_ensures(inspect_canvas, (info, limits), result),
    ensures
        info.valid == 0 || info.width < 0 || info.height < 0 ==> result == Err::<
            CanvasSize,
            InspectError,
        >(InspectError::InvalidWebp),
        info.valid != 0 && info.width >= 0 && info.height >= 0 ==> {
            if info.width * info.height <= limits.max_canvas_pixels {
                result is Ok && result->Ok_0.width == info.width && result->Ok_0.height
                    == info.height
            } else {
                result == Err::<CanvasSize, InspectError>(
                    InspectError::LimitExceeded {
                        limit: "canvas pixels",
                        actual: (info.width * info.height) as u64,
                        maximum: limits.max_canvas_pixels,
                    },
                )
            }
        },
{
}

/// The metadata of an animation is read under the limits of the inspection and
/// one hour of total duration.
pub proof fn law_inspection_limits_are_handed_on(limits: &InspectLimits, decode: DecodeLimits)
    requires
        call_ensures(InspectLimits::decode_limits, (limits,), decode),
    ensures
        decode.max_input_bytes == limits.max_input_bytes,
        decode.max_canvas_pixels == limits.max_canvas_pixels,
        decode.max_frame_count == limits.max_frame_count,
        decode.max_frame_rgba_bytes == limits.max_frame_rgba_bytes,
        decode.max_total_duration@ == 3_600_000_000_000,
{
}

/// An inspection fails as its first failing step does; a still image is reported
/// with the canvas that libwebp gives, and only where the container is read and
/// declares no animation.
pub proof fn law_inspection_of_still_images(
    input: &[u8],
    limits: InspectLimits,
    info: NativeInfo,
    opening: NativeOpening,
    container: Result<bool, InspectError>,
    canvas: Result<CanvasSize, InspectError>,
    result: Result<WebpKind, InspectError>,
)
    requires
        call_ensures(inspect_container, (input, &limits), container),
        call_ensures(inspect_canvas, (info, &limits), canvas),
        call_ensures(inspect, (input, limits, info, opening), result),
    ensures
        container is Err ==> result is Err && result->Err_0 == container->Err_0,
        container is Ok && canvas is Err ==> result is Err && result->Err_0 == canvas->Err_0,
        container is Ok && canvas is Ok && !container->Ok_0 ==> (result matches Ok(
            WebpKind::Static(still),
        ) && still.canvas == canvas->Ok_0),
        result matches Ok(WebpKind::Static(_)) ==> container == Ok::<bool, InspectError>(false),
        result matches Ok(WebpKind::Animated(_)) ==> container == Ok::<bool, InspectError>(true),
{
}

/// An animation is reported with the numbers that libwebp gives, exactly where
/// they are within the limits.
pub proof fn law_inspection_of_animations(
    input: &[u8],
    limits: InspectLimits,
    info: NativeInfo,
    raw: RawAnimationInfo,
    canvas: Result<CanvasSize, InspectError>,
    result: Result<WebpKind, InspectError>,
)
    requires
        call_ensures(inspect_container, (input, &limits), Ok(true)),
        call_ensures(inspect_canvas, (info, &limits), canvas),
        canvas is Ok,
        call_ensures(inspect, (input, limits, info, NativeOpening::Opened(raw)), result),
    ensures
        result is Ok <==> {
            &&& raw.canvas_width * raw.canvas_height <= limits.max_canvas_pixels
            &&& raw.frame_count <= limits.max_frame_count
            &&& 4 * (raw.canvas_width * raw.canvas_height) <= limits.max_frame_rgba_bytes
            &&& raw.loop_count <= 65_535
        },
        result is Ok ==> (result matches Ok(WebpKind::Animated(animation)) && decoding::reports(
            animation,
            raw,
        )),
        result is Err ==> result->Err_0 is Animation,
{
}

/// The inspection of an animation ends as opening a decoder under its limits does:
/// with the same metadata, or for the same reason.
pub proof fn law_inspection_agrees_with_the_decoder(
    input: &[u8],
    limits: InspectLimits,
    info: NativeInfo,
    opening: NativeOpening,
    canvas: Result<CanvasSize, InspectError>,
    decode_limits: DecodeLimits,
    decoder: Result<AnimationDecoder, DecodeError>,
    result: Result<WebpKind, InspectError>,
)
    requires
        call_ensures(inspect_container, (input, &limits), Ok(true)),
        call_ensures(inspect_canvas, (info, &limits), canvas),
        canvas is Ok,
        call_ensures(InspectLimits::decode_limits, (&limits,), decode_limits),
        call_ensures(AnimationDecoder::new, (input, decode_limits, opening), decoder),
        call_ensures(inspect, (input, limits, info, opening), result),
    ensures
        match decoder {
            Err(error) => result == Err::<WebpKind, InspectError>(InspectError::Animation(error)),
            Ok(decoder) => (result matches Ok(WebpKind::Animated(animation)) && {
                &&& animation.canvas == decoder.spec_info().canvas
                &&& animation.frame_count == decoder.spec_info().frame_count
                &&& animation.loop_count.stored() == decoder.spec_info().loop_count.stored()
                &&& animation.background_color == decoder.spec_info().background_color
            }),
        },
{
}

/// The limits for untrusted input are those of the decoder: 256 MiB of input, a
/// hundred million pixels, ten thousand frames, and 400 MiB for a frame.
pub proof fn law_default_limits(limits: InspectLimits, decode: DecodeLimits)
    requires
        call_ensures(InspectLimits::default, (), limits),
        call_ensures(DecodeLimits::default, (), decode),
    ensures
        limits.max_input_bytes == 268_435_456,
        limits.max_canvas_pixels == 100_000_000,
        limits.max_frame_count == 10_000,
        limits.max_frame_rgba_bytes == 419_430_400,
        decode.max_input_bytes == limits.max_input_bytes,
        decode.max_canvas_pixels == limits.max_canvas_pixels,
        decode.max_frame_count == limits.max_frame_count,
        decode.max_frame_rgba_bytes == limits.max_frame_rgba_bytes,
        decode.max_total_duration@ == 3_600_000_000_000,
{
}

/// The limits for trusted input refuse nothing that can be counted.
pub proof fn law_trusted_limits(limits: InspectLimits, decode: DecodeLimits, longest: Duration)
    requires
        call_ensures(InspectLimits::for_trusted_input, (), limits),
        call_ensures(DecodeLimits::for_trusted_input, (), decode),
        call_ensures(Duration::max, (), longest),
    ensures
        limits.max_input_bytes == usize::MAX,
        limits.max_canvas_pixels == u64::MAX,
        limits.max_frame_count == u32::MAX,
        limits.max_frame_rgba_bytes == usize::MAX,
        decode.max_input_bytes == usize::MAX,
        decode.max_canvas_pixels == u64::MAX,
        decode.max_frame_count == u32::MAX,
        decode.max_frame_rgba_bytes == usize::MAX,
        decode.max_total_duration@ == longest@,
        longest@ == 0x1_0000_0000_0000_0000 * 1_000_000_000 - 1,
{
}

/// Where no decoder can be opened, the inspection of an animation says why.
pub proof fn law_inspection_without_a_decoder(
    input: &[u8],
    limits: InspectLimits,
    info: NativeInfo,
    opening: NativeOpening,
    canvas: Result<CanvasSize, InspectError>,
    result: Result<WebpKind, InspectError>,
)
    requires
        call_ensures(inspect_container, (input, &limits), Ok(true)),
        call_ensures(inspect_canvas, (info, &limits), canvas),
        canvas is Ok,
        call_ensures(inspect, (input, limits, info, opening), result),
        !(opening is Opened),
    ensures
        result == Err::<WebpKind, InspectError>(
            InspectError::Animation(
                match opening {
                    NativeOpening::OptionsFailed => DecodeError::DecoderOptionsInitialization,
                    NativeOpening::CreationFailed => DecodeError::DecoderCreation,
                    _ => DecodeError::DecoderInfo,
                },
            ),
        ),
{
}

} // verus!
