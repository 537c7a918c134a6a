//! Laws of the decoder.

use vstd::prelude::*;

use crate::codec::decode::{
    self, enforce_limit, AnimationDecoder, ColorMode, DecodeError, DecodeLimits, DecoderOptions,
    DemuxFrame, NativeFrame, NativeOpening, RawAnimationInfo,
};
use crate::inspect::{animation_flag, InspectError};
use crate::model::{AnimationFrame, AnimationInfo, LoopCount, NonZeroU16};
use crate::time::Duration;

verus! {

/// The metadata holds the numbers that libwebp reported, where a loop count of
/// zero is endless.
pub open spec fn reports(info: AnimationInfo, raw: RawAnimationInfo) -> bool {
    &&& info.canvas.width == raw.canvas_width
    &&& info.canvas.height == raw.canvas_height
    &&& info.frame_count == raw.frame_count
    &&& info.background_color.raw == raw.bgcolor
    &&& raw.loop_count == 0 <==> info.loop_count is Infinite
    &&& info.loop_count matches LoopCount::Finite(count) ==> count@ == raw.loop_count
}

/// A value is refused exactly where it is above its limit.
pub proof fn law_limit_is_inclusive(
    limit: &'static str,
    actual: u64,
    maximum: u64,
    result: Result<(), DecodeError>,
)
    requires
        call_ensures(enforce_limit, (limit, actual, maximum), result),
    ensures
        actual <= maximum ==> result is Ok,
        actual > maximum ==> result == Err::<(), DecodeError>(
            DecodeError::LimitExceeded { limit, actual, maximum },
        ),
{
}

/// An input is handed to libwebp, for RGBA pixels and with threads, exactly where
/// it is not too large and its container declares an animation. A still image is
/// told from a malformed one.
pub proof fn law_inputs_are_judged_by_size_and_flag(
    input: &[u8],
    limits: &DecodeLimits,
    flag: Result<bool, InspectError>,
    result: Result<DecoderOptions, DecodeError>,
)
    requires
        call_ensures(animation_flag, (input,), flag),
        call_ensures(AnimationDecoder::check_input, (input, limits), result),
    ensures
        input@.len() > limits.max_input_bytes ==> result == Err::<DecoderOptions, DecodeError>(
            DecodeError::InputTooLarge {
                actual: input@.len() as usize,
                maximum: limits.max_input_bytes,
            },
        ),
        input@.len() <= limits.max_input_bytes ==> match flag {
            Ok(true) => {
                &&& result is Ok
                &&& result->Ok_0.color_mode == ColorMode::Rgba
                &&& result->Ok_0.use_threads == 1
            },
            Ok(false) => result == Err::<DecoderOptions, DecodeError>(
                DecodeError::NotAnimatedWebp,
            ),
            Err(_) => result == Err::<DecoderOptions, DecodeError>(DecodeError::DecoderCreation),
        },
{
}

/// A decoder is opened where the input is accepted, libwebp opens, and what it
/// reports is within every limit. The decoder then reports the same numbers.
pub proof fn law_opened_decoder_reports_what_libwebp_does(
    input: &[u8],
    limits: DecodeLimits,
    raw: RawAnimationInfo,
    judged: Result<DecoderOptions, DecodeError>,
    result: Result<AnimationDecoder, DecodeError>,
    info: &AnimationInfo,
    bytes: usize,
)
    requires
        call_ensures(AnimationDecoder::check_input, (input, &limits), judged),
        call_ensures(AnimationDecoder::new, (input, limits, NativeOpening::Opened(raw)), result),
        result is Ok ==> call_ensures(AnimationDecoder::info, (&result->Ok_0,), info),
        result is Ok ==> call_ensures(AnimationDecoder::frame_rgba_bytes, (&result->Ok_0,), bytes),
    ensures
        result is Ok <==> {
            &&& judged is Ok
            &&& raw.canvas_width * raw.canvas_height <= limits.max_canvas_pixels
            &&& raw.frame_count <= limits.max_frame_count
            &&& 4 * (raw.canvas_width * raw.canvas_height) <= limits.max_frame_rgba_bytes
            &&& raw.loop_count <= 65_535
        },
        result is Ok ==> reports(*info, raw),
        result is Ok ==> bytes == 4 * (raw.canvas_width * raw.canvas_height),
        result is Ok ==> result->Ok_0.duration_limit() == limits.max_total_duration,
{
}

/// What keeps a decoder from being opened is reported: first a refused input, then
/// libwebp's own failure, then the first limit that is exceeded.
pub proof fn law_unopened_decoder_says_why(
    input: &[u8],
    limits: DecodeLimits,
    opening: NativeOpening,
    judged: Result<DecoderOptions, DecodeError>,
    result: Result<AnimationDecoder, DecodeError>,
)
    requires
        call_ensures(AnimationDecoder::check_input, (input, &limits), judged),
        call_ensures(AnimationDecoder::new, (input, limits, opening), result),
        result is Err,
    ensures
        judged is Err ==> result->Err_0 == judged->Err_0,
        judged is Ok ==> match opening {
            NativeOpening::OptionsFailed => result->Err_0
                == DecodeError::DecoderOptionsInitialization,
            NativeOpening::CreationFailed => result->Err_0 == DecodeError::DecoderCreation,
            NativeOpening::InfoFailed => result->Err_0 == DecodeError::DecoderInfo,
            NativeOpening::Opened(raw) => {
                let pixels = raw.canvas_width * raw.canvas_height;
                if pixels > limits.max_canvas_pixels {
                    result->Err_0 == DecodeError::LimitExceeded {
                        limit: "canvas pixels",
                        actual: pixels as u64,
                        maximum: limits.max_canvas_pixels,
                    }
                } else if raw.frame_count > limits.max_frame_count {
                    result->Err_0 == DecodeError::LimitExceeded {
                        limit: "frame count",
                        actual: raw.frame_count as u64,
                        maximum: limits.max_frame_count as u64,
                    }
                } else if 4 * pixels > usize::MAX {
                    result->Err_0 == DecodeError::FrameSizeOverflow
                } else if 4 * pixels > limits.max_frame_rgba_bytes {
                    result->Err_0 == DecodeError::LimitExceeded {
                        limit: "RGBA bytes per frame",
                        actual: (4 * pixels) as u64,
                        maximum: limits.max_frame_rgba_bytes as u64,
                    }
                } else {
                    result->Err_0 == DecodeError::InvalidAnimationInfo
                }
            },
        },
{
}

/// A finite loop count is the number that libwebp reported.
pub proof fn law_loop_count_is_told(
    input: &[u8],
    limits: DecodeLimits,
    raw: RawAnimationInfo,
    decoder: AnimationDecoder,
    info: &AnimationInfo,
    count: NonZeroU16,
    number: u16,
)
    requires
        call_ensures(
            AnimationDecoder::new,
            (input, limits, NativeOpening::Opened(raw)),
            Ok(decoder),
        ),
        call_ensures(AnimationDecoder::info, (&decoder,), info),
        info.loop_count == LoopCount::Finite(count),
        call_ensures(NonZeroU16::get, (count,), number),
    ensures
        number == raw.loop_count,
{
}

/// The first frame of an opened decoder lasts until its timestamp, in
/// milliseconds, and has the pixels and the canvas that libwebp gave.
pub proof fn law_first_frame_lasts_until_its_timestamp(
    input: &[u8],
    limits: DecodeLimits,
    raw: RawAnimationInfo,
    decoder: &mut AnimationDecoder,
    rgba: &[u8],
    timestamp_ms: i32,
    result: Result<Option<AnimationFrame>, DecodeError>,
)
    requires
        call_ensures(
            AnimationDecoder::new,
            (input, limits, NativeOpening::Opened(raw)),
            Ok(*old(decoder)),
        ),
        call_ensures(
            AnimationDecoder::next_frame,
            (decoder, NativeFrame::Decoded { rgba, timestamp_ms }),
            result,
        ),
    ensures
        result is Ok <==> timestamp_ms >= 0 && timestamp_ms * 1_000_000
            <= limits.max_total_duration@,
        result is Ok ==> {
            &&& result->Ok_0 is Some
            &&& result->Ok_0->Some_0.duration@ == timestamp_ms * 1_000_000
            &&& result->Ok_0->Some_0.rgba@ == rgba@
            &&& result->Ok_0->Some_0.canvas.width == raw.canvas_width
            &&& result->Ok_0->Some_0.canvas.height == raw.canvas_height
        },
{
}

/// Each further frame lasts from the timestamp of the one before it to its own:
/// no time is lost, and none is added. Time that runs backwards or past the limit
/// is refused.
pub proof fn law_next_frame_lasts_from_the_last_timestamp(
    first: &mut AnimationDecoder,
    first_reply: (&[u8], i32),
    first_frame: AnimationFrame,
    second: &mut AnimationDecoder,
    second_reply: (&[u8], i32),
    result: Result<Option<AnimationFrame>, DecodeError>,
)
    requires
        call_ensures(
            AnimationDecoder::next_frame,
            (first, NativeFrame::Decoded { rgba: first_reply.0, timestamp_ms: first_reply.1 }),
            Ok(Some(first_frame)),
        ),
        *old(second) == *final(first),
        call_ensures(
            AnimationDecoder::next_frame,
            (second, NativeFrame::Decoded { rgba: second_reply.0, timestamp_ms: second_reply.1 }),
            result,
        ),
    ensures
        second_reply.1 < first_reply.1 ==> result == Err::<Option<AnimationFrame>, DecodeError>(
            DecodeError::InvalidTimestamp,
        ),
        second_reply.1 >= first_reply.1 && second_reply.1 * 1_000_000
            > old(first).duration_limit()@ ==> result == Err::<
            Option<AnimationFrame>,
            DecodeError,
        >(
            DecodeError::LimitExceeded {
                limit: "total duration in milliseconds",
                actual: second_reply.1 as u64,
                maximum: (old(first).duration_limit()@ / 1_000_000) as u64,
            },
        ),
        second_reply.1 >= first_reply.1 && second_reply.1 * 1_000_000
            <= old(first).duration_limit()@ ==> {
            &&& result is Ok
            &&& result->Ok_0 is Some
            &&& result->Ok_0->Some_0.duration@ == (second_reply.1 - first_reply.1) * 1_000_000
            &&& result->Ok_0->Some_0.rgba@ == second_reply.0@
            &&& result->Ok_0->Some_0.canvas == first_frame.canvas
        },
        final(second).duration_limit() == old(first).duration_limit(),
        final(second).spec_info() == old(first).spec_info(),
{
}

/// The end of the sequence and a failed frame are passed on, and neither changes
/// the decoder; nor does a refused frame.
pub proof fn law_only_frames_advance_the_decoder(
    decoder: &mut AnimationDecoder,
    reply: NativeFrame<'_>,
    result: Result<Option<AnimationFrame>, DecodeError>,
)
    requires
        call_ensures(AnimationDecoder::next_frame, (decoder, reply), result),
    ensures
        reply is Exhausted ==> result == Ok::<Option<AnimationFrame>, DecodeError>(None),
        reply is Failed ==> result == Err::<Option<AnimationFrame>, DecodeError>(
            DecodeError::FrameDecode,
        ),
        reply is Decoded ==> !(result matches Ok(None)),
        !(result matches Ok(Some(_))) ==> *final(decoder) == *old(decoder),
{
}

/// After a reset the first frame lasts until its timestamp again, under the same
/// limit and with the same metadata.
pub proof fn law_reset_decoder_starts_at_zero(
    decoder: &mut AnimationDecoder,
    again: &mut AnimationDecoder,
    rgba: &[u8],
    timestamp_ms: i32,
    result: Result<Option<AnimationFrame>, DecodeError>,
)
    requires
        call_ensures(AnimationDecoder::reset, (decoder,), ()),
        *old(again) == *final(decoder),
        call_ensures(
            AnimationDecoder::next_frame,
            (again, NativeFrame::Decoded { rgba, timestamp_ms }),
            result,
        ),
    ensures
        final(decoder).spec_info() == old(decoder).spec_info(),
        final(decoder).duration_limit() == old(decoder).duration_limit(),
        result is Ok <==> timestamp_ms >= 0 && timestamp_ms * 1_000_000
            <= old(decoder).duration_limit()@,
        result is Ok ==> result->Ok_0 is Some && result->Ok_0->Some_0.duration@ == timestamp_ms
            * 1_000_000,
{
}

/// `sums` are the sums of the durations of the first frames, none, one, two and so
/// on, in milliseconds.
pub open spec fn running_sums(frames: Seq<DemuxFrame>, sums: Seq<int>) -> bool {
    &&& sums.len() == frames.len() + 1
    &&& sums[0] == 0
    &&& forall|i: int|
        0 <= i < frames.len() ==> #[trigger] sums[i + 1] == sums[i] + frames[i].duration
}

/// The record at `index` has its number, no negative duration, and a sum up to it
/// within the limit.
pub open spec fn record_is_good(
    decoder: AnimationDecoder,
    frames: Seq<DemuxFrame>,
    sums: Seq<int>,
    index: int,
) -> bool {
    &&& index < decoder.spec_info().frame_count
    &&& frames[index].frame_num == index + 1
    &&& frames[index].duration >= 0
    &&& sums[index + 1] * 1_000_000 <= decoder.duration_limit()@
}

/// Running sums are the sums that the contract speaks of.
proof fn lemma_running_sums(frames: Seq<DemuxFrame>, sums: Seq<int>, count: int)
    requires
        running_sums(frames, sums),
        0 <= count <= frames.len(),
    ensures
        decode::total_millis(frames, count) == sums[count],
    decreases count,
{
    if count > 0 {
        lemma_running_sums(frames, sums, count - 1);
        assert(sums[count - 1 + 1] == sums[count - 1] + frames[count - 1].duration);
    }
}

/// Good records are passed over.
proof fn lemma_good_records_passed(
    decoder: AnimationDecoder,
    frames: Seq<DemuxFrame>,
    sums: Seq<int>,
    from: int,
    to: int,
)
    requires
        running_sums(frames, sums),
        0 <= from <= to <= frames.len(),
        forall|i: int| 0 <= i < to ==> #[trigger] record_is_good(decoder, frames, sums, i),
    ensures
        decoder.records_fault(frames, from) == decoder.records_fault(frames, to),
    decreases to - from,
{
    if from < to {
        assert(record_is_good(decoder, frames, sums, from));
        lemma_running_sums(frames, sums, from + 1);
        lemma_sums_bounded(decoder, frames, sums, from + 1);
        lemma_good_records_passed(decoder, frames, sums, from + 1, to);
    }
}

/// The sums of so many durations as 32 bits count stay far below 64 bits.
proof fn lemma_sums_bounded(
    decoder: AnimationDecoder,
    frames: Seq<DemuxFrame>,
    sums: Seq<int>,
    count: int,
)
    requires
        running_sums(frames, sums),
        0 <= count <= frames.len(),
        count <= decoder.spec_info().frame_count,
    ensures
        sums[count] <= count * 0x7fff_ffff <= 0xffff_ffff * 0x7fff_ffff,
    decreases count,
{
    if count > 0 {
        lemma_sums_bounded(decoder, frames, sums, count - 1);
        assert(sums[count - 1 + 1] == sums[count - 1] + frames[count - 1].duration);
    }
}

/// Durations are listed exactly where the records are all there and all good, and
/// then each is that of its record.
pub proof fn law_durations_are_those_of_the_records(
    decoder: AnimationDecoder,
    frames: &[DemuxFrame],
    sums: Seq<int>,
    result: Result<Vec<Duration>, DecodeError>,
)
    requires
        call_ensures(AnimationDecoder::frame_durations, (&decoder, frames), result),
        running_sums(frames@, sums),
    ensures
        result is Ok <==> {
            &&& frames@.len() > 0
            &&& frames@.len() == decoder.spec_info().frame_count
            &&& frames@[0].num_frames == decoder.spec_info().frame_count
            &&& forall|i: int|
                0 <= i < frames@.len() ==> #[trigger] record_is_good(decoder, frames@, sums, i)
        },
        result is Ok ==> result->Ok_0@.len() == frames@.len(),
        result is Ok ==> forall|i: int|
            0 <= i < frames@.len() ==> (#[trigger] result->Ok_0@[i])@ == frames@[i].duration
                * 1_000_000,
{
    let f = frames@;
    if result is Ok {
        decode::law_durations_listed_iff_well_formed(decoder, f);
        decode::lemma_accepted_records(decoder, f, 0);
        assert forall|i: int| 0 <= i < f.len() implies #[trigger] record_is_good(
            decoder,
            f,
            sums,
            i,
        ) by {
            assert(decoder.record_fault(f, i) is None);
            lemma_running_sums(f, sums, i + 1);
            lemma_sums_bounded(decoder, f, sums, i + 1);
        }
        assert forall|i: int| 0 <= i < f.len() implies (#[trigger] result->Ok_0@[i])@
            == f[i].duration * 1_000_000 by {}
    }
    if f.len() > 0 && f.len() == decoder.spec_info().frame_count && f[0].num_frames
        == decoder.spec_info().frame_count && forall|i: int|
        0 <= i < f.len() ==> #[trigger] record_is_good(decoder, f, sums, i) {
        assert(record_is_good(decoder, f, sums, 0));
        lemma_good_records_passed(decoder, f, sums, 0, f.len() as int);
    }
}

/// The first record that is not good, or a missing one, is what keeps durations
/// from being listed.
pub proof fn law_first_bad_record_is_reported(
    decoder: AnimationDecoder,
    frames: &[DemuxFrame],
    sums: Seq<int>,
    index: int,
    result: Result<Vec<Duration>, DecodeError>,
)
    requires
        call_ensures(AnimationDecoder::frame_durations, (&decoder, frames), result),
        running_sums(frames@, sums),
        0 <= index <= frames@.len(),
        forall|i: int| 0 <= i < index ==> #[trigger] record_is_good(decoder, frames@, sums, i),
        index < frames@.len() ==> !record_is_good(decoder, frames@, sums, index),
    ensures
        frames@.len() == 0 ==> result == Err::<Vec<Duration>, DecodeError>(
            DecodeError::DecoderInfo,
        ),
        frames@.len() > 0 && frames@[0].num_frames != decoder.spec_info().frame_count ==> result
            == Err::<Vec<Duration>, DecodeError>(DecodeError::InvalidAnimationInfo),
        frames@.len() > 0 && frames@[0].num_frames == decoder.spec_info().frame_count ==> {
            if index == frames@.len() {
                result is Err <==> frames@.len() != decoder.spec_info().frame_count
            } else if index >= decoder.spec_info().frame_count || frames@[index].frame_num != index
                + 1 {
                result == Err::<Vec<Duration>, DecodeError>(DecodeError::InvalidAnimationInfo)
            } else if frames@[index].duration < 0 {
                result == Err::<Vec<Duration>, DecodeError>(DecodeError::InvalidTimestamp)
            } else {
                result == Err::<Vec<Duration>, DecodeError>(
                    DecodeError::LimitExceeded {
                        limit: "total duration in milliseconds",
                        actual: sums[index + 1] as u64,
                        maximum: (decoder.duration_limit()@ / 1_000_000) as u64,
                    },
                )
            }
        },
        index == frames@.len() && result is Err && frames@.len() > 0 ==> result == Err::<
            Vec<Duration>,
            DecodeError,
        >(DecodeError::InvalidAnimationInfo),
{
    let f = frames@;
    if f.len() > 0 && f[0].num_frames == decoder.spec_info().frame_count {
        if index > 0 {
            assert(record_is_good(decoder, f, sums, 0));
        }
        lemma_good_records_passed(decoder, f, sums, 0, index);
        if index < f.len() {
            lemma_running_sums(f, sums, index + 1);
            if index < decoder.spec_info().frame_count {
                lemma_sums_bounded(decoder, f, sums, index + 1);
            }
        }
    }
}

} // verus!
