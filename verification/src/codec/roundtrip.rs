//! What decoding gives back of what was encoded.

use vstd::prelude::*;

use crate::codec::decode::{self, AnimationDecoder, DemuxFrame, RawAnimationInfo};
use crate::codec::encode::{self, AnimationEncoder, AnimationEncoderOptions, MuxOptions};
use crate::model::{self, AnimationInfo, CanvasSize};
use crate::time::{self, Duration};

verus! {

/// Decoding gives back the durations that were encoded, in order: a decoder that
/// reads from the start frames that end where the encoder's frames ended reads
/// them with the very durations that the encoder was given.
pub proof fn law_encoded_durations_are_decoded(
    encoder_states: Seq<AnimationEncoder>,
    encoded: Seq<Duration>,
    decoder_states: Seq<AnimationDecoder>,
    timestamps: Seq<int>,
    decoded: Seq<Duration>,
)
    requires
        encode::encoder_run(encoder_states, encoded),
        encoder_states[0].position_ms() == 0,
        decode::decoder_run(decoder_states, timestamps, decoded),
        decoder_states[0].at_start(),
        timestamps.len() == encoded.len(),
        forall|i: int|
            0 <= i < encoded.len() ==> #[trigger] timestamps[i] == encoder_states[i
                + 1].position_ms(),
    ensures
        decoded == encoded,
{
    assert forall|i: int| 0 <= i < encoded.len() implies #[trigger] decoded[i] == encoded[i] by {
        assert(encoder_states[i].appends(encoded[i], encoder_states[i + 1]));
        assert(decoder_states[i].reads(timestamps[i], decoded[i], decoder_states[i + 1]));
        assert(timestamps[i] == encoder_states[i + 1].position_ms());
        if i > 0 {
            assert(decoder_states[i - 1].reads(
                timestamps[i - 1],
                decoded[i - 1],
                decoder_states[i],
            ));
            assert(timestamps[i - 1] == encoder_states[i].position_ms());
        }
        time::lemma_equal_lengths(decoded[i], encoded[i]);
    }
    assert(decoded =~= encoded);
}

/// Listing gives back the durations that were encoded, the last one included:
/// where the native demuxer reports for each frame the time from its timestamp
/// to the next one, or to the closing one, the durations listed are those that
/// the encoder was given, and they add up to the closing timestamp.
pub proof fn law_encoded_durations_are_listed(
    encoder_states: Seq<AnimationEncoder>,
    encoded: Seq<Duration>,
    frames: Seq<DemuxFrame>,
    durations: Seq<Duration>,
)
    requires
        encode::encoder_run(encoder_states, encoded),
        encoder_states[0].position_ms() == 0,
        frames.len() == encoded.len(),
        forall|i: int|
            0 <= i < encoded.len() ==> (#[trigger] frames[i]).duration == encoder_states[i
                + 1].position_ms() - encoder_states[i].position_ms(),
        decode::listed(frames, durations),
    ensures
        durations == encoded,
        time::total(durations) == time::millis_to_nanos(encoder_states.last().position_ms()),
{
    assert forall|i: int| 0 <= i < encoded.len() implies #[trigger] durations[i] == encoded[i] by {
        assert(encoder_states[i].appends(encoded[i], encoder_states[i + 1]));
        assert(frames[i].duration == encoder_states[i + 1].position_ms()
            - encoder_states[i].position_ms());
        time::lemma_equal_lengths(durations[i], encoded[i]);
    }
    assert(durations =~= encoded);
    encode::law_timestamps_accumulate(encoder_states, encoded);
}

/// No frame that an encoder took is refused for its timing, as long as the
/// sequence stays within the decoder's limit.
pub proof fn law_encoded_timing_is_accepted(
    encoder: AnimationEncoder,
    duration: Duration,
    after: AnimationEncoder,
    decoder: AnimationDecoder,
)
    requires
        encoder.appends(duration, after),
        decoder.position_ms() == encoder.position_ms(),
        after.position_ms() <= decoder.limit_ms(),
    ensures
        decoder.timestamp_fault(after.position_ms()) is None,
{
}

/// Decoding gives back the canvas, the loop count and the background color that
/// were encoded: where the native decoder reports the numbers that the native
/// encoder was given, the metadata says what the encoder's options said.
pub proof fn law_encoded_metadata_is_decoded(
    canvas: CanvasSize,
    options: AnimationEncoderOptions,
    initial: MuxOptions,
    raw: RawAnimationInfo,
    info: AnimationInfo,
)
    requires
        options.loop_count.valid(),
        encode::setup_fault(canvas, options) is None,
        ({
            let setup = encode::accepted_setup(canvas, options);
            let muxed = encode::configured_mux(
                initial,
                setup.loop_count,
                setup.background_color,
                setup.animation,
            );
            &&& raw.canvas_width == setup.width
            &&& raw.canvas_height == setup.height
            &&& raw.loop_count == muxed.loop_count
            &&& raw.bgcolor == muxed.bgcolor
        }),
        decode::info_matches(info, raw),
    ensures
        info.canvas == canvas,
        info.loop_count == options.loop_count,
        info.background_color == options.background_color,
{
    model::lemma_equal_loop_counts(info.loop_count, options.loop_count);
}

} // verus!
