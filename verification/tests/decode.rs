use webp_anim::codec::decode::{
    enforce_limit, ColorMode, DecoderOptions, DemuxFrame, NativeFrame, NativeOpening,
    RawAnimationInfo,
};
use webp_anim::{
    AnimationDecoder, BackgroundColor, CanvasSize, DecodeError, DecodeLimits, Duration, LoopCount,
};

const ANIMATED: &[u8] = b"RIFF\x16\0\0\0WEBPVP8X\x0a\0\0\0\x02\0\0\0\0\0\0\0\0\0";

fn raw() -> RawAnimationInfo {
    RawAnimationInfo {
        canvas_width: 2,
        canvas_height: 1,
        loop_count: 0,
        bgcolor: 0xdead_beef,
        frame_count: 3,
    }
}

fn open_with(raw: RawAnimationInfo, limits: DecodeLimits) -> Result<AnimationDecoder, DecodeError> {
    AnimationDecoder::new(ANIMATED, limits, NativeOpening::Opened(raw))
}

fn fault(raw: RawAnimationInfo, limits: DecodeLimits) -> DecodeError {
    open_with(raw, limits).err().unwrap()
}

fn decoder() -> AnimationDecoder {
    open_with(raw(), DecodeLimits::default()).ok().unwrap()
}

fn frame(timestamp_ms: i32) -> NativeFrame<'static> {
    NativeFrame::Decoded { rgba: &[1, 2, 3, 4, 5, 6, 7, 8], timestamp_ms }
}

fn record(frame_num: i32, duration: i32) -> DemuxFrame {
    DemuxFrame { num_frames: 3, frame_num, duration }
}

#[test]
fn decoder_reports_metadata() {
    let decoder = decoder();
    let info = *decoder.info();
    assert_eq!(info.canvas, CanvasSize { width: 2, height: 1 });
    assert_eq!(info.frame_count, 3);
    assert_eq!(info.loop_count, LoopCount::Infinite);
    assert_eq!(info.background_color, BackgroundColor { raw: 0xdead_beef });
    assert_eq!(decoder.frame_rgba_bytes(), 8);
    let finite = open_with(RawAnimationInfo { loop_count: 65535, ..raw() }, DecodeLimits::default());
    match finite.ok().unwrap().info().loop_count {
        LoopCount::Finite(count) => assert_eq!(count.get(), 65535),
        LoopCount::Infinite => panic!("finite loop count expected"),
    }
}

#[test]
fn inputs_are_checked_before_opening() {
    let limits = DecodeLimits { max_input_bytes: 5, ..DecodeLimits::default() };
    assert_eq!(
        AnimationDecoder::check_input(ANIMATED, &limits),
        Err(DecodeError::InputTooLarge { actual: ANIMATED.len(), maximum: 5 })
    );
    assert_eq!(
        AnimationDecoder::check_input(b"RIFF\x04\0\0\0WEBP", &DecodeLimits::default()),
        Err(DecodeError::NotAnimatedWebp)
    );
    assert_eq!(
        AnimationDecoder::check_input(ANIMATED, &DecodeLimits::default()),
        Ok(DecoderOptions { color_mode: ColorMode::Rgba, use_threads: 1 })
    );
    for malformed in [&b""[..], b"junk", &ANIMATED[..20]] {
        assert_eq!(
            AnimationDecoder::new(malformed, DecodeLimits::default(), NativeOpening::Opened(raw()))
                .err(),
            Some(DecodeError::DecoderCreation)
        );
    }
}

#[test]
fn native_failures_are_told_apart() {
    let open = |opening| AnimationDecoder::new(ANIMATED, DecodeLimits::default(), opening).err();
    assert_eq!(
        open(NativeOpening::OptionsFailed),
        Some(DecodeError::DecoderOptionsInitialization)
    );
    assert_eq!(open(NativeOpening::CreationFailed), Some(DecodeError::DecoderCreation));
    assert_eq!(open(NativeOpening::InfoFailed), Some(DecodeError::DecoderInfo));
}

#[test]
fn metadata_limits_are_enforced_in_order() {
    let limits = DecodeLimits {
        max_canvas_pixels: 1,
        max_frame_count: 2,
        max_frame_rgba_bytes: 7,
        ..DecodeLimits::default()
    };
    assert_eq!(
        fault(raw(), limits),
        DecodeError::LimitExceeded { limit: "canvas pixels", actual: 2, maximum: 1 }
    );
    let limits = DecodeLimits { max_canvas_pixels: 2, ..limits };
    assert_eq!(
        fault(raw(), limits),
        DecodeError::LimitExceeded { limit: "frame count", actual: 3, maximum: 2 }
    );
    let limits = DecodeLimits { max_frame_count: 3, ..limits };
    assert_eq!(
        fault(raw(), limits),
        DecodeError::LimitExceeded { limit: "RGBA bytes per frame", actual: 8, maximum: 7 }
    );
    let limits = DecodeLimits { max_frame_rgba_bytes: 8, ..limits };
    assert!(open_with(raw(), limits).is_ok());
    assert_eq!(
        fault(RawAnimationInfo { loop_count: 65536, ..raw() }, limits),
        DecodeError::InvalidAnimationInfo
    );
}

#[test]
fn oversized_canvas_does_not_fit_the_address_space() {
    let raw = RawAnimationInfo { canvas_width: u32::MAX, canvas_height: u32::MAX, ..raw() };
    assert_eq!(
        fault(raw, DecodeLimits::for_trusted_input()),
        DecodeError::FrameSizeOverflow
    );
}

#[test]
fn trusted_input_exceeds_no_limit() {
    let decoder = open_with(raw(), DecodeLimits::for_trusted_input()).ok().unwrap();
    let longest = [record(1, i32::MAX), record(2, i32::MAX), record(3, i32::MAX)];
    assert_eq!(
        decoder.frame_durations(&longest),
        Ok(vec![Duration::from_millis(0x7fff_ffff); 3])
    );
    let raw = RawAnimationInfo { frame_count: u32::MAX, ..raw() };
    let mut decoder = open_with(raw, DecodeLimits::for_trusted_input()).ok().unwrap();
    let frame = decoder.next_frame(frame(i32::MAX)).unwrap().unwrap();
    assert_eq!(frame.duration, Duration::from_millis(0x7fff_ffff));
}

#[test]
fn frames_have_the_durations_between_timestamps() {
    let mut decoder = decoder();
    let mut total: u128 = 0;
    for (timestamp_ms, expected) in [(40, 40), (40, 0), (100, 60)] {
        let frame = decoder.next_frame(frame(timestamp_ms)).unwrap().unwrap();
        assert_eq!(frame.rgba, [1, 2, 3, 4, 5, 6, 7, 8]);
        assert_eq!(frame.canvas, CanvasSize { width: 2, height: 1 });
        assert_eq!(frame.duration, Duration::from_millis(expected));
        total += frame.duration.as_millis();
    }
    assert_eq!(total, 100);
    assert_eq!(decoder.next_frame(NativeFrame::Exhausted), Ok(None));
}

#[test]
fn refused_frames_leave_the_decoder_unchanged() {
    let mut decoder = decoder();
    decoder.next_frame(frame(50)).unwrap();
    assert_eq!(decoder.next_frame(NativeFrame::Failed), Err(DecodeError::FrameDecode));
    assert_eq!(decoder.next_frame(frame(49)), Err(DecodeError::InvalidTimestamp));
    assert_eq!(decoder.next_frame(frame(i32::MIN)), Err(DecodeError::InvalidTimestamp));
    assert_eq!(
        decoder.next_frame(frame(3_600_001)),
        Err(DecodeError::LimitExceeded {
            limit: "total duration in milliseconds",
            actual: 3_600_001,
            maximum: 3_600_000
        })
    );
    let frame = decoder.next_frame(frame(3_600_000)).unwrap().unwrap();
    assert_eq!(frame.duration, Duration::from_millis(3_599_950));
}

#[test]
fn reset_starts_the_sequence_over() {
    let mut decoder = decoder();
    decoder.next_frame(frame(70)).unwrap();
    decoder.next_frame(frame(90)).unwrap();
    decoder.reset();
    assert_eq!(decoder.info().frame_count, 3);
    let first = decoder.next_frame(frame(70)).unwrap().unwrap();
    assert_eq!(first.duration, Duration::from_millis(70));
}

#[test]
fn stored_durations_are_listed() {
    let decoder = decoder();
    let frames = [record(1, 30), record(2, 0), record(3, 45)];
    assert_eq!(
        decoder.frame_durations(&frames),
        Ok(vec![
            Duration::from_millis(30),
            Duration::from_millis(0),
            Duration::from_millis(45)
        ])
    );
}

#[test]
fn listed_durations_are_those_decoded() {
    let mut decoder = decoder();
    let frames = [record(1, 30), record(2, 20), record(3, 45)];
    let listed = decoder.frame_durations(&frames).unwrap();
    let mut end = 0;
    for (record, duration) in frames.iter().zip(listed) {
        end += record.duration;
        let read = decoder.next_frame(frame(end)).unwrap().unwrap();
        assert_eq!(read.duration, duration);
    }
}

#[test]
fn malformed_records_are_refused() {
    let decoder = decoder();
    let refused = |frames: &[DemuxFrame]| decoder.frame_durations(frames).err().unwrap();
    assert_eq!(refused(&[]), DecodeError::DecoderInfo);
    assert_eq!(
        refused(&[DemuxFrame { num_frames: 4, frame_num: 1, duration: 1 }]),
        DecodeError::InvalidAnimationInfo
    );
    assert_eq!(
        refused(&[DemuxFrame { num_frames: -1, frame_num: 1, duration: 1 }]),
        DecodeError::InvalidAnimationInfo
    );
    assert_eq!(refused(&[record(2, 1)]), DecodeError::InvalidAnimationInfo);
    assert_eq!(refused(&[record(1, 1), record(3, 1)]), DecodeError::InvalidAnimationInfo);
    assert_eq!(refused(&[record(1, 1), record(2, 1)]), DecodeError::InvalidAnimationInfo);
    assert_eq!(
        refused(&[record(1, 1), record(2, 1), record(3, 1), record(4, 1)]),
        DecodeError::InvalidAnimationInfo
    );
    assert_eq!(refused(&[record(1, 1), record(2, -1)]), DecodeError::InvalidTimestamp);
    assert_eq!(
        refused(&[record(1, 3_600_000), record(2, 1)]),
        DecodeError::LimitExceeded {
            limit: "total duration in milliseconds",
            actual: 3_600_001,
            maximum: 3_600_000
        }
    );
}

#[test]
fn decode_limits_have_the_documented_values() {
    let limits = DecodeLimits::default();
    assert_eq!(limits.max_input_bytes, 256 * 1024 * 1024);
    assert_eq!(limits.max_canvas_pixels, 100_000_000);
    assert_eq!(limits.max_frame_count, 10_000);
    assert_eq!(limits.max_total_duration, Duration::from_secs(3600));
    assert_eq!(limits.max_frame_rgba_bytes, 400 * 1024 * 1024);
    let trusted = DecodeLimits::for_trusted_input();
    assert_eq!(trusted.max_input_bytes, usize::MAX);
    assert_eq!(trusted.max_canvas_pixels, u64::MAX);
    assert_eq!(trusted.max_frame_count, u32::MAX);
    assert_eq!(trusted.max_total_duration, Duration::max());
    assert_eq!(trusted.max_frame_rgba_bytes, usize::MAX);
    assert_eq!(enforce_limit("frames", 5, 5), Ok(()));
    assert_eq!(
        enforce_limit("frames", 6, 5),
        Err(DecodeError::LimitExceeded { limit: "frames", actual: 6, maximum: 5 })
    );
}

#[test]
fn decode_messages() {
    let cases = [
        (
            DecodeError::InputTooLarge { actual: 4096, maximum: 100 },
            "input is 4096 bytes, exceeding the 100-byte limit",
        ),
        (DecodeError::NotAnimatedWebp, "input is not an animated WebP"),
        (
            DecodeError::DecoderOptionsInitialization,
            "failed to initialize WebP decoder options",
        ),
        (DecodeError::DecoderCreation, "failed to create WebP animation decoder"),
        (DecodeError::DecoderInfo, "failed to read WebP animation information"),
        (DecodeError::InvalidAnimationInfo, "WebP animation information is invalid"),
        (
            DecodeError::FrameSizeOverflow,
            "WebP animation frame size overflows the host address space",
        ),
        (
            DecodeError::LimitExceeded { limit: "frame count", actual: 12, maximum: 11 },
            "frame count is 12, exceeding the 11 limit",
        ),
        (DecodeError::FrameDecode, "failed to decode WebP animation frame"),
        (DecodeError::InvalidTimestamp, "WebP animation timestamps are invalid"),
    ];
    for (error, expected) in cases {
        assert_eq!(error.message(), expected);
    }
}
