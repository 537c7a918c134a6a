use webp_anim::codec::decode::{NativeFrame, NativeOpening, RawAnimationInfo};
use webp_anim::codec::encode::{EncoderReplies, MuxOptions, NativeAdd};
use webp_anim::{
    AnimationDecoder, AnimationEncoder, AnimationEncoderOptions, AnimationTranscodeOptions,
    CanvasSize, DecodeError, DecodeLimits, Duration, EncodeError, EncoderConfigOverrides,
    LoopCount, ResizeError, ResizeOptions, ResizePlan, Transcode, TranscodeError, TranscodeSetup,
};

const ANIMATED: &[u8] = b"RIFF\x16\0\0\0WEBPVP8X\x0a\0\0\0\x02\0\0\0\0\0\0\0\0\0";

fn raw(frame_count: u32) -> RawAnimationInfo {
    RawAnimationInfo {
        canvas_width: 4,
        canvas_height: 2,
        loop_count: 3,
        bgcolor: 0x0a0b_0c0d,
        frame_count,
    }
}

fn mux() -> MuxOptions {
    MuxOptions {
        loop_count: 0,
        bgcolor: 0xffff_ffff,
        minimize_size: 0,
        allow_mixed: 0,
        kmin: 9,
        kmax: 17,
    }
}

fn replies() -> EncoderReplies {
    EncoderReplies { config_accepted: 1, initial_mux: Some(mux()), created: true }
}

fn options(width: u32, height: u32) -> AnimationTranscodeOptions {
    AnimationTranscodeOptions::new(ResizeOptions::contain(CanvasSize { width, height }))
}

fn setup(options: AnimationTranscodeOptions) -> Result<TranscodeSetup, TranscodeError> {
    TranscodeSetup::new(ANIMATED, options, NativeOpening::Opened(raw(2)))
}

fn start(frame_count: u32) -> Transcode {
    TranscodeSetup::new(ANIMATED, options(2, 2), NativeOpening::Opened(raw(frame_count)))
        .ok()
        .unwrap()
        .start(replies())
        .ok()
        .unwrap()
}

fn pixels(value: u8) -> Vec<u8> {
    [value, value, value, 255].repeat(8)
}

#[test]
fn frames_keep_order_and_timing() {
    let mut transcode = start(2);
    assert_eq!(transcode.source().frame_count, 2);
    for (value, begin, end) in [(10, 0, 40), (20, 40, 100)] {
        let rgba = pixels(value);
        let submission = transcode
            .next_frame(NativeFrame::Decoded { rgba: &rgba, timestamp_ms: end })
            .unwrap()
            .unwrap();
        assert_eq!((submission.width, submission.height, submission.stride), (2, 1, 8));
        assert_eq!(submission.use_argb, 1);
        assert_eq!(submission.timestamp_ms, begin);
        assert_eq!(submission.config.method, 4);
        assert_eq!(transcode.pixels(), [value, value, value, 255, value, value, value, 255]);
        assert_eq!(transcode.frame_added(NativeAdd::Added), Ok(()));
    }
    assert_eq!(transcode.next_frame(NativeFrame::Exhausted), Ok(None));
    assert_eq!(transcode.final_timestamp(), Ok(100));
    let result = transcode.finish(Ok(vec![7])).unwrap();
    assert_eq!(result.bytes, [7]);
    assert_eq!(result.input.canvas, CanvasSize { width: 4, height: 2 });
    assert_eq!(result.output_canvas, CanvasSize { width: 2, height: 1 });
    assert_eq!(result.frame_count, 2);
    assert_eq!(result.total_duration, Duration::from_millis(100));
}

#[test]
fn transcode_is_the_stages_driven_by_hand() {
    let mut request = options(2, 2);
    request.encoder_config.method = Some(2);
    let setup = setup(request).ok().unwrap();
    let by_hand = AnimationEncoderOptions {
        loop_count: setup.encoder().loop_count,
        background_color: setup.encoder().background_color,
        config: request.encoder_config,
        animation: request.animation,
    };
    let canvas = CanvasSize { width: 2, height: 1 };
    assert_eq!(AnimationEncoder::setup(canvas, by_hand), Ok(setup.encoder()));
    let mut encoder = AnimationEncoder::new(canvas, by_hand, replies()).ok().unwrap();
    let mut decoder = AnimationDecoder::new(
        ANIMATED,
        DecodeLimits::default(),
        NativeOpening::Opened(raw(2)),
    )
    .ok()
    .unwrap();
    let plan = ResizePlan::new(decoder.info().canvas, request.resize).unwrap();
    let mut transcode = setup.start(replies()).ok().unwrap();
    for (value, end) in [(10, 40), (20, 100)] {
        let rgba = pixels(value);
        let reply = NativeFrame::Decoded { rgba: &rgba, timestamp_ms: end };
        let frame = decoder.next_frame(reply).unwrap().unwrap();
        let resized = plan.transform_rgba(&frame.rgba).unwrap();
        let submission = transcode.next_frame(reply).unwrap().unwrap();
        assert_eq!(Ok(submission), encoder.submit_rgba(&resized, frame.duration));
        assert_eq!(submission.config.method, 2);
        assert_eq!(transcode.pixels(), resized);
        encoder.add_rgba(&resized, frame.duration, NativeAdd::Added).unwrap();
        transcode.frame_added(NativeAdd::Added).unwrap();
    }
    assert_eq!(transcode.final_timestamp().ok(), encoder.final_timestamp().ok());
    assert_eq!(
        transcode.finish(Ok(vec![1, 2, 3])).unwrap().bytes,
        encoder.finish(Ok(vec![1, 2, 3])).unwrap()
    );
}

#[test]
fn encoded_durations_are_read_back() {
    let mut decoder = AnimationDecoder::new(
        ANIMATED,
        DecodeLimits::default(),
        NativeOpening::Opened(raw(3)),
    )
    .ok()
    .unwrap();
    let mut transcode = start(3);
    let rgba = pixels(1);
    for (end, duration) in [(15, 15), (15, 0), (40, 25)] {
        let reply = NativeFrame::Decoded { rgba: &rgba, timestamp_ms: end };
        transcode.next_frame(reply).unwrap();
        transcode.frame_added(NativeAdd::Added).unwrap();
        let read = decoder.next_frame(reply).unwrap().unwrap();
        assert_eq!(read.duration, Duration::from_millis(duration));
    }
    assert_eq!(transcode.final_timestamp(), Ok(40));
}

#[test]
fn metadata_of_the_source_is_copied() {
    let encoder = setup(options(2, 2)).ok().unwrap().encoder();
    assert!(matches!(encoder.loop_count, LoopCount::Finite(count) if count.get() == 3));
    let muxed = encoder.mux_options(Some(mux())).unwrap();
    assert_eq!(muxed.loop_count, 3);
    assert_eq!(muxed.bgcolor, 0x0a0b_0c0d);
    assert_eq!((muxed.kmin, muxed.kmax), (9, 17));
    assert_eq!((encoder.width, encoder.height), (2, 1));
}

#[test]
fn encoded_metadata_is_read_back() {
    let encoder = setup(options(2, 2)).ok().unwrap().encoder();
    let muxed = encoder.mux_options(Some(mux())).unwrap();
    let written = RawAnimationInfo {
        canvas_width: encoder.width as u32,
        canvas_height: encoder.height as u32,
        loop_count: muxed.loop_count as u32,
        bgcolor: muxed.bgcolor,
        frame_count: 2,
    };
    let decoder = AnimationDecoder::new(
        ANIMATED,
        DecodeLimits::default(),
        NativeOpening::Opened(written),
    )
    .ok()
    .unwrap();
    assert_eq!(decoder.info().canvas, CanvasSize { width: 2, height: 1 });
    assert_eq!(decoder.info().loop_count, encoder.loop_count);
    assert_eq!(decoder.info().background_color, encoder.background_color);
}

#[test]
fn overrides_reach_the_encoder() {
    let mut request = options(2, 2);
    request.encoder_config.method = Some(6);
    request.encoder_config.lossless = Some(true);
    request.animation.allow_mixed = Some(true);
    let encoder = setup(request).ok().unwrap().encoder();
    assert_eq!(encoder.config.method, 6);
    assert_eq!(encoder.config.lossless, 1);
    assert_eq!(encoder.mux_options(Some(mux())).unwrap().allow_mixed, 1);
}

#[test]
fn fitting_source_is_encoded_unchanged() {
    let mut transcode =
        setup(options(100, 100)).ok().unwrap().start(replies()).ok().unwrap();
    let rgba: Vec<u8> = (0..32).collect();
    transcode
        .next_frame(NativeFrame::Decoded { rgba: &rgba, timestamp_ms: 5 })
        .unwrap();
    assert_eq!(transcode.pixels(), rgba);
}

#[test]
fn setup_reports_the_failing_stage() {
    let junk = TranscodeSetup::new(b"junk", options(2, 2), NativeOpening::Opened(raw(2)));
    assert_eq!(junk.err(), Some(TranscodeError::Decode(DecodeError::DecoderCreation)));
    let still =
        TranscodeSetup::new(b"RIFF\x04\0\0\0WEBP", options(2, 2), NativeOpening::Opened(raw(2)));
    assert_eq!(still.err(), Some(TranscodeError::Decode(DecodeError::NotAnimatedWebp)));
    let unopened = TranscodeSetup::new(ANIMATED, options(0, 2), NativeOpening::InfoFailed);
    assert_eq!(unopened.err(), Some(TranscodeError::Decode(DecodeError::DecoderInfo)));
    let empty = CanvasSize { width: 0, height: 2 };
    assert_eq!(
        setup(options(0, 2)).err(),
        Some(TranscodeError::Resize(ResizeError::InvalidCanvasSize {
            which: "maximum",
            size: empty
        }))
    );
    let request = AnimationTranscodeOptions {
        encoder_config: EncoderConfigOverrides { method: Some(7), ..Default::default() },
        ..options(2, 2)
    };
    assert_eq!(
        setup(request).err(),
        Some(TranscodeError::Encode(EncodeError::InvalidMethod { value: 7 }))
    );
    let rejected = setup(options(2, 2))
        .ok()
        .unwrap()
        .start(EncoderReplies { created: false, ..replies() });
    assert_eq!(rejected.err(), Some(TranscodeError::Encode(EncodeError::EncoderCreation)));
}

#[test]
fn failing_frames_end_the_transcode() {
    let mut transcode = start(2);
    let rgba = pixels(3);
    assert_eq!(
        transcode.next_frame(NativeFrame::Failed),
        Err(TranscodeError::Decode(DecodeError::FrameDecode))
    );
    assert_eq!(
        transcode.next_frame(NativeFrame::Decoded { rgba: &rgba, timestamp_ms: -1 }),
        Err(TranscodeError::Decode(DecodeError::InvalidTimestamp))
    );
    transcode
        .next_frame(NativeFrame::Decoded { rgba: &rgba, timestamp_ms: 5 })
        .unwrap();
    assert_eq!(
        transcode.frame_added(NativeAdd::Rejected(None)),
        Err(TranscodeError::Encode(EncodeError::Libwebp("unknown error".to_string())))
    );
    assert_eq!(
        transcode.frame_added(NativeAdd::PictureImportFailed),
        Err(TranscodeError::Encode(EncodeError::PictureImport))
    );
}

#[test]
fn output_limit_applies_to_the_plan() {
    let source = RawAnimationInfo {
        canvas_width: 0x2000_0000,
        canvas_height: 1,
        ..raw(1)
    };
    let mut request = options(0x2000_0000, 1);
    request.decode_limits = DecodeLimits::for_trusted_input();
    request.resize.max_output_rgba_bytes = 4;
    let refused = TranscodeSetup::new(ANIMATED, request, NativeOpening::Opened(source));
    assert_eq!(
        refused.err(),
        Some(TranscodeError::Resize(ResizeError::OutputTooLarge {
            actual: 0x8000_0000,
            maximum: 4
        }))
    );
}

#[test]
fn frame_count_must_match_the_metadata() {
    let mut transcode = start(2);
    let rgba = pixels(3);
    transcode
        .next_frame(NativeFrame::Decoded { rgba: &rgba, timestamp_ms: 5 })
        .unwrap();
    transcode.frame_added(NativeAdd::Added).unwrap();
    let expected = TranscodeError::FrameCountMismatch { decoded: 1, declared: 2 };
    assert_eq!(transcode.final_timestamp(), Err(expected.clone()));
    assert_eq!(transcode.finish(Ok(vec![])), Err(expected));
    assert_eq!(
        start(0).finish(Ok(vec![])),
        Err(TranscodeError::Encode(EncodeError::NoFrames))
    );
}

#[test]
fn default_request_overrides_nothing() {
    let request = options(8, 9);
    assert_eq!(request.resize, ResizeOptions::contain(CanvasSize { width: 8, height: 9 }));
    assert_eq!(request.decode_limits.max_frame_count, 10_000);
    assert_eq!(request.encoder_config, EncoderConfigOverrides::default());
    assert_eq!(request.animation.kmin, None);
}

#[test]
fn transcode_messages() {
    let quality = "250";
    let cases = [
        (
            TranscodeError::Decode(DecodeError::FrameDecode),
            "animated WebP decode failed: failed to decode WebP animation frame",
        ),
        (
            TranscodeError::Resize(ResizeError::OutputSizeOverflow),
            "animated WebP resize failed: output RGBA size overflows the host address space",
        ),
        (
            TranscodeError::Encode(EncodeError::NoFrames),
            "animated WebP encode failed: an animated WebP requires at least one frame",
        ),
        (
            TranscodeError::DurationOverflow,
            "animated WebP duration overflows Duration",
        ),
        (
            TranscodeError::FrameCountOverflow,
            "animated WebP frame count overflows u32",
        ),
        (
            TranscodeError::FrameCountMismatch { decoded: 1, declared: 20 },
            "decoder produced 1 frames; source declared 20",
        ),
    ];
    for (error, expected) in cases {
        assert_eq!(error.message(quality), expected);
    }
}
