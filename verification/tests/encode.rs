use webp_anim::codec::encode::{
    apply_config_overrides, apply_mux_overrides, duration_to_millis, encoder_error,
    validate_options, EncoderConfig, EncoderReplies, FrameSubmission, MuxOptions, NativeAdd,
};
use webp_anim::{
    AnimationEncoder, AnimationEncoderOptions, AnimationFrame, AnimationInfo,
    AnimationMuxOverrides, BackgroundColor, CanvasSize, Duration, EncodeError,
    EncoderConfigOverrides, LoopCount, NonZeroU16, Quality,
};

const CANVAS: CanvasSize = CanvasSize { width: 2, height: 3 };

fn quality(value: f32) -> Quality {
    Quality { bits: value.to_bits() }
}

fn mux() -> MuxOptions {
    MuxOptions {
        loop_count: 99,
        bgcolor: 98,
        minimize_size: 97,
        allow_mixed: 96,
        kmin: 95,
        kmax: 94,
    }
}

fn replies() -> EncoderReplies {
    EncoderReplies { config_accepted: 1, initial_mux: Some(mux()), created: true }
}

fn encoder() -> AnimationEncoder {
    AnimationEncoder::new(CANVAS, AnimationEncoderOptions::default(), replies()).ok().unwrap()
}

fn with_config(config: EncoderConfigOverrides) -> Result<(), EncodeError> {
    validate_options(&AnimationEncoderOptions { config, ..AnimationEncoderOptions::default() })
}

fn with_keyframes(kmin: Option<i32>, kmax: Option<i32>) -> Result<(), EncodeError> {
    let animation = AnimationMuxOverrides { kmin, kmax, ..AnimationMuxOverrides::default() };
    validate_options(&AnimationEncoderOptions { animation, ..AnimationEncoderOptions::default() })
}

fn millis(count: u64) -> Duration {
    Duration::from_millis(count)
}

#[test]
fn default_options_override_nothing() {
    let options = AnimationEncoderOptions::default();
    assert_eq!(options.loop_count, LoopCount::Infinite);
    assert_eq!(options.background_color, BackgroundColor { raw: 0xffff_ffff });
    assert_eq!(options.config, EncoderConfigOverrides::default());
    assert_eq!(options.animation, AnimationMuxOverrides::default());
    assert_eq!(options.config.quality, None);
    assert_eq!(options.animation.kmax, None);
    assert_eq!(validate_options(&options), Ok(()));
}

#[test]
fn options_copy_animation_metadata() {
    let info = AnimationInfo {
        canvas: CANVAS,
        frame_count: 4,
        loop_count: LoopCount::Finite(NonZeroU16::new(12).unwrap()),
        background_color: BackgroundColor { raw: 77 },
    };
    let options = AnimationEncoderOptions::from_animation_info(info);
    assert_eq!(options, AnimationEncoderOptions::new(info.loop_count, info.background_color));
    assert_eq!(options.loop_count, info.loop_count);
    assert_eq!(options.background_color, info.background_color);
}

#[test]
fn quality_range() {
    for value in [0.0, -0.0, 1e-40, 0.5, 75.0, 99.999, 100.0] {
        let config = EncoderConfigOverrides { quality: Some(quality(value)), ..Default::default() };
        assert_eq!(with_config(config), Ok(()));
    }
    let refused = [
        100.00001,
        101.0,
        f32::MAX,
        -1e-40,
        -1.0,
        f32::INFINITY,
        f32::NEG_INFINITY,
        f32::NAN,
    ];
    for value in refused {
        let config = EncoderConfigOverrides { quality: Some(quality(value)), ..Default::default() };
        match with_config(config) {
            Err(EncodeError::InvalidQuality { value: rejected }) => {
                assert_eq!(rejected.bits, value.to_bits())
            }
            other => panic!("unexpected result {other:?}"),
        }
    }
}

#[test]
fn qualities_are_compared_as_numbers() {
    let values = [0.0, -0.0, 1.0, -1.0, 75.0, f32::INFINITY, f32::NEG_INFINITY, f32::NAN, -f32::NAN];
    for left in values {
        for right in values {
            assert_eq!(quality(left) == quality(right), left == right);
        }
    }
}

#[test]
fn small_ranges() {
    let default = EncoderConfigOverrides::default();
    assert_eq!(with_config(EncoderConfigOverrides { method: Some(6), ..default }), Ok(()));
    assert_eq!(
        with_config(EncoderConfigOverrides { method: Some(7), ..default }),
        Err(EncodeError::InvalidMethod { value: 7 })
    );
    assert_eq!(with_config(EncoderConfigOverrides { alpha_quality: Some(100), ..default }), Ok(()));
    assert_eq!(
        with_config(EncoderConfigOverrides { alpha_quality: Some(101), ..default }),
        Err(EncodeError::InvalidAlphaQuality { value: 101 })
    );
    assert_eq!(with_config(EncoderConfigOverrides { preprocessing: Some(2), ..default }), Ok(()));
    assert_eq!(
        with_config(EncoderConfigOverrides { preprocessing: Some(3), ..default }),
        Err(EncodeError::InvalidPreprocessing { value: 3 })
    );
    assert_eq!(with_config(EncoderConfigOverrides { filter_strength: Some(100), ..default }), Ok(()));
    assert_eq!(
        with_config(EncoderConfigOverrides { filter_strength: Some(-1), ..default }),
        Err(EncodeError::InvalidFilterStrength { value: -1 })
    );
    assert_eq!(
        with_config(EncoderConfigOverrides { filter_sharpness: Some(8), ..default }),
        Err(EncodeError::InvalidFilterSharpness { value: 8 })
    );
    assert_eq!(
        with_config(EncoderConfigOverrides { filter_type: Some(2), ..default }),
        Err(EncodeError::InvalidFilterType { value: 2 })
    );
    // the first field outside its range is reported
    assert_eq!(
        with_config(EncoderConfigOverrides {
            method: Some(9),
            filter_type: Some(9),
            ..default
        }),
        Err(EncodeError::InvalidMethod { value: 9 })
    );
}

#[test]
fn keyframe_intervals() {
    assert_eq!(with_keyframes(None, None), Ok(()));
    assert_eq!(with_keyframes(Some(0), Some(0)), Ok(()));
    assert_eq!(with_keyframes(Some(0), Some(1)), Ok(()));
    assert_eq!(with_keyframes(Some(2), Some(3)), Ok(()));
    assert_eq!(with_keyframes(Some(30), Some(58)), Ok(()));
    assert_eq!(with_keyframes(Some(70), Some(100)), Ok(()));
    assert_eq!(
        with_keyframes(Some(1), None),
        Err(EncodeError::IncompleteKeyframeInterval { kmin: Some(1), kmax: None })
    );
    assert_eq!(
        with_keyframes(Some(1), Some(1)),
        Err(EncodeError::NonCanonicalKeyframeMode { kmin: 1, kmax: 1 })
    );
    assert_eq!(
        with_keyframes(Some(-5), Some(0)),
        Err(EncodeError::NonCanonicalKeyframeMode { kmin: -5, kmax: 0 })
    );
    assert_eq!(
        with_keyframes(Some(-1), Some(4)),
        Err(EncodeError::InvalidKeyframeInterval { kmin: -1, kmax: 4 })
    );
    assert_eq!(
        with_keyframes(Some(4), Some(4)),
        Err(EncodeError::InvalidKeyframeInterval { kmin: 4, kmax: 4 })
    );
    assert_eq!(
        with_keyframes(Some(2), Some(4)),
        Err(EncodeError::KeyframeIntervalBelowMinimum { kmin: 2, minimum: 3, kmax: 4 })
    );
    assert_eq!(
        with_keyframes(Some(69), Some(100)),
        Err(EncodeError::KeyframeIntervalTooWide { kmin: 69, kmax: 100, maximum_span: 30 })
    );
    let animation = AnimationMuxOverrides {
        minimize_size: Some(true),
        allow_mixed: None,
        kmin: Some(0),
        kmax: Some(0),
    };
    let options = AnimationEncoderOptions { animation, ..AnimationEncoderOptions::default() };
    assert_eq!(
        validate_options(&options),
        Err(EncodeError::KeyframeIntervalIgnoredByMinimizeSize)
    );
}

#[test]
fn setup_starts_from_the_initialized_configuration() {
    let setup = AnimationEncoder::setup(CANVAS, AnimationEncoderOptions::default()).unwrap();
    assert_eq!((setup.width, setup.height), (2, 3));
    assert_eq!(
        setup.config,
        EncoderConfig {
            quality: quality(75.0),
            lossless: 0,
            method: 4,
            use_sharp_yuv: 0,
            autofilter: 0,
            alpha_quality: 100,
            preprocessing: 0,
            thread_level: 0,
            filter_strength: 60,
            filter_sharpness: 0,
            filter_type: 1,
        }
    );
}

#[test]
fn overrides_replace_their_fields() {
    let mut config =
        AnimationEncoder::setup(CANVAS, AnimationEncoderOptions::default()).unwrap().config;
    let overrides = EncoderConfigOverrides {
        quality: Some(quality(12.5)),
        lossless: Some(true),
        method: Some(1),
        use_sharp_yuv: Some(true),
        autofilter: Some(true),
        alpha_quality: Some(2),
        preprocessing: Some(1),
        thread_level: Some(true),
        filter_strength: Some(3),
        filter_sharpness: Some(4),
        filter_type: Some(0),
    };
    apply_config_overrides(&mut config, overrides);
    assert_eq!(
        config,
        EncoderConfig {
            quality: quality(12.5),
            lossless: 1,
            method: 1,
            use_sharp_yuv: 1,
            autofilter: 1,
            alpha_quality: 2,
            preprocessing: 1,
            thread_level: 1,
            filter_strength: 3,
            filter_sharpness: 4,
            filter_type: 0,
        }
    );
    let mut options = mux();
    let overrides = AnimationMuxOverrides {
        minimize_size: Some(false),
        allow_mixed: Some(true),
        kmin: Some(5),
        kmax: Some(6),
    };
    apply_mux_overrides(&mut options, overrides);
    assert_eq!(
        options,
        MuxOptions { minimize_size: 0, allow_mixed: 1, kmin: 5, kmax: 6, ..mux() }
    );
}

#[test]
fn mux_options_hold_the_animation_metadata() {
    let options = AnimationEncoderOptions::new(
        LoopCount::Finite(NonZeroU16::new(9).unwrap()),
        BackgroundColor { raw: 5 },
    );
    let setup = AnimationEncoder::setup(CANVAS, options).unwrap();
    assert_eq!(
        setup.mux_options(Some(mux())),
        Ok(MuxOptions { loop_count: 9, bgcolor: 5, ..mux() })
    );
    assert_eq!(setup.mux_options(None), Err(EncodeError::EncoderOptionsInitialization));
    assert_eq!(setup.check_config(0), Err(EncodeError::LibwebpConfigRejected));
    assert_eq!(setup.check_config(1), Ok(()));
    let endless = AnimationEncoder::setup(CANVAS, AnimationEncoderOptions::default()).unwrap();
    assert_eq!(endless.mux_options(Some(mux())).unwrap().loop_count, 0);
}

#[test]
fn unusable_canvases_are_refused() {
    let options = AnimationEncoderOptions::default();
    for (width, height) in [(0, 1), (1, 0), (0x8000_0000, 1), (1, 0x8000_0000)] {
        let canvas = CanvasSize { width, height };
        assert_eq!(
            AnimationEncoder::setup(canvas, options),
            Err(EncodeError::InvalidCanvasSize(canvas))
        );
    }
    let canvas = CanvasSize { width: 0, height: 0 };
    let bad = AnimationEncoderOptions {
        config: EncoderConfigOverrides { method: Some(7), ..Default::default() },
        ..options
    };
    assert_eq!(
        AnimationEncoder::setup(canvas, bad),
        Err(EncodeError::InvalidCanvasSize(canvas))
    );
    assert_eq!(
        AnimationEncoder::setup(CANVAS, bad),
        Err(EncodeError::InvalidMethod { value: 7 })
    );
}

#[test]
fn native_failures_to_open_are_told_apart() {
    let open = |replies| {
        AnimationEncoder::new(CANVAS, AnimationEncoderOptions::default(), replies).err()
    };
    assert_eq!(
        open(EncoderReplies { config_accepted: 0, initial_mux: None, created: false }),
        Some(EncodeError::LibwebpConfigRejected)
    );
    assert_eq!(
        open(EncoderReplies { initial_mux: None, created: false, ..replies() }),
        Some(EncodeError::EncoderOptionsInitialization)
    );
    assert_eq!(
        open(EncoderReplies { created: false, ..replies() }),
        Some(EncodeError::EncoderCreation)
    );
    assert_eq!(open(replies()), None);
}

#[test]
fn frames_are_placed_one_behind_the_other() {
    let mut encoder = encoder();
    assert_eq!(encoder.canvas(), CANVAS);
    assert_eq!(encoder.config().method, 4);
    assert_eq!(encoder.final_timestamp(), Err(EncodeError::NoFrames));
    let rgba = [0; 24];
    let mut start = 0;
    for (count, duration) in [40, 0, 60].into_iter().enumerate() {
        assert_eq!(encoder.frame_count(), count as u32);
        assert_eq!(
            encoder.submit_rgba(&rgba, millis(duration)),
            Ok(FrameSubmission {
                width: 2,
                height: 3,
                stride: 8,
                use_argb: 1,
                timestamp_ms: start,
                config: encoder.config(),
            })
        );
        assert_eq!(encoder.add_rgba(&rgba, millis(duration), NativeAdd::Added), Ok(()));
        start += duration as i32;
    }
    assert_eq!(encoder.final_timestamp(), Ok(100));
    assert_eq!(encoder.frame_count(), 3);
    assert_eq!(encoder.finish(Ok(vec![1, 2])), Ok(vec![1, 2]));
}

#[test]
fn refused_frames_leave_the_encoder_unchanged() {
    let mut encoder = encoder();
    let rgba = [0; 24];
    assert_eq!(
        encoder.add_rgba(&rgba[1..], millis(1), NativeAdd::Added),
        Err(EncodeError::InvalidFrameBufferLength { actual: 23, expected: 24 })
    );
    let fraction = Duration::new(0, 1_500_000);
    assert_eq!(
        encoder.add_rgba(&rgba, fraction, NativeAdd::Added),
        Err(EncodeError::NonMillisecondDuration(fraction))
    );
    assert_eq!(
        encoder.add_rgba(&rgba, millis(1), NativeAdd::PictureInitializationFailed),
        Err(EncodeError::PictureInitialization)
    );
    assert_eq!(
        encoder.add_rgba(&rgba, millis(1), NativeAdd::PictureImportFailed),
        Err(EncodeError::PictureImport)
    );
    assert_eq!(
        encoder.add_rgba(&rgba, millis(1), NativeAdd::Rejected(Some("full".to_string()))),
        Err(EncodeError::Libwebp("full".to_string()))
    );
    assert_eq!(encoder.frame_count(), 0);
    assert_eq!(encoder.add_rgba(&rgba, millis(i32::MAX as u64), NativeAdd::Added), Ok(()));
    assert_eq!(
        encoder.add_rgba(&rgba, millis(1), NativeAdd::Added),
        Err(EncodeError::TimestampOverflow)
    );
    assert_eq!(encoder.final_timestamp(), Ok(i32::MAX));
    assert_eq!(
        encoder.finish(Err(None)),
        Err(EncodeError::Libwebp("unknown error".to_string()))
    );
}

#[test]
fn rows_must_fit_the_native_stride() {
    let canvas = CanvasSize { width: 0x2000_0000, height: 1 };
    let encoder =
        AnimationEncoder::new(canvas, AnimationEncoderOptions::default(), replies()).ok().unwrap();
    assert_eq!(encoder.canvas(), canvas);
    assert_eq!(
        encoder.submit_rgba(&[], millis(1)),
        Err(EncodeError::InvalidFrameBufferLength { actual: 0, expected: 0x8000_0000 })
    );
    let row: Vec<u8> = vec![0; 0x8000_0000];
    assert_eq!(
        encoder.submit_rgba(&row, millis(1)),
        Err(EncodeError::InvalidCanvasSize(canvas))
    );
}

#[test]
fn frames_must_use_the_canvas() {
    let mut encoder = encoder();
    let other = CanvasSize { width: 3, height: 2 };
    let frame = AnimationFrame { rgba: vec![0; 24], canvas: other, duration: millis(5) };
    let expected = EncodeError::UnexpectedFrameCanvas { actual: other, expected: CANVAS };
    assert_eq!(encoder.submit_frame(&frame), Err(expected.clone()));
    assert_eq!(encoder.add_frame(&frame, NativeAdd::Added), Err(expected));
    let frame = AnimationFrame { canvas: CANVAS, ..frame };
    assert_eq!(encoder.submit_frame(&frame).unwrap().timestamp_ms, 0);
    assert_eq!(encoder.add_frame(&frame, NativeAdd::Added), Ok(()));
    assert_eq!(encoder.submit_frame(&frame).unwrap().timestamp_ms, 5);
}

#[test]
fn finishing_needs_a_frame() {
    assert_eq!(encoder().finish(Ok(vec![])), Err(EncodeError::NoFrames));
}

#[test]
fn durations_in_milliseconds() {
    assert_eq!(duration_to_millis(millis(0)), Ok(0));
    assert_eq!(duration_to_millis(Duration::new(1, 234_000_000)), Ok(1234));
    assert_eq!(duration_to_millis(millis(0x7fff_ffff)), Ok(i32::MAX));
    assert_eq!(duration_to_millis(millis(0x8000_0000)), Err(EncodeError::TimestampOverflow));
    assert_eq!(
        duration_to_millis(Duration::from_secs(u64::MAX)),
        Err(EncodeError::TimestampOverflow)
    );
    let odd = Duration::new(0, 1);
    assert_eq!(duration_to_millis(odd), Err(EncodeError::NonMillisecondDuration(odd)));
    let long = Duration::max();
    assert_eq!(duration_to_millis(long), Err(EncodeError::NonMillisecondDuration(long)));
}

#[test]
fn encoder_messages() {
    assert_eq!(encoder_error(None), "unknown error");
    assert_eq!(encoder_error(Some("bad frame".to_string())), "bad frame");
}

#[test]
fn encode_messages() {
    let cases = [
        (
            EncodeError::InvalidCanvasSize(CANVAS),
            "canvas has invalid dimensions 2x3",
        ),
        (
            EncodeError::ConfigInitialization,
            "failed to initialize WebP encoder configuration",
        ),
        (
            EncodeError::InvalidQuality { value: quality(100.5) },
            "quality 100.5 is outside libwebp's 0.0..=100.0 range",
        ),
        (
            EncodeError::InvalidMethod { value: 7 },
            "method 7 is outside libwebp's 0..=6 range",
        ),
        (
            EncodeError::InvalidAlphaQuality { value: 101 },
            "alpha quality 101 is outside libwebp's 0..=100 range",
        ),
        (
            EncodeError::InvalidPreprocessing { value: 3 },
            "preprocessing mode 3 is outside libwebp's 0..=2 range",
        ),
        (
            EncodeError::InvalidFilterStrength { value: -2147483648 },
            "filter strength -2147483648 is outside libwebp's 0..=100 range",
        ),
        (
            EncodeError::InvalidFilterSharpness { value: 8 },
            "filter sharpness 8 is outside libwebp's 0..=7 range",
        ),
        (
            EncodeError::InvalidFilterType { value: -1 },
            "filter type -1 is outside libwebp's 0..=1 range",
        ),
        (
            EncodeError::IncompleteKeyframeInterval { kmin: Some(-3), kmax: None },
            "key-frame interval requires both kmin and kmax (got kmin=Some(-3), kmax=None)",
        ),
        (
            EncodeError::InvalidKeyframeInterval { kmin: 4, kmax: 4 },
            "key-frame interval requires 0 <= kmin < kmax (got kmin=4, kmax=4)",
        ),
        (
            EncodeError::NonCanonicalKeyframeMode { kmin: 1, kmax: 0 },
            "key-frame special modes must use (kmin, kmax) = (0, 0) to disable insertion or (0, 1) for every frame (got 1, 0)",
        ),
        (
            EncodeError::KeyframeIntervalBelowMinimum { kmin: 2, minimum: 3, kmax: 4 },
            "key-frame interval requires kmin >= kmax / 2 + 1; got kmin=2, kmax=4, minimum=3",
        ),
        (
            EncodeError::KeyframeIntervalTooWide { kmin: 69, kmax: 100, maximum_span: 30 },
            "key-frame interval span kmax - kmin must not exceed 30; got kmin=69, kmax=100",
        ),
        (
            EncodeError::KeyframeIntervalIgnoredByMinimizeSize,
            "key-frame interval cannot be set when minimize_size is enabled because libwebp disables key-frame insertion",
        ),
        (
            EncodeError::LibwebpConfigRejected,
            "libwebp rejected the validated encoder configuration",
        ),
        (
            EncodeError::EncoderOptionsInitialization,
            "failed to initialize WebP animation encoder options",
        ),
        (EncodeError::EncoderCreation, "failed to create WebP animation encoder"),
        (EncodeError::NoFrames, "an animated WebP requires at least one frame"),
        (
            EncodeError::UnexpectedFrameCanvas {
                actual: CanvasSize { width: 10, height: 20 },
                expected: CANVAS,
            },
            "frame canvas 10x20 does not match encoder canvas 2x3",
        ),
        (
            EncodeError::InvalidFrameBufferLength { actual: 23, expected: 24 },
            "frame buffer is 23 bytes; expected 24",
        ),
        (
            EncodeError::NonMillisecondDuration(Duration::new(0, 1_500_000)),
            "frame duration 1.5ms is not an exact number of milliseconds",
        ),
        (
            EncodeError::TimestampOverflow,
            "cumulative frame duration exceeds libwebp's timestamp range",
        ),
        (EncodeError::FrameCountOverflow, "animation frame count overflows u32"),
        (
            EncodeError::PictureInitialization,
            "failed to initialize a WebP frame picture",
        ),
        (
            EncodeError::PictureImport,
            "failed to import RGBA frame pixels into libwebp",
        ),
        (
            EncodeError::Libwebp("no room".to_string()),
            "libwebp animation encoding failed: no room",
        ),
    ];
    for (error, expected) in cases {
        assert_eq!(error.message("100.5"), expected);
    }
}
