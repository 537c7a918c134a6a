use webp_anim::codec::decode::{NativeOpening, RawAnimationInfo};
use webp_anim::inspect::{
    animation_flag, enforce_canvas_limit, inspect_canvas, inspect_container, NativeInfo,
};
use webp_anim::{
    inspect, is_animated_webp_fast, BackgroundColor, CanvasSize, DecodeError, InspectError,
    InspectLimits, LoopCount, WebpKind,
};

fn chunk(tag: &[u8; 4], payload: &[u8]) -> Vec<u8> {
    let mut bytes = tag.to_vec();
    bytes.extend_from_slice(&(payload.len() as u32).to_le_bytes());
    bytes.extend_from_slice(payload);
    if payload.len() % 2 == 1 {
        bytes.push(0);
    }
    bytes
}

fn container(chunks: &[Vec<u8>]) -> Vec<u8> {
    let body: Vec<u8> = chunks.concat();
    let mut bytes = b"RIFF".to_vec();
    bytes.extend_from_slice(&(4 + body.len() as u32).to_le_bytes());
    bytes.extend_from_slice(b"WEBP");
    bytes.extend_from_slice(&body);
    bytes
}

fn vp8x(flags: u8) -> Vec<u8> {
    chunk(b"VP8X", &[flags, 0, 0, 0, 1, 0, 0, 1, 0, 0])
}

fn animated() -> Vec<u8> {
    container(&[vp8x(0x02)])
}

fn still() -> Vec<u8> {
    container(&[chunk(b"VP8 ", &[1, 2, 3])])
}

fn valid(width: i32, height: i32) -> NativeInfo {
    NativeInfo { valid: 1, width, height }
}

fn opened() -> NativeOpening {
    NativeOpening::Opened(RawAnimationInfo {
        canvas_width: 2,
        canvas_height: 3,
        loop_count: 7,
        bgcolor: 0x1122_3344,
        frame_count: 5,
    })
}

#[test]
fn animation_flag_is_read_from_the_first_vp8x_chunk() {
    assert_eq!(animation_flag(&animated()), Ok(true));
    assert_eq!(animation_flag(&container(&[vp8x(0x10)])), Ok(false));
    assert_eq!(animation_flag(&container(&[vp8x(0x12)])), Ok(true));
    assert_eq!(animation_flag(&container(&[vp8x(0x10), vp8x(0x02)])), Ok(false));
    assert_eq!(
        animation_flag(&container(&[chunk(b"JUNK", &[9, 9, 9]), vp8x(0x02)])),
        Ok(true)
    );
}

#[test]
fn container_without_vp8x_is_not_animated() {
    assert_eq!(animation_flag(&still()), Ok(false));
    assert_eq!(animation_flag(&container(&[])), Ok(false));
    assert!(!is_animated_webp_fast(&still()));
    assert!(is_animated_webp_fast(&animated()));
}

#[test]
fn malformed_containers_are_reported() {
    assert_eq!(animation_flag(b"RIFF"), Err(InspectError::TruncatedContainer));
    assert_eq!(
        animation_flag(b"RIFX\x04\0\0\0WEBP"),
        Err(InspectError::InvalidContainer)
    );
    assert_eq!(
        animation_flag(b"RIFF\x04\0\0\0WAVE"),
        Err(InspectError::InvalidContainer)
    );
    assert_eq!(
        animation_flag(b"RIFF\x05\0\0\0WEBP"),
        Err(InspectError::TruncatedContainer)
    );
    assert_eq!(
        animation_flag(b"RIFF\xff\xff\xff\xffWEBP"),
        Err(InspectError::TruncatedContainer)
    );
    // a chunk header that is cut off
    assert_eq!(
        animation_flag(b"RIFF\x08\0\0\0WEBPVP8X"),
        Err(InspectError::TruncatedContainer)
    );
    // a chunk that reaches behind the container
    assert_eq!(
        animation_flag(b"RIFF\x0c\0\0\0WEBPVP8X\x0a\0\0\0"),
        Err(InspectError::TruncatedContainer)
    );
    // an odd payload without its padding byte
    assert_eq!(
        animation_flag(b"RIFF\x0d\0\0\0WEBPJUNK\x01\0\0\0\x07"),
        Err(InspectError::TruncatedContainer)
    );
    // a feature chunk that is too short
    assert_eq!(
        animation_flag(&container(&[chunk(b"VP8X", &[2, 0, 0, 0])])),
        Err(InspectError::TruncatedContainer)
    );
    assert!(!is_animated_webp_fast(b""));
}

#[test]
fn short_inputs_are_invalid_unless_they_begin_a_header() {
    for invalid in [&b"GIF89a"[..], b"j", b"RIFX", b"RIFF\x04\0\0\0WA", b"RIFF\x04\0\0\0WEBX"] {
        assert_eq!(animation_flag(invalid), Err(InspectError::InvalidContainer));
    }
    for truncated in [&b""[..], b"R", b"RIFF", b"RIFF\xff\xff", b"RIFF\x04\0\0\0WEB"] {
        assert_eq!(animation_flag(truncated), Err(InspectError::TruncatedContainer));
    }
    assert_eq!(
        inspect(b"GIF89a", InspectLimits::default(), valid(1, 1), opened()),
        Err(InspectError::InvalidContainer)
    );
}

#[test]
fn trailing_bytes_do_not_change_the_kind() {
    let mut bytes = animated();
    bytes.extend_from_slice(b"trailing");
    assert_eq!(animation_flag(&bytes), Ok(true));
}

#[test]
fn every_cut_of_a_container_is_truncated() {
    let bytes = container(&[chunk(b"JUNK", &[1, 2, 3]), vp8x(0x02)]);
    for length in 0..bytes.len() {
        assert_eq!(
            animation_flag(&bytes[..length]),
            Err(InspectError::TruncatedContainer)
        );
    }
}

#[test]
fn input_limit_comes_before_the_container() {
    let mut limits = InspectLimits::default();
    limits.max_input_bytes = 3;
    assert_eq!(
        inspect_container(b"junk", &limits),
        Err(InspectError::InputTooLarge { actual: 4, maximum: 3 })
    );
    limits.max_input_bytes = 4;
    assert_eq!(
        inspect_container(b"junk", &limits),
        Err(InspectError::InvalidContainer)
    );
    assert_eq!(inspect_container(&animated(), &InspectLimits::default()), Ok(true));
}

#[test]
fn reported_canvas_is_checked() {
    let limits = InspectLimits { max_canvas_pixels: 6, ..InspectLimits::default() };
    assert_eq!(
        inspect_canvas(valid(2, 3), &limits),
        Ok(CanvasSize { width: 2, height: 3 })
    );
    assert_eq!(
        inspect_canvas(valid(7, 1), &limits),
        Err(InspectError::LimitExceeded { limit: "canvas pixels", actual: 7, maximum: 6 })
    );
    assert_eq!(inspect_canvas(valid(-1, 1), &limits), Err(InspectError::InvalidWebp));
    assert_eq!(inspect_canvas(valid(1, -1), &limits), Err(InspectError::InvalidWebp));
    assert_eq!(
        inspect_canvas(NativeInfo { valid: 0, width: 1, height: 1 }, &limits),
        Err(InspectError::InvalidWebp)
    );
    assert_eq!(
        enforce_canvas_limit(CanvasSize { width: u32::MAX, height: u32::MAX }, 5),
        Err(InspectError::LimitExceeded {
            limit: "canvas pixels",
            actual: 0xffff_fffe_0000_0001,
            maximum: 5
        })
    );
}

#[test]
fn inspect_tells_static_from_animated() {
    let kind = inspect(
        &still(),
        InspectLimits::default(),
        valid(4, 5),
        NativeOpening::CreationFailed,
    );
    match kind {
        Ok(WebpKind::Static(info)) => {
            assert_eq!(info.canvas, CanvasSize { width: 4, height: 5 })
        }
        other => panic!("unexpected kind {other:?}"),
    }
    match inspect(&animated(), InspectLimits::default(), valid(2, 3), opened()) {
        Ok(WebpKind::Animated(info)) => {
            assert_eq!(info.canvas, CanvasSize { width: 2, height: 3 });
            assert_eq!(info.frame_count, 5);
            assert!(matches!(info.loop_count, LoopCount::Finite(count) if count.get() == 7));
            assert_eq!(info.background_color, BackgroundColor { raw: 0x1122_3344 });
        }
        other => panic!("unexpected kind {other:?}"),
    }
}

#[test]
fn inspect_reports_the_first_failure() {
    let limits = InspectLimits::default();
    assert_eq!(
        inspect(b"not a webp file", limits, valid(1, 1), opened()),
        Err(InspectError::InvalidContainer)
    );
    assert_eq!(
        inspect(&animated(), limits, valid(-1, 1), opened()),
        Err(InspectError::InvalidWebp)
    );
    assert_eq!(
        inspect(&animated(), limits, valid(2, 3), NativeOpening::CreationFailed),
        Err(InspectError::Animation(DecodeError::DecoderCreation))
    );
    let few = InspectLimits { max_frame_count: 4, ..limits };
    assert_eq!(
        inspect(&animated(), few, valid(2, 3), opened()),
        Err(InspectError::Animation(DecodeError::LimitExceeded {
            limit: "frame count",
            actual: 5,
            maximum: 4
        }))
    );
}

#[test]
fn inspect_limits_have_the_documented_values() {
    let limits = InspectLimits::default();
    assert_eq!(limits.max_input_bytes, 256 * 1024 * 1024);
    assert_eq!(limits.max_canvas_pixels, 100_000_000);
    assert_eq!(limits.max_frame_count, 10_000);
    assert_eq!(limits.max_frame_rgba_bytes, 400 * 1024 * 1024);
    let trusted = InspectLimits::for_trusted_input();
    assert_eq!(trusted.max_input_bytes, usize::MAX);
    assert_eq!(trusted.max_canvas_pixels, u64::MAX);
    assert_eq!(trusted.max_frame_count, u32::MAX);
    assert_eq!(trusted.max_frame_rgba_bytes, usize::MAX);
    let decode = trusted.decode_limits();
    assert_eq!(decode.max_input_bytes, usize::MAX);
    assert_eq!(decode.max_total_duration.as_secs(), 3600);
}

#[test]
fn inspect_messages() {
    let message = |error: InspectError| error.message();
    assert_eq!(
        message(InspectError::InputTooLarge { actual: 10, maximum: 9 }),
        "input is 10 bytes, exceeding the 9-byte limit"
    );
    assert_eq!(message(InspectError::InvalidContainer), "input is not a RIFF/WebP container");
    assert_eq!(
        message(InspectError::TruncatedContainer),
        "WebP RIFF container is truncated or malformed"
    );
    assert_eq!(message(InspectError::InvalidWebp), "input is not a valid WebP image");
    assert_eq!(
        message(InspectError::LimitExceeded { limit: "canvas pixels", actual: 7, maximum: 6 }),
        "canvas pixels is 7, exceeding the 6 limit"
    );
    assert_eq!(
        message(InspectError::Animation(DecodeError::FrameDecode)),
        "failed to inspect animated WebP: failed to decode WebP animation frame"
    );
}
