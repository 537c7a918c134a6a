use webp_anim::resize::{destination_size, validate_size};
use webp_anim::{
    AnimationFrame, CanvasSize, Duration, ResizeError, ResizeFilter, ResizeOptions, ResizePlan,
};

fn size(width: u32, height: u32) -> CanvasSize {
    CanvasSize { width, height }
}

fn plan(source: CanvasSize, maximum: CanvasSize) -> ResizePlan {
    ResizePlan::new(source, ResizeOptions::contain(maximum)).unwrap()
}

#[test]
fn destination_fits_and_keeps_the_aspect_ratio() {
    assert_eq!(destination_size(size(320, 240), size(160, 120), false), size(160, 120));
    assert_eq!(destination_size(size(320, 240), size(100, 100), false), size(100, 75));
    assert_eq!(destination_size(size(240, 320), size(100, 100), false), size(75, 100));
    assert_eq!(destination_size(size(7, 3), size(5, 5), false), size(5, 2));
    assert_eq!(destination_size(size(1000, 1), size(10, 10), false), size(10, 1));
    assert_eq!(destination_size(size(1, 1000), size(10, 10), false), size(1, 10));
    assert_eq!(
        destination_size(size(u32::MAX, u32::MAX), size(u32::MAX - 1, u32::MAX), false),
        size(u32::MAX - 1, u32::MAX - 1)
    );
}

#[test]
fn sources_are_enlarged_only_on_request() {
    assert_eq!(destination_size(size(10, 5), size(100, 100), false), size(10, 5));
    assert_eq!(destination_size(size(10, 5), size(100, 100), true), size(100, 50));
    assert_eq!(destination_size(size(10, 5), size(10, 5), true), size(10, 5));
    assert!(plan(size(10, 5), size(100, 100)).is_noop());
    assert!(!plan(size(10, 5), size(5, 100)).is_noop());
}

#[test]
fn resizing_twice_changes_nothing_more() {
    let maximum = size(31, 17);
    let once = destination_size(size(123, 77), maximum, false);
    assert_eq!(once, size(27, 17));
    assert_eq!(destination_size(once, maximum, false), once);
    let enlarged = destination_size(size(5, 3), maximum, true);
    assert_eq!(enlarged, size(28, 17));
    assert_eq!(destination_size(enlarged, maximum, true), enlarged);
}

#[test]
fn empty_canvases_are_refused() {
    assert_eq!(
        validate_size("source", size(0, 1)),
        Err(ResizeError::InvalidCanvasSize { which: "source", size: size(0, 1) })
    );
    assert_eq!(validate_size("source", size(1, 1)), Ok(()));
    assert_eq!(
        ResizePlan::new(size(1, 0), ResizeOptions::contain(size(0, 0))),
        Err(ResizeError::InvalidCanvasSize { which: "source", size: size(1, 0) })
    );
    assert_eq!(
        ResizePlan::new(size(1, 1), ResizeOptions::contain(size(0, 9))),
        Err(ResizeError::InvalidCanvasSize { which: "maximum", size: size(0, 9) })
    );
}

#[test]
fn output_size_is_limited() {
    let options = ResizeOptions {
        max_output_rgba_bytes: 15,
        ..ResizeOptions::contain(size(2, 2))
    };
    assert_eq!(
        ResizePlan::new(size(4, 4), options),
        Err(ResizeError::OutputTooLarge { actual: 16, maximum: 15 })
    );
    let exact = ResizeOptions { max_output_rgba_bytes: 16, ..options };
    assert!(ResizePlan::new(size(4, 4), exact).is_ok());
    let huge = size(u32::MAX, u32::MAX);
    assert_eq!(
        ResizePlan::new(huge, ResizeOptions::contain(huge)),
        Err(ResizeError::OutputSizeOverflow)
    );
}

#[test]
fn oversized_source_is_refused_when_it_is_applied() {
    let huge = size(u32::MAX, u32::MAX);
    let plan = plan(huge, size(1, 1));
    assert_eq!(plan.source(), huge);
    assert_eq!(plan.destination(), size(1, 1));
    assert_eq!(plan.transform_rgba(&[]), Err(ResizeError::SourceSizeOverflow));
}

#[test]
fn plan_reports_its_canvases() {
    let plan = plan(size(8, 4), size(4, 4));
    assert_eq!(plan.source(), size(8, 4));
    assert_eq!(plan.destination(), size(4, 2));
    assert_eq!(ResizeOptions::contain(size(1, 1)).filter, ResizeFilter::default());
    assert_eq!(ResizeFilter::default(), ResizeFilter::Bilinear);
}

#[test]
fn unchanged_canvas_copies_the_pixels() {
    let plan = plan(size(2, 1), size(9, 9));
    let pixels = [1, 2, 3, 4, 5, 6, 7, 8];
    assert_eq!(plan.transform_rgba(&pixels), Ok(pixels.to_vec()));
}

#[test]
fn uniform_pixels_stay_uniform() {
    for filter in [ResizeFilter::Bilinear, ResizeFilter::CatmullRom, ResizeFilter::Lanczos3] {
        let options = ResizeOptions { filter, ..ResizeOptions::contain(size(2, 2)) };
        let plan = ResizePlan::new(size(4, 4), options).unwrap();
        let resized = plan.transform_rgba(&[10, 200, 30, 255].repeat(16)).unwrap();
        assert_eq!(resized, [10, 200, 30, 255].repeat(4));
    }
}

#[test]
fn halving_averages_neighbours() {
    let plan = plan(size(2, 1), size(1, 1));
    let resized = plan.transform_rgba(&[0, 40, 100, 255, 200, 60, 100, 255]).unwrap();
    assert_eq!(resized, [100, 50, 100, 255]);
}

#[test]
fn transparent_pixels_do_not_bleed() {
    let plan = plan(size(2, 1), size(1, 1));
    let resized = plan.transform_rgba(&[255, 0, 0, 0, 0, 0, 250, 255]).unwrap();
    assert_eq!(resized[0], 0);
    assert!(resized[2] >= 248);
    assert!(resized[3] == 127 || resized[3] == 128);
}

#[test]
fn workspace_is_reused_between_frames() {
    let plan = plan(size(2, 2), size(1, 1));
    let mut workspace = plan.workspace().ok().unwrap();
    assert_eq!(workspace.pixels(), [0, 0, 0, 0]);
    let mut first = [9, 8, 7, 255].repeat(4);
    assert_eq!(workspace.transform_rgba(&mut first), Ok(()));
    assert_eq!(first, [9, 8, 7, 255].repeat(4));
    assert_eq!(workspace.pixels(), [9, 8, 7, 255]);
    assert_eq!(
        workspace.transform_rgba(&mut [0; 15]),
        Err(ResizeError::InvalidSourceBufferLength { actual: 15, expected: 16 })
    );
    assert_eq!(workspace.pixels(), [9, 8, 7, 255]);
    let mut second = [90, 80, 70, 255].repeat(4);
    assert_eq!(workspace.transform_rgba(&mut second), Ok(()));
    assert_eq!(workspace.pixels(), [90, 80, 70, 255]);
}

#[test]
fn one_shot_and_reused_workspace_agree() {
    for maximum in [size(3, 3), size(5, 5)] {
        let plan = plan(size(5, 4), maximum);
        let mut workspace = plan.workspace().ok().unwrap();
        workspace.transform_rgba(&mut [200; 80]).unwrap();
        let mut rgba: Vec<u8> = (0..80).collect();
        let one_shot = plan.transform_rgba(&rgba).unwrap();
        workspace.transform_rgba(&mut rgba).unwrap();
        assert_eq!(Some(one_shot.len()), plan.destination().rgba_bytes());
        assert_eq!(workspace.pixels(), one_shot);
    }
}

#[test]
fn frames_keep_their_duration() {
    let plan = plan(size(2, 2), size(1, 1));
    let frame = AnimationFrame {
        rgba: [5, 6, 7, 255].repeat(4),
        canvas: size(2, 2),
        duration: Duration::from_millis(33),
    };
    let resized = plan.transform_frame(frame.clone()).unwrap();
    assert_eq!(resized.rgba, [5, 6, 7, 255]);
    assert_eq!(resized.canvas, size(1, 1));
    assert_eq!(resized.duration, Duration::from_millis(33));
    let other = AnimationFrame { canvas: size(1, 4), ..frame };
    assert_eq!(
        plan.transform_frame(other),
        Err(ResizeError::UnexpectedFrameCanvas { actual: size(1, 4), expected: size(2, 2) })
    );
}

#[test]
fn canvas_sizes_are_counted() {
    assert_eq!(size(3, 5).pixel_count(), Some(15));
    assert_eq!(size(3, 5).rgba_bytes(), Some(60));
    assert_eq!(size(0, 5).rgba_bytes(), Some(0));
    assert_eq!(size(u32::MAX, u32::MAX).pixel_count(), Some(0xffff_fffe_0000_0001));
    assert_eq!(size(u32::MAX, u32::MAX).rgba_bytes(), None);
}

#[test]
fn resize_messages() {
    let cases = [
        (
            ResizeError::InvalidCanvasSize { which: "source", size: size(0, 12) },
            "source canvas has invalid dimensions 0x12",
        ),
        (
            ResizeError::SourceSizeOverflow,
            "source RGBA size overflows the host address space",
        ),
        (
            ResizeError::OutputSizeOverflow,
            "output RGBA size overflows the host address space",
        ),
        (
            ResizeError::OutputTooLarge { actual: 100, maximum: 99 },
            "output is 100 bytes, exceeding the 99-byte limit",
        ),
        (
            ResizeError::InvalidSourceBufferLength { actual: 1, expected: 4 },
            "source buffer is 1 bytes; expected 4",
        ),
        (
            ResizeError::UnexpectedFrameCanvas { actual: size(1, 2), expected: size(30, 40) },
            "frame canvas 1x2 does not match plan source 30x40",
        ),
        (ResizeError::ImageResize("odd".to_string()), "RGBA resize failed: odd"),
    ];
    for (error, expected) in cases {
        assert_eq!(error.message(), expected);
    }
}
