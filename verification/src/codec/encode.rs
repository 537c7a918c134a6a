//! Sequential encoding of full-canvas RGBA frames.
//!
//! The native codec compresses and muxes. The functions here decide what is
//! handed to it and what is made of its replies, which reach them as plain
//! values.

use vstd::prelude::*;

use crate::codec::quality::Quality;
use crate::model::{
    AnimationFrame, AnimationInfo, BackgroundColor, CanvasSize, LoopCount,
};
use crate::text::{self, push_decimal, push_duration, push_optional, push_signed};
use crate::time::{self, Duration, NANOS_PER_MILLI};

verus! {

/// Compression and animation metadata for an [`AnimationEncoder`].
#[derive(Clone, Copy, Debug, PartialEq)]
pub struct AnimationEncoderOptions {
    /// Loop policy written to the output animation.
    pub loop_count: LoopCount,
    /// Raw ANIM background color written to the output animation.
    pub background_color: BackgroundColor,
    /// Explicit overrides for libwebp's per-frame encoding configuration.
    /// Unspecified fields retain libwebp's initialized defaults.
    pub config: EncoderConfigOverrides,
    /// Explicit overrides for libwebp's animation-mux configuration.
    /// Unspecified fields retain libwebp's initialized defaults.
    pub animation: AnimationMuxOverrides,
}

/// Optional per-frame configuration passed to libwebp.
///
/// Applications should choose their product policy explicitly. `None` means to
/// retain the corresponding value that libwebp initializes.
#[derive(Clone, Copy, Debug, PartialEq)]
pub struct EncoderConfigOverrides {
    /// Lossy quality in libwebp's inclusive `0.0..=100.0` range.
    pub quality: Option<Quality>,
    /// Encode frames losslessly when `Some(true)` or lossy when `Some(false)`.
    pub lossless: Option<bool>,
    /// libwebp encoding method in the inclusive `0..=6` range.
    pub method: Option<u8>,
    /// Use libwebp's high-quality (and slower) RGB-to-YUV conversion.
    pub use_sharp_yuv: Option<bool>,
    /// Let libwebp select the in-loop filter strength per frame.
    pub autofilter: Option<bool>,
    /// Alpha compression quality in the inclusive `0..=100` range.
    pub alpha_quality: Option<u8>,
    /// libwebp preprocessing mode (`0` disables it). Mode 2 introduces
    /// dithering, which can create temporal noise in animation.
    pub preprocessing: Option<u8>,
    /// Ask libwebp to use its internal encoder threading when available.
    pub thread_level: Option<bool>,
    /// Fixed in-loop filtering settings.
    pub filter_strength: Option<i32>,
    /// Fixed in-loop filter sharpness in libwebp's `0..=7` range.
    pub filter_sharpness: Option<i32>,
    /// In-loop filter type in libwebp's `0..=1` range.
    pub filter_type: Option<i32>,
}

/// Optional animation-mux configuration passed to libwebp.
///
/// `kmin` and `kmax` form one setting: provide both to choose a key-frame
/// policy, or neither to retain libwebp's initialized behavior. The canonical
/// `(0, 0)` disables inserted key frames and `(0, 1)` makes every frame a key
/// frame. For `kmax >= 2`, libwebp requires `kmin < kmax`,
/// `kmin >= kmax / 2 + 1`, and a range no wider than 30 frames.
#[derive(Clone, Copy, Debug, PartialEq, Eq, Structural)]
pub struct AnimationMuxOverrides {
    /// Let libwebp favor a smaller animation over encoding speed.
    pub minimize_size: Option<bool>,
    /// Allow libwebp to choose lossless or lossy encoding for each frame.
    pub allow_mixed: Option<bool>,
    /// Minimum and maximum distance between animation key frames.
    pub kmin: Option<i32>,
    /// Maximum distance between animation key frames.
    pub kmax: Option<i32>,
}

/// Per-frame configuration with no field overridden.
pub open spec fn no_config_overrides() -> EncoderConfigOverrides {
    EncoderConfigOverrides {
        quality: None,
        lossless: None,
        method: None,
        use_sharp_yuv: None,
        autofilter: None,
        alpha_quality: None,
        preprocessing: None,
        thread_level: None,
        filter_strength: None,
        filter_sharpness: None,
        filter_type: None,
    }
}

/// Animation-mux configuration with no field overridden.
pub open spec fn no_mux_overrides() -> AnimationMuxOverrides {
    AnimationMuxOverrides { minimize_size: None, allow_mixed: None, kmin: None, kmax: None }
}

impl Default for EncoderConfigOverrides {
    fn default() -> (overrides: Self)
        ensures
            overrides == no_config_overrides(),
    {
        EncoderConfigOverrides {
            quality: None,
            lossless: None,
            method: None,
            use_sharp_yuv: None,
            autofilter: None,
            alpha_quality: None,
            preprocessing: None,
            thread_level: None,
            filter_strength: None,
            filter_sharpness: None,
            filter_type: None,
        }
    }
}

impl Default for AnimationMuxOverrides {
    fn default() -> (overrides: Self)
        ensures
            overrides == no_mux_overrides(),
    {
        AnimationMuxOverrides { minimize_size: None, allow_mixed: None, kmin: None, kmax: None }
    }
}

impl AnimationEncoderOptions {
    /// Creates options with explicit animation metadata and no encoding overrides.
    pub fn new(loop_count: LoopCount, background_color: BackgroundColor) -> (options: Self)
        ensures
            options == (AnimationEncoderOptions {
                loop_count,
                background_color,
                config: no_config_overrides(),
                animation: no_mux_overrides(),
            }),
    {
        AnimationEncoderOptions {
            loop_count,
            background_color,
            config: EncoderConfigOverrides::default(),
            animation: AnimationMuxOverrides::default(),
        }
    }

    /// Starts with animation metadata copied from a decoded source sequence.
    pub fn from_animation_info(info: AnimationInfo) -> (options: Self)
        ensures
            options == (AnimationEncoderOptions {
                loop_count: info.loop_count,
                background_color: info.background_color,
                config: no_config_overrides(),
                animation: no_mux_overrides(),
            }),
    {
        Self::new(info.loop_count, info.background_color)
    }
}

impl Default for AnimationEncoderOptions {
    /// The metadata that libwebp initializes: endless repetition on a white,
    /// opaque background. No compression or key-frame policy is selected.
    fn default() -> (options: Self)
        ensures
            options == (AnimationEncoderOptions {
                loop_count: LoopCount::Infinite,
                background_color: BackgroundColor { raw: 0xffff_ffff },
                config: no_config_overrides(),
                animation: no_mux_overrides(),
            }),
    {
        Self::new(LoopCount::Infinite, BackgroundColor { raw: 0xffff_ffff })
    }
}

/// Failure to create or use an [`AnimationEncoder`].
#[derive(Clone, Debug, PartialEq)]
pub enum EncodeError {
    /// The encoder canvas has a zero dimension or cannot be represented by libwebp.
    InvalidCanvasSize(CanvasSize),
    /// libwebp could not initialize its encoding configuration.
    ConfigInitialization,
    /// The lossy quality override is outside `0.0..=100.0` or is not finite.
    InvalidQuality {
        /// Rejected quality value.
        value: Quality,
    },
    /// The encoding method is outside libwebp's `0..=6` range.
    InvalidMethod {
        /// Rejected method value.
        value: u8,
    },
    /// The alpha quality is outside libwebp's `0..=100` range.
    InvalidAlphaQuality {
        /// Rejected alpha quality value.
        value: u8,
    },
    /// The preprocessing mode is outside libwebp's `0..=2` range.
    InvalidPreprocessing {
        /// Rejected preprocessing mode.
        value: u8,
    },
    /// The filter strength is outside libwebp's `0..=100` range.
    InvalidFilterStrength {
        /// Rejected filter strength.
        value: i32,
    },
    /// The filter sharpness is outside libwebp's `0..=7` range.
    InvalidFilterSharpness {
        /// Rejected filter sharpness.
        value: i32,
    },
    /// The filter type is outside libwebp's `0..=1` range.
    InvalidFilterType {
        /// Rejected filter type.
        value: i32,
    },
    /// Only one of `kmin` and `kmax` was supplied.
    IncompleteKeyframeInterval {
        /// Supplied minimum key-frame interval.
        kmin: Option<i32>,
        /// Supplied maximum key-frame interval.
        kmax: Option<i32>,
    },
    /// `kmin` is negative or is not smaller than `kmax`.
    InvalidKeyframeInterval {
        /// Supplied minimum key-frame interval.
        kmin: i32,
        /// Supplied maximum key-frame interval.
        kmax: i32,
    },
    /// A special key-frame mode was not expressed as `(0, 0)` or `(0, 1)`.
    NonCanonicalKeyframeMode {
        /// Supplied minimum key-frame interval.
        kmin: i32,
        /// Supplied maximum key-frame interval.
        kmax: i32,
    },
    /// `kmin` is below libwebp's required minimum for the selected `kmax`.
    KeyframeIntervalBelowMinimum {
        /// Supplied minimum key-frame interval.
        kmin: i32,
        /// Required minimum key-frame interval.
        minimum: i32,
        /// Supplied maximum key-frame interval.
        kmax: i32,
    },
    /// The key-frame interval is wider than libwebp permits.
    KeyframeIntervalTooWide {
        /// Supplied minimum key-frame interval.
        kmin: i32,
        /// Supplied maximum key-frame interval.
        kmax: i32,
        /// Maximum permitted `kmax - kmin` span.
        maximum_span: i32,
    },
    /// Key-frame intervals cannot be combined with `minimize_size = Some(true)`.
    KeyframeIntervalIgnoredByMinimizeSize,
    /// libwebp rejected an otherwise locally valid configuration.
    LibwebpConfigRejected,
    /// libwebp could not initialize animation encoder options.
    EncoderOptionsInitialization,
    /// libwebp could not create the animation encoder.
    EncoderCreation,
    /// [`AnimationEncoder::finish`] was called before adding a frame.
    NoFrames,
    /// A frame canvas differs from the encoder canvas.
    UnexpectedFrameCanvas {
        /// Canvas supplied by the caller.
        actual: CanvasSize,
        /// Canvas required by the encoder.
        expected: CanvasSize,
    },
    /// A frame buffer is not tightly packed RGBA8 for the encoder canvas.
    InvalidFrameBufferLength {
        /// Actual frame buffer size in bytes.
        actual: usize,
        /// Required frame buffer size in bytes.
        expected: usize,
    },
    /// A frame duration is not an exact whole number of milliseconds.
    NonMillisecondDuration(Duration),
    /// Cumulative frame duration exceeds libwebp's timestamp range.
    TimestampOverflow,
    /// The number of added frames exceeds `u32`.
    FrameCountOverflow,
    /// libwebp could not initialize a frame picture.
    PictureInitialization,
    /// libwebp could not import RGBA pixels into a frame picture.
    PictureImport,
    /// libwebp reported an encoding error message.
    Libwebp(String),
}

impl EncodeError {
    /// The message that [`Self::message`] gives, with `quality` as the decimal
    /// text of a rejected quality.
    pub open spec fn text(self, quality: Seq<char>) -> Seq<char> {
        match self {
            EncodeError::InvalidCanvasSize(size) => "canvas has invalid dimensions "@
                + text::decimal(size.width as nat) + "x"@ + text::decimal(size.height as nat),
            EncodeError::ConfigInitialization => "failed to initialize WebP encoder configuration"@,
            EncodeError::InvalidQuality { .. } => "quality "@ + quality
                + " is outside libwebp's 0.0..=100.0 range"@,
            EncodeError::InvalidMethod { value } => "method "@ + text::decimal(value as nat)
                + " is outside libwebp's 0..=6 range"@,
            EncodeError::InvalidAlphaQuality { value } => "alpha quality "@
                + text::decimal(value as nat) + " is outside libwebp's 0..=100 range"@,
            EncodeError::InvalidPreprocessing { value } => "preprocessing mode "@
                + text::decimal(value as nat) + " is outside libwebp's 0..=2 range"@,
            EncodeError::InvalidFilterStrength { value } => "filter strength "@
                + text::signed_decimal(value as int) + " is outside libwebp's 0..=100 range"@,
            EncodeError::InvalidFilterSharpness { value } => "filter sharpness "@
                + text::signed_decimal(value as int) + " is outside libwebp's 0..=7 range"@,
            EncodeError::InvalidFilterType { value } => "filter type "@
                + text::signed_decimal(value as int) + " is outside libwebp's 0..=1 range"@,
            EncodeError::IncompleteKeyframeInterval { kmin, kmax } =>
                "key-frame interval requires both kmin and kmax (got kmin="@
                + text::optional_decimal(kmin) + ", kmax="@ + text::optional_decimal(kmax) + ")"@,
            EncodeError::InvalidKeyframeInterval { kmin, kmax } =>
                "key-frame interval requires 0 <= kmin < kmax (got kmin="@
                + text::signed_decimal(kmin as int) + ", kmax="@
                + text::signed_decimal(kmax as int) + ")"@,
            EncodeError::NonCanonicalKeyframeMode { kmin, kmax } =>
                "key-frame special modes must use (kmin, kmax) = (0, 0) to disable insertion or (0, 1) for every frame (got "@
                + text::signed_decimal(kmin as int) + ", "@ + text::signed_decimal(kmax as int)
                + ")"@,
            EncodeError::KeyframeIntervalBelowMinimum { kmin, minimum, kmax } =>
                "key-frame interval requires kmin >= kmax / 2 + 1; got kmin="@
                + text::signed_decimal(kmin as int) + ", kmax="@
                + text::signed_decimal(kmax as int) + ", minimum="@
                + text::signed_decimal(minimum as int),
            EncodeError::KeyframeIntervalTooWide { kmin, kmax, maximum_span } =>
                "key-frame interval span kmax - kmin must not exceed "@
                + text::signed_decimal(maximum_span as int) + "; got kmin="@
                + text::signed_decimal(kmin as int) + ", kmax="@
                + text::signed_decimal(kmax as int),
            EncodeError::KeyframeIntervalIgnoredByMinimizeSize
            => "key-frame interval cannot be set when minimize_size is enabled because libwebp disables key-frame insertion"@,
            EncodeError::LibwebpConfigRejected
            => "libwebp rejected the validated encoder configuration"@,
            EncodeError::EncoderOptionsInitialization
            => "failed to initialize WebP animation encoder options"@,
            EncodeError::EncoderCreation => "failed to create WebP animation encoder"@,
            EncodeError::NoFrames => "an animated WebP requires at least one frame"@,
            EncodeError::UnexpectedFrameCanvas { actual, expected } => "frame canvas "@
                + text::decimal(actual.width as nat) + "x"@ + text::decimal(actual.height as nat)
                + " does not match encoder canvas "@ + text::decimal(expected.width as nat) + "x"@
                + text::decimal(expected.height as nat),
            EncodeError::InvalidFrameBufferLength { actual, expected } => "frame buffer is "@
                + text::decimal(actual as nat) + " bytes; expected "@
                + text::decimal(expected as nat),
            EncodeError::NonMillisecondDuration(duration) => "frame duration "@
                + text::duration_text(duration@) + " is not an exact number of milliseconds"@,
            EncodeError::TimestampOverflow
            => "cumulative frame duration exceeds libwebp's timestamp range"@,
            EncodeError::FrameCountOverflow => "animation frame count overflows u32"@,
            EncodeError::PictureInitialization => "failed to initialize a WebP frame picture"@,
            EncodeError::PictureImport => "failed to import RGBA frame pixels into libwebp"@,
            EncodeError::Libwebp(error) => "libwebp animation encoding failed: "@ + error@,
        }
    }

    /// Describes the failure in a sentence fragment.
    ///
    /// `quality` is the decimal text of a rejected quality; it is read only for
    /// that failure.
    pub fn message(&self, quality: &str) -> (message: String)
        ensures
            message@ == self.text(quality@),
    {
        match self {
            EncodeError::InvalidCanvasSize(size) => {
                let mut out = String::from_str("canvas has invalid dimensions ");
                push_decimal(&mut out, size.width as u64);
                out.append("x");
                push_decimal(&mut out, size.height as u64);
                out
            },
            EncodeError::ConfigInitialization => String::from_str(
                "failed to initialize WebP encoder configuration",
            ),
            EncodeError::InvalidQuality { .. } => {
                let mut out = String::from_str("quality ");
                out.append(quality);
                out.append(" is outside libwebp's 0.0..=100.0 range");
                out
            },
            EncodeError::InvalidMethod { value } => {
                let mut out = String::from_str("method ");
                push_decimal(&mut out, *value as u64);
                out.append(" is outside libwebp's 0..=6 range");
                out
            },
            EncodeError::InvalidAlphaQuality { value } => {
                let mut out = String::from_str("alpha quality ");
                push_decimal(&mut out, *value as u64);
                out.append(" is outside libwebp's 0..=100 range");
                out
            },
            EncodeError::InvalidPreprocessing { value } => {
                let mut out = String::from_str("preprocessing mode ");
                push_decimal(&mut out, *value as u64);
                out.append(" is outside libwebp's 0..=2 range");
                out
            },
            EncodeError::InvalidFilterStrength { value } => {
                let mut out = String::from_str("filter strength ");
                push_signed(&mut out, *value);
                out.append(" is outside libwebp's 0..=100 range");
                out
            },
            EncodeError::InvalidFilterSharpness { value } => {
                let mut out = String::from_str("filter sharpness ");
                push_signed(&mut out, *value);
                out.append(" is outside libwebp's 0..=7 range");
                out
            },
            EncodeError::InvalidFilterType { value } => {
                let mut out = String::from_str("filter type ");
                push_signed(&mut out, *value);
                out.append(" is outside libwebp's 0..=1 range");
                out
            },
            EncodeError::IncompleteKeyframeInterval { kmin, kmax } => {
                let mut out = String::from_str(
                    "key-frame interval requires both kmin and kmax (got kmin=",
                );
                push_optional(&mut out, *kmin);
                out.append(", kmax=");
                push_optional(&mut out, *kmax);
                out.append(")");
                out
            },
            EncodeError::InvalidKeyframeInterval { kmin, kmax } => {
                let mut out = String::from_str(
                    "key-frame interval requires 0 <= kmin < kmax (got kmin=",
                );
                push_signed(&mut out, *kmin);
                out.append(", kmax=");
                push_signed(&mut out, *kmax);
                out.append(")");
                out
            },
            EncodeError::NonCanonicalKeyframeMode { kmin, kmax } => {
                let mut out = String::from_str(
                    "key-frame special modes must use (kmin, kmax) = (0, 0) to disable insertion or (0, 1) for every frame (got ",
                );
                push_signed(&mut out, *kmin);
                out.append(", ");
                push_signed(&mut out, *kmax);
                out.append(")");
                out
            },
            EncodeError::KeyframeIntervalBelowMinimum { kmin, minimum, kmax } => {
                let mut out = String::from_str(
                    "key-frame interval requires kmin >= kmax / 2 + 1; got kmin=",
                );
                push_signed(&mut out, *kmin);
                out.append(", kmax=");
                push_signed(&mut out, *kmax);
                out.append(", minimum=");
                push_signed(&mut out, *minimum);
                out
            },
            EncodeError::KeyframeIntervalTooWide { kmin, kmax, maximum_span } => {
                let mut out = String::from_str(
                    "key-frame interval span kmax - kmin must not exceed ",
                );
                push_signed(&mut out, *maximum_span);
                out.append("; got kmin=");
                push_signed(&mut out, *kmin);
                out.append(", kmax=");
                push_signed(&mut out, *kmax);
                out
            },
            EncodeError::KeyframeIntervalIgnoredByMinimizeSize => String::from_str(
                "key-frame interval cannot be set when minimize_size is enabled because libwebp disables key-frame insertion",
            ),
            EncodeError::LibwebpConfigRejected => String::from_str(
                "libwebp rejected the validated encoder configuration",
            ),
            EncodeError::EncoderOptionsInitialization => String::from_str(
                "failed to initialize WebP animation encoder options",
            ),
            EncodeError::EncoderCreation => String::from_str(
                "failed to create WebP animation encoder",
            ),
            EncodeError::NoFrames => String::from_str(
                "an animated WebP requires at least one frame",
            ),
            EncodeError::UnexpectedFrameCanvas { actual, expected } => {
                let mut out = String::from_str("frame canvas ");
                push_decimal(&mut out, actual.width as u64);
                out.append("x");
                push_decimal(&mut out, actual.height as u64);
                out.append(" does not match encoder canvas ");
                push_decimal(&mut out, expected.width as u64);
                out.append("x");
                push_decimal(&mut out, expected.height as u64);
                out
            },
            EncodeError::InvalidFrameBufferLength { actual, expected } => {
                let mut out = String::from_str("frame buffer is ");
                push_decimal(&mut out, *actual as u64);
                out.append(" bytes; expected ");
                push_decimal(&mut out, *expected as u64);
                out
            },
            EncodeError::NonMillisecondDuration(duration) => {
                let mut out = String::from_str("frame duration ");
                push_duration(&mut out, *duration);
                out.append(" is not an exact number of milliseconds");
                out
            },
            EncodeError::TimestampOverflow => String::from_str(
                "cumulative frame duration exceeds libwebp's timestamp range",
            ),
            EncodeError::FrameCountOverflow => String::from_str(
                "animation frame count overflows u32",
            ),
            EncodeError::PictureInitialization => String::from_str(
                "failed to initialize a WebP frame picture",
            ),
            EncodeError::PictureImport => String::from_str(
                "failed to import RGBA frame pixels into libwebp",
            ),
            EncodeError::Libwebp(error) => {
                let mut out = String::from_str("libwebp animation encoding failed: ");
                out.append(error.as_str());
                out
            },
        }
    }
}

/// The reason to refuse a key-frame interval, if there is one.
pub open spec fn keyframe_fault(animation: AnimationMuxOverrides) -> Option<EncodeError> {
    match (animation.kmin, animation.kmax) {
        (None, None) => None,
        (Some(kmin), Some(kmax)) => if animation.minimize_size == Some(true) {
            Some(EncodeError::KeyframeIntervalIgnoredByMinimizeSize)
        } else if kmin == 0 && (kmax == 0 || kmax == 1) {
            None
        } else if kmax <= 1 {
            Some(EncodeError::NonCanonicalKeyframeMode { kmin, kmax })
        } else if kmin < 0 || kmin >= kmax {
            Some(EncodeError::InvalidKeyframeInterval { kmin, kmax })
        } else if kmin < kmax / 2 + 1 {
            Some(
                EncodeError::KeyframeIntervalBelowMinimum {
                    kmin,
                    minimum: (kmax / 2 + 1) as i32,
                    kmax,
                },
            )
        } else if kmax - kmin > 30 {
            Some(EncodeError::KeyframeIntervalTooWide { kmin, kmax, maximum_span: 30 })
        } else {
            None
        },
        (kmin, kmax) => Some(EncodeError::IncompleteKeyframeInterval { kmin, kmax }),
    }
}

/// The reason to refuse per-frame overrides, if there is one: that of the
/// first field outside its range.
pub open spec fn config_fault(config: EncoderConfigOverrides) -> Option<EncodeError> {
    if config.quality matches Some(value) && !value.in_range() {
        Some(EncodeError::InvalidQuality { value: config.quality->Some_0 })
    } else if config.method matches Some(value) && value > 6 {
        Some(EncodeError::InvalidMethod { value: config.method->Some_0 })
    } else if config.alpha_quality matches Some(value) && value > 100 {
        Some(EncodeError::InvalidAlphaQuality { value: config.alpha_quality->Some_0 })
    } else if config.preprocessing matches Some(value) && value > 2 {
        Some(EncodeError::InvalidPreprocessing { value: config.preprocessing->Some_0 })
    } else if config.filter_strength matches Some(value) && !(0 <= value <= 100) {
        Some(EncodeError::InvalidFilterStrength { value: config.filter_strength->Some_0 })
    } else if config.filter_sharpness matches Some(value) && !(0 <= value <= 7) {
        Some(EncodeError::InvalidFilterSharpness { value: config.filter_sharpness->Some_0 })
    } else if config.filter_type matches Some(value) && !(0 <= value <= 1) {
        Some(EncodeError::InvalidFilterType { value: config.filter_type->Some_0 })
    } else {
        None
    }
}

/// The reason to refuse encoder options, if there is one.
pub open spec fn options_fault(options: AnimationEncoderOptions) -> Option<EncodeError> {
    match config_fault(options.config) {
        Some(error) => Some(error),
        None => keyframe_fault(options.animation),
    }
}

/// Checks encoder options against the ranges that libwebp documents.
pub fn validate_options(options: &AnimationEncoderOptions) -> (result: Result<(), EncodeError>)
    ensures
        match options_fault(*options) {
            Some(error) => result == Err::<(), EncodeError>(error),
            None => result is Ok,
        },
{
    let config = options.config;
    if let Some(value) = config.quality {
        if !value.is_valid() {
            return Err(EncodeError::InvalidQuality { value });
        }
    }
    if let Some(value) = config.method {
        if value > 6 {
            return Err(EncodeError::InvalidMethod { value });
        }
    }
    if let Some(value) = config.alpha_quality {
        if value > 100 {
            return Err(EncodeError::InvalidAlphaQuality { value });
        }
    }
    if let Some(value) = config.preprocessing {
        if value > 2 {
            return Err(EncodeError::InvalidPreprocessing { value });
        }
    }
    if let Some(value) = config.filter_strength {
        if value < 0 || value > 100 {
            return Err(EncodeError::InvalidFilterStrength { value });
        }
    }
    if let Some(value) = config.filter_sharpness {
        if value < 0 || value > 7 {
            return Err(EncodeError::InvalidFilterSharpness { value });
        }
    }
    if let Some(value) = config.filter_type {
        if value < 0 || value > 1 {
            return Err(EncodeError::InvalidFilterType { value });
        }
    }
    let animation = options.animation;
    let minimizes_size: bool = match animation.minimize_size {
        Some(minimize_size) => minimize_size,
        None => false,
    };
    match (animation.kmin, animation.kmax) {
        (None, None) => Ok(()),
        (Some(kmin), Some(kmax)) => {
            if minimizes_size {
                Err(EncodeError::KeyframeIntervalIgnoredByMinimizeSize)
            } else if kmin == 0 && (kmax == 0 || kmax == 1) {
                Ok(())
            } else if kmax <= 1 {
                Err(EncodeError::NonCanonicalKeyframeMode { kmin, kmax })
            } else if kmin < 0 || kmin >= kmax {
                Err(EncodeError::InvalidKeyframeInterval { kmin, kmax })
            } else {
                let minimum: i32 = kmax / 2 + 1;
                if kmin < minimum {
                    Err(EncodeError::KeyframeIntervalBelowMinimum { kmin, minimum, kmax })
                } else if kmax - kmin > 30 {
                    Err(EncodeError::KeyframeIntervalTooWide { kmin, kmax, maximum_span: 30 })
                } else {
                    Ok(())
                }
            }
        },
        (kmin, kmax) => Err(EncodeError::IncompleteKeyframeInterval { kmin, kmax }),
    }
}

/// Per-frame configuration values that can be overridden, as libwebp takes
/// them.
#[derive(Clone, Copy, Debug, PartialEq)]
pub struct EncoderConfig {
    /// Lossy quality.
    pub quality: Quality,
    /// Lossless encoding, zero or one.
    pub lossless: i32,
    /// Encoding method.
    pub method: i32,
    /// Sharp RGB-to-YUV conversion, zero or one.
    pub use_sharp_yuv: i32,
    /// Automatic filter strength, zero or one.
    pub autofilter: i32,
    /// Alpha compression quality.
    pub alpha_quality: i32,
    /// Preprocessing mode.
    pub preprocessing: i32,
    /// Internal threading, zero or one.
    pub thread_level: i32,
    /// Filter strength.
    pub filter_strength: i32,
    /// Filter sharpness.
    pub filter_sharpness: i32,
    /// Filter type.
    pub filter_type: i32,
}

/// Animation-mux options that can be set, as libwebp takes them.
#[derive(Clone, Copy, Debug, PartialEq, Eq, Structural)]
pub struct MuxOptions {
    /// Loop count, where zero stands for endless repetition.
    pub loop_count: i32,
    /// Background color of the ANIM chunk.
    pub bgcolor: u32,
    /// Smaller output over encoding speed, zero or one.
    pub minimize_size: i32,
    /// Per-frame choice of lossless or lossy encoding, zero or one.
    pub allow_mixed: i32,
    /// Minimum distance between key frames.
    pub kmin: i32,
    /// Maximum distance between key frames.
    pub kmax: i32,
}

/// A flag as the integer that libwebp takes.
pub open spec fn flag(value: bool) -> i32 {
    if value {
        1
    } else {
        0
    }
}

/// An optional flag as an integer, or the present value without one.
pub open spec fn flag_or(value: Option<bool>, present: i32) -> i32 {
    match value {
        Some(value) => flag(value),
        None => present,
    }
}

/// An optional small number, or the present value without one.
pub open spec fn small_or(value: Option<u8>, present: i32) -> i32 {
    match value {
        Some(value) => value as i32,
        None => present,
    }
}

/// An optional value, or the present one without it.
pub open spec fn value_or<T>(value: Option<T>, present: T) -> T {
    match value {
        Some(value) => value,
        None => present,
    }
}

/// `config` with the overridden fields replaced.
pub open spec fn overridden_config(
    config: EncoderConfig,
    overrides: EncoderConfigOverrides,
) -> EncoderConfig {
    EncoderConfig {
        quality: value_or(overrides.quality, config.quality),
        lossless: flag_or(overrides.lossless, config.lossless),
        method: small_or(overrides.method, config.method),
        use_sharp_yuv: flag_or(overrides.use_sharp_yuv, config.use_sharp_yuv),
        autofilter: flag_or(overrides.autofilter, config.autofilter),
        alpha_quality: small_or(overrides.alpha_quality, config.alpha_quality),
        preprocessing: small_or(overrides.preprocessing, config.preprocessing),
        thread_level: flag_or(overrides.thread_level, config.thread_level),
        filter_strength: value_or(overrides.filter_strength, config.filter_strength),
        filter_sharpness: value_or(overrides.filter_sharpness, config.filter_sharpness),
        filter_type: value_or(overrides.filter_type, config.filter_type),
    }
}

/// `options` with the overridden fields replaced.
pub open spec fn overridden_mux(
    options: MuxOptions,
    overrides: AnimationMuxOverrides,
) -> MuxOptions {
    MuxOptions {
        minimize_size: flag_or(overrides.minimize_size, options.minimize_size),
        allow_mixed: flag_or(overrides.allow_mixed, options.allow_mixed),
        kmin: value_or(overrides.kmin, options.kmin),
        kmax: value_or(overrides.kmax, options.kmax),
        ..options
    }
}

/// A flag as the integer that libwebp takes.
fn flag_value(value: bool) -> (number: i32)
    ensures
        number == flag(value),
{
    if value {
        1
    } else {
        0
    }
}

/// Replaces the overridden fields of a per-frame configuration.
pub fn apply_config_overrides(config: &mut EncoderConfig, overrides: EncoderConfigOverrides)
    ensures
        *final(config) == overridden_config(*old(config), overrides),
{
    if let Some(value) = overrides.quality {
        config.quality = value;
    }
    if let Some(value) = overrides.lossless {
        config.lossless = flag_value(value);
    }
    if let Some(value) = overrides.method {
        config.method = value as i32;
    }
    if let Some(value) = overrides.use_sharp_yuv {
        config.use_sharp_yuv = flag_value(value);
    }
    if let Some(value) = overrides.autofilter {
        config.autofilter = flag_value(value);
    }
    if let Some(value) = overrides.alpha_quality {
        config.alpha_quality = value as i32;
    }
    if let Some(value) = overrides.preprocessing {
        config.preprocessing = value as i32;
    }
    if let Some(value) = overrides.thread_level {
        config.thread_level = flag_value(value);
    }
    if let Some(value) = overrides.filter_strength {
        config.filter_strength = value;
    }
    if let Some(value) = overrides.filter_sharpness {
        config.filter_sharpness = value;
    }
    if let Some(value) = overrides.filter_type {
        config.filter_type = value;
    }
}

/// Replaces the overridden fields of the animation-mux options.
pub fn apply_mux_overrides(options: &mut MuxOptions, overrides: AnimationMuxOverrides)
    ensures
        *final(options) == overridden_mux(*old(options), overrides),
{
    if let Some(value) = overrides.minimize_size {
        options.minimize_size = flag_value(value);
    }
    if let Some(value) = overrides.allow_mixed {
        options.allow_mixed = flag_value(value);
    }
    if let Some(value) = overrides.kmin {
        options.kmin = value;
    }
    if let Some(value) = overrides.kmax {
        options.kmax = value;
    }
}

/// The per-frame configuration that libwebp initializes: lossy at quality 75,
/// method 4, a strong in-loop filter of strength 60, and alpha quality 100.
pub open spec fn initial_config() -> EncoderConfig {
    EncoderConfig {
        quality: Quality { bits: 0x4296_0000 },
        lossless: 0,
        method: 4,
        use_sharp_yuv: 0,
        autofilter: 0,
        alpha_quality: 100,
        preprocessing: 0,
        thread_level: 0,
        filter_strength: 60,
        filter_sharpness: 0,
        filter_type: 1,
    }
}

/// Reads the initialized configuration from [`libwebp_sys::WebPConfig::new`].
///
/// Claimed: initialization succeeds, since the crate is built with the libwebp
/// that it binds, and gives the values of [`initial_config`], the quality as
/// its bit pattern. The fields that cannot be overridden are left out.
#[verifier::external_body]
fn webp_config() -> (initialized: Result<EncoderConfig, ()>)
    ensures
        initialized is Ok,
        initialized->Ok_0 == initial_config(),
{
    libwebp_sys::WebPConfig::new().map(|config| EncoderConfig {
        quality: Quality { bits: config.quality.to_bits() },
        lossless: config.lossless,
        method: config.method,
        use_sharp_yuv: config.use_sharp_yuv,
        autofilter: config.autofilter,
        alpha_quality: config.alpha_quality,
        preprocessing: config.preprocessing,
        thread_level: config.thread_level,
        filter_strength: config.filter_strength,
        filter_sharpness: config.filter_sharpness,
        filter_type: config.filter_type,
    })
}

/// An encoder canvas that libwebp can represent.
pub open spec fn encodable(canvas: CanvasSize) -> bool {
    &&& canvas.non_empty()
    &&& canvas.width <= i32::MAX
    &&& canvas.height <= i32::MAX
    &&& canvas.rgba_len() <= usize::MAX
}

/// The reason to refuse an encoder before libwebp is asked, if there is one.
pub open spec fn setup_fault(canvas: CanvasSize, options: AnimationEncoderOptions) -> Option<
    EncodeError,
> {
    if !encodable(canvas) {
        Some(EncodeError::InvalidCanvasSize(canvas))
    } else {
        options_fault(options)
    }
}

/// An accepted request for an encoder, with what libwebp is to be given.
#[derive(Clone, Copy, Debug, PartialEq)]
pub struct EncoderSetup {
    /// Width for the native encoder.
    pub width: i32,
    /// Height for the native encoder.
    pub height: i32,
    /// Per-frame configuration for the native encoder to validate and use.
    pub config: EncoderConfig,
    /// Loop policy of the output.
    pub loop_count: LoopCount,
    /// Background color of the output.
    pub background_color: BackgroundColor,
    /// Overrides for the animation-mux options.
    pub animation: AnimationMuxOverrides,
}

/// What the native encoder reported while it was opened.
#[derive(Clone, Copy, Debug, PartialEq, Eq, Structural)]
pub struct EncoderReplies {
    /// Non-zero where libwebp accepts the per-frame configuration.
    pub config_accepted: i32,
    /// The initialized mux options, unless initialization failed.
    pub initial_mux: Option<MuxOptions>,
    /// The encoder was created.
    pub created: bool,
}

/// The mux options for an output with the given metadata and overrides.
pub open spec fn configured_mux(
    initial: MuxOptions,
    loop_count: LoopCount,
    background_color: BackgroundColor,
    overrides: AnimationMuxOverrides,
) -> MuxOptions {
    overridden_mux(
        MuxOptions {
            loop_count: loop_count.stored() as i32,
            bgcolor: background_color.raw,
            ..initial
        },
        overrides,
    )
}

/// The setup that an accepted request leads to.
pub open spec fn accepted_setup(
    canvas: CanvasSize,
    options: AnimationEncoderOptions,
) -> EncoderSetup {
    EncoderSetup {
        width: canvas.width as i32,
        height: canvas.height as i32,
        config: overridden_config(initial_config(), options.config),
        loop_count: options.loop_count,
        background_color: options.background_color,
        animation: options.animation,
    }
}

/// The reason not to open an encoder, if there is one, where the native encoder
/// gave `replies`.
pub open spec fn encoder_fault(
    canvas: CanvasSize,
    options: AnimationEncoderOptions,
    replies: EncoderReplies,
) -> Option<EncodeError> {
    match setup_fault(canvas, options) {
        Some(error) => Some(error),
        None => if replies.config_accepted == 0 {
            Some(EncodeError::LibwebpConfigRejected)
        } else if replies.initial_mux is None {
            Some(EncodeError::EncoderOptionsInitialization)
        } else if !replies.created {
            Some(EncodeError::EncoderCreation)
        } else {
            None
        },
    }
}

impl EncoderSetup {
    /// Checks what libwebp says of the per-frame configuration.
    pub fn check_config(&self, config_accepted: i32) -> (result: Result<(), EncodeError>)
        ensures
            result == if config_accepted == 0 {
                Err(EncodeError::LibwebpConfigRejected)
            } else {
                Ok(())
            },
    {
        if config_accepted == 0 {
            return Err(EncodeError::LibwebpConfigRejected);
        }
        Ok(())
    }

    /// Sets the animation metadata and the overrides in the mux options that
    /// libwebp initialized; `None` stands for a failed initialization.
    pub fn mux_options(&self, initial: Option<MuxOptions>) -> (result: Result<
        MuxOptions,
        EncodeError,
    >)
        ensures
            result == match initial {
                Some(initial) => Ok(
                    configured_mux(
                        initial,
                        self.loop_count,
                        self.background_color,
                        self.animation,
                    ),
                ),
                None => Err(EncodeError::EncoderOptionsInitialization),
            },
    {
        let mut options = match initial {
            Some(initial) => initial,
            None => return Err(EncodeError::EncoderOptionsInitialization),
        };
        options.loop_count =
        match self.loop_count {
            LoopCount::Infinite => 0,
            LoopCount::Finite(count) => count.get() as i32,
        };
        options.bgcolor = self.background_color.raw;
        apply_mux_overrides(&mut options, self.animation);
        Ok(options)
    }
}

/// One frame as it is handed to libwebp.
#[derive(Clone, Copy, Debug, PartialEq)]
pub struct FrameSubmission {
    /// Picture width in pixels.
    pub width: i32,
    /// Picture height in pixels.
    pub height: i32,
    /// Bytes from one row of pixels to the next.
    pub stride: i32,
    /// Non-zero to hold the picture as ARGB samples.
    pub use_argb: i32,
    /// Start of the frame in milliseconds.
    pub timestamp_ms: i32,
    /// Configuration that the frame is encoded with.
    pub config: EncoderConfig,
}

/// How a frame that fills `canvas` and starts at `timestamp_ms` is handed to
/// libwebp.
pub open spec fn frame_submission(
    canvas: CanvasSize,
    timestamp_ms: int,
    config: EncoderConfig,
) -> FrameSubmission {
    FrameSubmission {
        width: canvas.width as i32,
        height: canvas.height as i32,
        stride: (4 * canvas.width) as i32,
        use_argb: 1,
        timestamp_ms: timestamp_ms as i32,
        config,
    }
}

/// What became of a frame that was handed to libwebp.
#[derive(Debug)]
pub enum NativeAdd {
    /// The picture could not be initialized.
    PictureInitializationFailed,
    /// The pixels could not be imported into the picture.
    PictureImportFailed,
    /// The encoder rejected the frame, with a message if it had one.
    Rejected(Option<String>),
    /// The encoder took the frame.
    Added,
}

/// The text of an encoder message, or a stand-in where there is none.
pub open spec fn error_text(message: Option<String>) -> Seq<char> {
    match message {
        Some(message) => message@,
        None => "unknown error"@,
    }
}

/// The message of the native encoder, or a stand-in where it has none.
pub fn encoder_error(message: Option<String>) -> (text: String)
    ensures
        text@ == error_text(message),
{
    match message {
        Some(message) => message,
        None => String::from_str("unknown error"),
    }
}

/// A duration as a count of milliseconds that fits the timestamp range.
pub fn duration_to_millis(duration: Duration) -> (result: Result<i32, EncodeError>)
    ensures
        match duration_fault(duration) {
            Some(error) => result == Err::<i32, EncodeError>(error),
            None => result matches Ok(millis) && duration@ == time::millis_to_nanos(millis as int)
                && millis == duration.spec_millis(),
        },
{
    if duration.subsec_nanos() % NANOS_PER_MILLI != 0 {
        return Err(EncodeError::NonMillisecondDuration(duration));
    }
    let milliseconds: u128 = duration.as_millis();
    if milliseconds > i32::MAX as u128 {
        return Err(EncodeError::TimestampOverflow);
    }
    Ok(milliseconds as i32)
}

/// The reason why a duration cannot be a count of milliseconds in the
/// timestamp range, if there is one.
pub open spec fn duration_fault(duration: Duration) -> Option<EncodeError> {
    if duration@ % (NANOS_PER_MILLI as nat) != 0 {
        Some(EncodeError::NonMillisecondDuration(duration))
    } else if duration.spec_millis() > i32::MAX {
        Some(EncodeError::TimestampOverflow)
    } else {
        None
    }
}

/// Sequential animated-WebP encoder for full-canvas RGBA frames.
///
/// [`Self::add_frame`] accepts frames in presentation order. It converts each
/// frame's duration to the cumulative millisecond timestamp required by WebP,
/// then [`Self::finish`] writes the final timestamp needed to retain the last
/// frame's duration.
pub struct AnimationEncoder {
    canvas: CanvasSize,
    config: EncoderConfig,
    next_timestamp_ms: i32,
    frame_count: u32,
}

impl AnimationEncoder {
    #[verifier::type_invariant]
    spec fn ready(self) -> bool {
        encodable(self.canvas) && self.next_timestamp_ms >= 0
    }

    /// The canvas of every frame.
    pub closed spec fn spec_canvas(self) -> CanvasSize {
        self.canvas
    }

    /// The per-frame configuration of the native encoder.
    pub closed spec fn spec_config(self) -> EncoderConfig {
        self.config
    }

    /// Start of the next frame, in milliseconds.
    pub closed spec fn position_ms(self) -> int {
        self.next_timestamp_ms as int
    }

    /// The number of frames accepted so far.
    pub closed spec fn spec_frame_count(self) -> u32 {
        self.frame_count
    }

    /// The reason to refuse a frame before libwebp sees it, if there is one.
    pub open spec fn frame_fault(self, length: nat, duration: Duration) -> Option<EncodeError> {
        if length != self.spec_canvas().rgba_len() {
            Some(
                EncodeError::InvalidFrameBufferLength {
                    actual: length as usize,
                    expected: self.spec_canvas().rgba_len() as usize,
                },
            )
        } else if duration_fault(duration) is Some {
            duration_fault(duration)
        } else if self.position_ms() + duration.spec_millis() > i32::MAX {
            Some(EncodeError::TimestampOverflow)
        } else if 4 * self.spec_canvas().width > i32::MAX {
            Some(EncodeError::InvalidCanvasSize(self.spec_canvas()))
        } else {
            None
        }
    }

    /// How the next frame is handed to libwebp.
    pub open spec fn submission(self) -> FrameSubmission {
        frame_submission(self.spec_canvas(), self.position_ms(), self.spec_config())
    }

    /// The encoder is `after` once it has taken a frame of the given duration, a
    /// whole number of milliseconds: the next frame starts where this one ends.
    pub open spec fn appends(self, duration: Duration, after: Self) -> bool {
        &&& duration_fault(duration) is None
        &&& after.spec_canvas() == self.spec_canvas()
        &&& after.spec_config() == self.spec_config()
        &&& after.position_ms() == self.position_ms() + duration.spec_millis()
        &&& after.spec_frame_count() == self.spec_frame_count() + 1
    }

    /// How a frame is answered, where `fault` is the reason to refuse it, if
    /// there is one, and `reply` is what became of it in libwebp: with `result`,
    /// and the encoder is `after`.
    pub open spec fn answers(
        self,
        fault: Option<EncodeError>,
        duration: Duration,
        reply: NativeAdd,
        result: Result<(), EncodeError>,
        after: Self,
    ) -> bool {
        match (fault, reply) {
            (Some(error), _) => result == Err::<(), EncodeError>(error) && after == self,
            (None, NativeAdd::PictureInitializationFailed) => {
                &&& result == Err::<(), EncodeError>(EncodeError::PictureInitialization)
                &&& after == self
            },
            (None, NativeAdd::PictureImportFailed) => {
                &&& result == Err::<(), EncodeError>(EncodeError::PictureImport)
                &&& after == self
            },
            (None, NativeAdd::Rejected(message)) => {
                &&& result matches Err(EncodeError::Libwebp(text)) && text@ == error_text(message)
                &&& after == self
            },
            (None, NativeAdd::Added) => if self.spec_frame_count() < u32::MAX {
                result is Ok && self.appends(duration, after)
            } else {
                &&& result == Err::<(), EncodeError>(EncodeError::FrameCountOverflow)
                &&& after.spec_canvas() == self.spec_canvas()
                &&& after.spec_config() == self.spec_config()
                &&& after.position_ms() == self.position_ms() + duration.spec_millis()
                &&& after.spec_frame_count() == self.spec_frame_count()
            },
        }
    }

    /// Checks a request for an encoder and settles what libwebp is given.
    pub fn setup(canvas: CanvasSize, options: AnimationEncoderOptions) -> (result: Result<
        EncoderSetup,
        EncodeError,
    >)
        ensures
            match setup_fault(canvas, options) {
                Some(error) => result == Err::<EncoderSetup, EncodeError>(error),
                None => result == Ok::<EncoderSetup, EncodeError>(
                    accepted_setup(canvas, options),
                ),
            },
    {
        if canvas.width > i32::MAX as u32 || canvas.height > i32::MAX as u32 || canvas.width == 0
            || canvas.height == 0 || canvas.rgba_bytes().is_none() {
            return Err(EncodeError::InvalidCanvasSize(canvas));
        }
        if let Err(error) = validate_options(&options) {
            return Err(error);
        }
        let mut config = match webp_config() {
            Ok(config) => config,
            Err(_) => return Err(EncodeError::ConfigInitialization),
        };
        apply_config_overrides(&mut config, options.config);
        Ok(
            EncoderSetup {
                width: canvas.width as i32,
                height: canvas.height as i32,
                config,
                loop_count: options.loop_count,
                background_color: options.background_color,
                animation: options.animation,
            },
        )
    }

    /// Creates an encoder for full-canvas RGBA frames of the given dimensions,
    /// where the native encoder gave `replies` when it was opened with what
    /// [`Self::setup`] and [`EncoderSetup::mux_options`] settle.
    ///
    /// Frames must be added in presentation order and must use exactly
    /// `canvas.width * canvas.height * 4` bytes. At least one frame is required
    /// before [`Self::finish`] can produce output.
    pub fn new(
        canvas: CanvasSize,
        options: AnimationEncoderOptions,
        replies: EncoderReplies,
    ) -> (result: Result<Self, EncodeError>)
        ensures
            match encoder_fault(canvas, options, replies) {
                Some(error) => result == Err::<Self, EncodeError>(error),
                None => result matches Ok(encoder) && {
                    &&& encoder.spec_canvas() == canvas
                    &&& encoder.spec_config() == accepted_setup(canvas, options).config
                    &&& encoder.position_ms() == 0
                    &&& encoder.spec_frame_count() == 0
                },
            },
    {
        let setup = match Self::setup(canvas, options) {
            Ok(setup) => setup,
            Err(error) => return Err(error),
        };
        if let Err(error) = setup.check_config(replies.config_accepted) {
            return Err(error);
        }
        if let Err(error) = setup.mux_options(replies.initial_mux) {
            return Err(error);
        }
        if !replies.created {
            return Err(EncodeError::EncoderCreation);
        }
        Ok(AnimationEncoder { canvas, config: setup.config, next_timestamp_ms: 0, frame_count: 0 })
    }

    /// Returns the canvas dimensions required by every frame.
    pub fn canvas(&self) -> (canvas: CanvasSize)
        ensures
            canvas == self.spec_canvas(),
            encodable(canvas),
    {
        proof {
            use_type_invariant(self);
        }
        self.canvas
    }

    /// Returns the per-frame configuration of the native encoder.
    pub fn config(&self) -> (config: EncoderConfig)
        ensures
            config == self.spec_config(),
    {
        self.config
    }

    /// Returns the number of frames accepted so far.
    pub fn frame_count(&self) -> (count: u32)
        ensures
            count == self.spec_frame_count(),
    {
        self.frame_count
    }

    /// Checks a full-canvas RGBA frame and settles how libwebp is given it.
    pub fn submit_rgba(&self, rgba: &[u8], duration: Duration) -> (result: Result<
        FrameSubmission,
        EncodeError,
    >)
        ensures
            match self.frame_fault(rgba@.len(), duration) {
                Some(error) => result == Err::<FrameSubmission, EncodeError>(error),
                None => result == Ok::<FrameSubmission, EncodeError>(self.submission()),
            },
    {
        proof {
            use_type_invariant(self);
        }
        let expected: usize = match self.canvas.rgba_bytes() {
            Some(bytes) => bytes,
            None => return Err(EncodeError::InvalidCanvasSize(self.canvas)),
        };
        if rgba.len() != expected {
            return Err(
                EncodeError::InvalidFrameBufferLength { actual: rgba.len(), expected },
            );
        }
        let duration_ms: i32 = match duration_to_millis(duration) {
            Ok(duration_ms) => duration_ms,
            Err(error) => return Err(error),
        };
        if self.next_timestamp_ms.checked_add(duration_ms).is_none() {
            return Err(EncodeError::TimestampOverflow);
        }
        let width: i32 = self.canvas.width as i32;
        let stride: i32 = match width.checked_mul(4) {
            Some(stride) => stride,
            None => return Err(EncodeError::InvalidCanvasSize(self.canvas)),
        };
        Ok(
            FrameSubmission {
                width,
                height: self.canvas.height as i32,
                stride,
                use_argb: 1,
                timestamp_ms: self.next_timestamp_ms,
                config: self.config,
            },
        )
    }

    /// Adds one full-canvas RGBA frame, where libwebp answered with `reply` to
    /// what [`Self::submit_rgba`] settles.
    ///
    /// A refused or rejected frame leaves the encoder unchanged. Where the frame
    /// was taken but the count of frames cannot grow any more, the timestamp
    /// still advances.
    pub fn add_rgba(
        &mut self,
        rgba: &[u8],
        duration: Duration,
        reply: NativeAdd,
    ) -> (result: Result<(), EncodeError>)
        ensures
            old(self).answers(
                old(self).frame_fault(rgba@.len(), duration),
                duration,
                reply,
                result,
                *final(self),
            ),
    {
        proof {
            use_type_invariant(&*self);
        }
        let submission = match self.submit_rgba(rgba, duration) {
            Ok(submission) => submission,
            Err(error) => return Err(error),
        };
        match reply {
            NativeAdd::PictureInitializationFailed => {
                return Err(EncodeError::PictureInitialization);
            },
            NativeAdd::PictureImportFailed => {
                return Err(EncodeError::PictureImport);
            },
            NativeAdd::Rejected(message) => {
                return Err(EncodeError::Libwebp(encoder_error(message)));
            },
            NativeAdd::Added => {},
        }
        let duration_ms: i32 = match duration_to_millis(duration) {
            Ok(duration_ms) => duration_ms,
            Err(error) => return Err(error),
        };
        self.next_timestamp_ms = submission.timestamp_ms + duration_ms;
        match self.frame_count.checked_add(1) {
            Some(frame_count) => {
                self.frame_count = frame_count;
                Ok(())
            },
            None => Err(EncodeError::FrameCountOverflow),
        }
    }

    /// The reason to refuse a frame by its canvas, or else by what it holds, if
    /// there is one.
    pub open spec fn canvas_or_frame_fault(self, frame: AnimationFrame) -> Option<EncodeError> {
        if frame.canvas != self.spec_canvas() {
            Some(
                EncodeError::UnexpectedFrameCanvas {
                    actual: frame.canvas,
                    expected: self.spec_canvas(),
                },
            )
        } else {
            self.frame_fault(frame.rgba@.len(), frame.duration)
        }
    }

    /// Checks a frame and settles how libwebp is given it.
    pub fn submit_frame(&self, frame: &AnimationFrame) -> (result: Result<
        FrameSubmission,
        EncodeError,
    >)
        ensures
            match self.canvas_or_frame_fault(*frame) {
                Some(error) => result == Err::<FrameSubmission, EncodeError>(error),
                None => result == Ok::<FrameSubmission, EncodeError>(self.submission()),
            },
    {
        if frame.canvas.width != self.canvas.width || frame.canvas.height != self.canvas.height {
            return Err(
                EncodeError::UnexpectedFrameCanvas { actual: frame.canvas, expected: self.canvas },
            );
        }
        self.submit_rgba(frame.rgba.as_slice(), frame.duration)
    }

    /// Adds one full-canvas frame in presentation order, where libwebp answered
    /// with `reply` to what [`Self::submit_frame`] settles.
    pub fn add_frame(&mut self, frame: &AnimationFrame, reply: NativeAdd) -> (result: Result<
        (),
        EncodeError,
    >)
        ensures
            old(self).answers(
                old(self).canvas_or_frame_fault(*frame),
                frame.duration,
                reply,
                result,
                *final(self),
            ),
    {
        if frame.canvas.width != self.canvas.width || frame.canvas.height != self.canvas.height {
            return Err(
                EncodeError::UnexpectedFrameCanvas { actual: frame.canvas, expected: self.canvas },
            );
        }
        self.add_rgba(frame.rgba.as_slice(), frame.duration, reply)
    }

    /// The timestamp that ends the last frame, with which libwebp is told that
    /// no more frames follow.
    pub fn final_timestamp(&self) -> (result: Result<i32, EncodeError>)
        ensures
            result == if self.spec_frame_count() == 0 {
                Err(EncodeError::NoFrames)
            } else {
                Ok(self.position_ms() as i32)
            },
    {
        if self.frame_count == 0 {
            return Err(EncodeError::NoFrames);
        }
        Ok(self.next_timestamp_ms)
    }

    /// The encoder ends with `result` where libwebp answered the final timestamp
    /// with `reply`.
    pub open spec fn finishes(
        self,
        reply: Result<Vec<u8>, Option<String>>,
        result: Result<Vec<u8>, EncodeError>,
    ) -> bool {
        if self.spec_frame_count() == 0 {
            result == Err::<Vec<u8>, EncodeError>(EncodeError::NoFrames)
        } else {
            match reply {
                Ok(bytes) => result == Ok::<Vec<u8>, EncodeError>(bytes),
                Err(message) => result matches Err(EncodeError::Libwebp(text)) && text@
                    == error_text(message),
            }
        }
    }

    /// Returns the encoded WebP bytes, where libwebp answered with `reply` to
    /// the final timestamp: the assembled bytes, or that it could not flush or
    /// assemble, with a message if it had one.
    pub fn finish(self, reply: Result<Vec<u8>, Option<String>>) -> (result: Result<
        Vec<u8>,
        EncodeError,
    >)
        ensures
            self.finishes(reply, result),
    {
        if let Err(error) = self.final_timestamp() {
            return Err(error);
        }
        match reply {
            Ok(bytes) => Ok(bytes),
            Err(message) => Err(EncodeError::Libwebp(encoder_error(message))),
        }
    }
}

/// Key-frame overrides are accepted exactly where neither bound is given, or
/// both are, without `minimize_size`, and they are one of the special modes
/// `(0, 0)` and `(0, 1)` or an interval as libwebp wants it.
pub proof fn law_keyframe_interval_accepted_iff(animation: AnimationMuxOverrides)
    ensures
        keyframe_fault(animation) is None <==> {
            ||| animation.kmin is None && animation.kmax is None
            ||| {
                &&& animation.kmin matches Some(kmin) && animation.kmax matches Some(kmax) && {
                    ||| kmin == 0 && (kmax == 0 || kmax == 1)
                    ||| kmax >= 2 && kmax / 2 + 1 <= kmin < kmax && kmax - kmin <= 30
                }
                &&& animation.minimize_size != Some(true)
            }
        },
{
}

/// Per-frame overrides are accepted exactly where each field that is given lies
/// in the range that libwebp documents for it.
pub proof fn law_config_accepted_iff_in_range(config: EncoderConfigOverrides)
    ensures
        config_fault(config) is None <==> {
            &&& config.quality matches Some(value) ==> value.in_range()
            &&& config.method matches Some(value) ==> value <= 6
            &&& config.alpha_quality matches Some(value) ==> value <= 100
            &&& config.preprocessing matches Some(value) ==> value <= 2
            &&& config.filter_strength matches Some(value) ==> 0 <= value <= 100
            &&& config.filter_sharpness matches Some(value) ==> 0 <= value <= 7
            &&& config.filter_type matches Some(value) ==> 0 <= value <= 1
        },
{
}

/// Without overrides nothing is refused but a canvas, and libwebp's initialized
/// values are all retained.
pub proof fn law_defaults_retained(
    canvas: CanvasSize,
    options: AnimationEncoderOptions,
    initial: MuxOptions,
)
    requires
        options.config == no_config_overrides(),
        options.animation == no_mux_overrides(),
    ensures
        setup_fault(canvas, options) is None <==> encodable(canvas),
        accepted_setup(canvas, options).config == initial_config(),
        configured_mux(
            initial,
            options.loop_count,
            options.background_color,
            options.animation,
        ) == (MuxOptions {
            loop_count: options.loop_count.stored() as i32,
            bgcolor: options.background_color.raw,
            ..initial
        }),
{
}

/// The sum of the whole milliseconds of spans.
pub open spec fn total_millis(durations: Seq<Duration>) -> int
    decreases durations.len(),
{
    if durations.len() == 0 {
        0
    } else {
        total_millis(durations.drop_last()) + durations.last().spec_millis()
    }
}

/// An encoder passes through `states` while it takes frames of the given
/// durations.
pub open spec fn encoder_run(states: Seq<AnimationEncoder>, durations: Seq<Duration>) -> bool {
    &&& states.len() == durations.len() + 1
    &&& forall|i: int|
        0 <= i < durations.len() ==> (#[trigger] states[i]).appends(durations[i], states[i + 1])
}

/// Each frame starts at the sum of the durations before it, and every frame
/// counts.
pub proof fn law_timestamps_accumulate(states: Seq<AnimationEncoder>, durations: Seq<Duration>)
    requires
        encoder_run(states, durations),
    ensures
        states.last().position_ms() == states[0].position_ms() + total_millis(durations),
        states.last().spec_frame_count() == states[0].spec_frame_count() + durations.len(),
        states.last().spec_canvas() == states[0].spec_canvas(),
        states.last().spec_config() == states[0].spec_config(),
        time::millis_to_nanos(total_millis(durations)) == time::total(durations),
    decreases durations.len(),
{
    if durations.len() > 0 {
        let last = durations.len() - 1;
        assert(encoder_run(states.drop_last(), durations.drop_last()));
        law_timestamps_accumulate(states.drop_last(), durations.drop_last());
        assert(states[last].appends(durations[last], states[last + 1]));
        assert(states.drop_last().last() == states[last]);
    }
}

} // verus!
