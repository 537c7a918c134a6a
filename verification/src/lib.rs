//! Inspect, decode, resize, and encode animated WebP images.
//!
//! The crate holds the rules of an animation-aware pipeline above the native
//! WebP codec: which containers and sequences are accepted, how a canvas is
//! resized, which durations and timestamps frames have, and what the codec is
//! given. What the codec answers reaches the functions here as plain values, so
//! each of them is specified for every answer and verified.
//!
//! [`inspect()`] classifies a container. [`AnimationDecoder`] keeps the timing
//! of one stored sequence; [`AnimationDecoder::frame_durations`] lists stored
//! durations without advancing it, and [`AnimationDecoder::reset`] starts over.
//! [`ResizePlan`] and [`ResizeWorkspace`] resize full-canvas frames, and
//! [`AnimationEncoder`] places frames on the time line of the output. Frame
//! durations are passed through without playback-time normalization.
//!
//! [`Transcode`] composes those stages for one stored animation sequence.
//! Applications that need different resource, compression, or output-selection
//! policies can use the lower-level types directly.

pub mod codec;
pub mod inspect;
pub mod laws;
pub mod model;
pub mod resize;
pub mod text;
pub mod time;
pub mod transcode;

pub use codec::decode::{AnimationDecoder, DecodeError, DecodeLimits};
pub use codec::encode::{
    AnimationEncoder, AnimationEncoderOptions, AnimationMuxOverrides, EncodeError,
    EncoderConfigOverrides,
};
pub use codec::quality::Quality;
pub use inspect::{inspect, is_animated_webp_fast, InspectError, InspectLimits, WebpKind};
pub use model::{
    AnimationFrame, AnimationInfo, BackgroundColor, CanvasSize, LoopCount, NonZeroU16,
    StaticWebpInfo,
};
pub use resize::{ResizeError, ResizeFilter, ResizeOptions, ResizePlan, ResizeWorkspace};
pub use time::Duration;
pub use transcode::{
    AnimationTranscodeOptions, Transcode, TranscodeError, TranscodeSetup, TranscodedAnimation,
};
