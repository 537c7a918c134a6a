//! Shared data types describing canvases, frames, and animation metadata.

use vstd::prelude::*;

use crate::time::Duration;

verus! {

/// Pixel dimensions of a full animation canvas.
#[derive(Clone, Copy, Debug, PartialEq, Eq, Structural)]
pub struct CanvasSize {
    /// Canvas width in pixels.
    pub width: u32,
    /// Canvas height in pixels.
    pub height: u32,
}

impl CanvasSize {
    /// The number of pixels on the canvas.
    pub open spec fn pixels(self) -> nat {
        self.width as nat * self.height as nat
    }

    /// The number of bytes of the canvas as tightly packed RGBA8.
    pub open spec fn rgba_len(self) -> nat {
        4 * self.pixels()
    }

    /// Neither dimension is zero.
    pub open spec fn non_empty(self) -> bool {
        self.width > 0 && self.height > 0
    }

    /// Neither dimension exceeds that of `other`.
    pub open spec fn fits_in(self, other: Self) -> bool {
        self.width <= other.width && self.height <= other.height
    }

    /// Returns `width * height`, or `None` if the multiplication overflows.
    ///
    /// The product of two 32-bit numbers fits in 64 bits, so it never does.
    pub fn pixel_count(self) -> (count: Option<u64>)
        ensures
            count == Some(self.pixels() as u64),
            self.pixels() <= u64::MAX,
    {
        proof {
            lemma_pixels_bounded(self);
        }
        (self.width as u64).checked_mul(self.height as u64)
    }

    /// Returns the tightly packed RGBA8 buffer size, or `None` on overflow.
    pub fn rgba_bytes(self) -> (bytes: Option<usize>)
        ensures
            bytes == if self.rgba_len() <= usize::MAX {
                Some(self.rgba_len() as usize)
            } else {
                None::<usize>
            },
    {
        match self.pixel_count() {
            Some(pixels) => match pixels.checked_mul(4) {
                Some(bytes) => if bytes <= usize::MAX as u64 {
                    Some(bytes as usize)
                } else {
                    None
                },
                None => None,
            },
            None => None,
        }
    }
}

/// The pixels of a canvas can be counted in 64 bits.
pub proof fn lemma_pixels_bounded(canvas: CanvasSize)
    ensures
        canvas.pixels() <= u64::MAX,
{
    let (w, h) = (canvas.width as int, canvas.height as int);
    assert(w * h <= 0xffff_ffff * 0xffff_ffff) by (nonlinear_arith)
        requires
            0 <= w <= 0xffff_ffff,
            0 <= h <= 0xffff_ffff,
    ;
}

/// A 16-bit number that is not zero.
#[derive(Clone, Copy, Debug, PartialEq, Eq, Structural)]
pub struct NonZeroU16 {
    value: u16,
}

impl View for NonZeroU16 {
    type V = u16;

    closed spec fn view(&self) -> u16 {
        self.value
    }
}

impl NonZeroU16 {
    #[verifier::type_invariant]
    spec fn not_zero(self) -> bool {
        self.value != 0
    }

    /// The number `value`, or `None` if it is zero.
    pub fn new(value: u16) -> (number: Option<Self>)
        ensures
            number is None <==> value == 0,
            number matches Some(n) ==> n@ == value,
    {
        if value == 0 {
            None
        } else {
            Some(NonZeroU16 { value })
        }
    }

    /// The number itself.
    pub fn get(self) -> (value: u16)
        ensures
            value == self@,
            value != 0,
    {
        proof {
            use_type_invariant(self);
        }
        self.value
    }
}

/// A number is known by its view: equal views mean equal numbers.
pub proof fn lemma_equal_numbers(left: NonZeroU16, right: NonZeroU16)
    requires
        left@ == right@,
    ensures
        left == right,
{
}

/// WebP loop count without exposing the file format's `0 == infinite` sentinel.
#[derive(Clone, Copy, Debug, PartialEq, Eq, Structural)]
pub enum LoopCount {
    /// The animation repeats indefinitely according to the WebP loop value.
    Infinite,
    /// A finite, non-zero loop count stored by WebP.
    Finite(NonZeroU16),
}

impl LoopCount {
    /// The number that the file format stores for this loop count.
    pub open spec fn stored(self) -> u16 {
        match self {
            LoopCount::Infinite => 0,
            LoopCount::Finite(count) => count@,
        }
    }

    /// A finite count is not zero, as [`NonZeroU16::get`] says of every number.
    pub open spec fn valid(self) -> bool {
        self matches LoopCount::Finite(count) ==> count@ != 0
    }
}

/// A loop count is known by the number that the file format stores for it.
pub proof fn lemma_equal_loop_counts(left: LoopCount, right: LoopCount)
    requires
        left.valid(),
        right.valid(),
        left.stored() == right.stored(),
    ensures
        left == right,
{
    if let (LoopCount::Finite(left_count), LoopCount::Finite(right_count)) = (left, right) {
        lemma_equal_numbers(left_count, right_count);
    }
}

/// Background colour stored verbatim in libwebp's `bgcolor` field.
///
/// No channel order or color-space interpretation is assigned to this value.
#[derive(Clone, Copy, Debug, PartialEq, Eq, Structural)]
pub struct BackgroundColor {
    /// Raw 32-bit value stored in the WebP ANIM background-color field.
    pub raw: u32,
}

/// Semantics associated with one stored animation sequence.
#[derive(Clone, Copy, Debug, PartialEq, Eq, Structural)]
pub struct AnimationInfo {
    /// Full canvas dimensions shared by every composited frame.
    pub canvas: CanvasSize,
    /// Number of frames in the stored animation sequence.
    pub frame_count: u32,
    /// Loop policy stored in the source animation.
    pub loop_count: LoopCount,
    /// Raw ANIM background color stored in the source animation.
    pub background_color: BackgroundColor,
}

/// Information available for a non-animated WebP image.
#[derive(Clone, Copy, Debug, PartialEq, Eq, Structural)]
pub struct StaticWebpInfo {
    /// Canvas dimensions of the static image.
    pub canvas: CanvasSize,
}

/// A composited, full-canvas RGBA frame and its unmodified source duration.
#[derive(Clone, Debug, PartialEq, Eq)]
pub struct AnimationFrame {
    /// Tightly packed RGBA8 pixels in row-major, full-canvas order.
    pub rgba: Vec<u8>,
    /// Canvas dimensions of [`Self::rgba`].
    pub canvas: CanvasSize,
    /// Source frame duration, without playback-time normalization.
    pub duration: Duration,
}

} // verus!
