//! Lossy quality, held as the bits of a single-precision number.

use vstd::arithmetic::power2;
use vstd::prelude::*;

verus! {

/// The bit pattern of the quality 100.
pub const MAX_QUALITY_BITS: u32 = 0x42c8_0000;

/// The bit pattern of negative zero.
pub const NEGATIVE_ZERO_BITS: u32 = 0x8000_0000;

/// A quality as the bit pattern of an IEEE 754 single-precision number: a sign
/// bit, eight bits of exponent, and 23 bits of fraction.
///
/// `==` compares the numbers: the two zeros are equal, and not-a-number equals
/// nothing.
#[derive(Clone, Copy, Debug)]
pub struct Quality {
    /// The bit pattern.
    pub bits: u32,
}

impl Quality {
    /// The sign bit is set.
    pub open spec fn negative(self) -> bool {
        self.bits >= 0x8000_0000
    }

    /// The eight bits of exponent.
    pub open spec fn exponent(self) -> nat {
        ((self.bits / 0x80_0000) % 0x100) as nat
    }

    /// The 23 bits of fraction.
    pub open spec fn fraction(self) -> nat {
        (self.bits % 0x80_0000) as nat
    }

    /// Neither an infinity nor not-a-number.
    pub open spec fn finite(self) -> bool {
        self.exponent() != 0xff
    }

    /// The pattern stands for no number.
    pub open spec fn not_a_number(self) -> bool {
        self.exponent() == 0xff && self.fraction() != 0
    }

    /// Zero, of either sign.
    pub open spec fn zero(self) -> bool {
        self.exponent() == 0 && self.fraction() == 0
    }

    /// The magnitude of a finite number, times two to the power 149, which is a
    /// whole number for every one of them.
    pub open spec fn scaled_magnitude(self) -> nat {
        if self.exponent() == 0 {
            self.fraction()
        } else {
            (0x80_0000 + self.fraction()) * power2::pow2(
                (self.exponent() - 1) as nat,
            )
        }
    }

    /// The number is finite and lies in `0.0..=100.0`, where both zeros do.
    pub open spec fn in_range(self) -> bool {
        &&& self.finite()
        &&& self.scaled_magnitude() == 0 || !self.negative()
        &&& self.scaled_magnitude() <= 100 * power2::pow2(149)
    }

    /// Whether the quality is finite and lies in `0.0..=100.0`.
    pub fn is_valid(self) -> (valid: bool)
        ensures
            valid == self.in_range(),
    {
        proof {
            lemma_range_by_bits(self);
        }
        self.bits <= MAX_QUALITY_BITS || self.bits == NEGATIVE_ZERO_BITS
    }
}

impl PartialEq for Quality {
    fn eq(&self, other: &Self) -> (equal: bool) {
        let (left, right): (u32, u32) = (self.bits % 0x8000_0000, other.bits % 0x8000_0000);
        left <= 0x7f80_0000 && right <= 0x7f80_0000 && (self.bits == other.bits || (left == 0
            && right == 0))
    }
}

impl vstd::std_specs::cmp::PartialEqSpecImpl for Quality {
    open spec fn obeys_eq_spec() -> bool {
        true
    }

    open spec fn eq_spec(&self, other: &Self) -> bool {
        &&& !self.not_a_number()
        &&& !other.not_a_number()
        &&& self.bits == other.bits || (self.zero() && other.zero())
    }
}

/// Among non-negative numbers the bit patterns are ordered as the numbers are;
/// the only negative number in range is zero.
pub proof fn lemma_range_by_bits(quality: Quality)
    ensures
        quality.in_range() <==> quality.bits <= MAX_QUALITY_BITS || quality.bits
            == NEGATIVE_ZERO_BITS,
{
    let exponent = quality.exponent();
    let fraction = quality.fraction();
    let unit = power2::pow2(132);
    power2::lemma_pow2_pos(132);
    power2::lemma_pow2_adds(132, 17);
    assert(power2::pow2(17) == 0x2_0000) by {
        power2::lemma2_to64();
    }
    // one hundred is 13107200 units
    assert(100 * power2::pow2(149) == 13107200 * unit) by (nonlinear_arith)
        requires
            power2::pow2(149) == unit * 0x2_0000,
    ;
    if exponent > 0 {
        let scale = power2::pow2((exponent - 1) as nat);
        power2::lemma_pow2_pos((exponent - 1) as nat);
        assert((0x80_0000 + fraction) * scale > 0) by (nonlinear_arith)
            requires
                scale > 0,
                fraction >= 0,
        ;
        if exponent < 133 {
            power2::lemma_pow2_unfold(exponent);
            if exponent < 132 {
                power2::lemma_pow2_strictly_increases(exponent, 132);
            }
            assert((0x80_0000 + fraction) * scale <= 13107200 * unit) by (nonlinear_arith)
                requires
                    0 <= fraction < 0x80_0000,
                    2 * scale <= unit,
                    scale > 0,
            ;
        } else if exponent == 133 {
            assert((0x80_0000 + fraction) * unit <= 13107200 * unit <==> fraction <= 0x48_0000)
                by (nonlinear_arith)
                requires
                    unit > 0,
            ;
        } else {
            power2::lemma_pow2_unfold(133);
            if exponent > 134 {
                power2::lemma_pow2_strictly_increases(133, (exponent - 1) as nat);
            }
            assert((0x80_0000 + fraction) * scale > 13107200 * unit) by (nonlinear_arith)
                requires
                    fraction >= 0,
                    scale >= 2 * unit,
                    unit > 0,
            ;
        }
    }
}

} // verus!
