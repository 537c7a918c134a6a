//! Laws of the text of durations and of failures.

use vstd::prelude::*;

use crate::codec::decode::DecodeError;
use crate::codec::encode::EncodeError;
use crate::inspect::InspectError;
use crate::laws::values;
use crate::resize::ResizeError;
use crate::text::{self, push_duration};
use crate::time::Duration;
use crate::transcode::TranscodeError;

verus! {

/// The message of a decoding failure names the values that led to it.
pub proof fn law_decode_messages_name_their_values(
    error: DecodeError,
    message: String,
)
    requires
        call_ensures(DecodeError::message, (&error,), message),
    ensures
        match error {
            DecodeError::InputTooLarge { actual, maximum } => message@ == "input is "@
                + text::decimal(actual as nat) + " bytes, exceeding the "@
                + text::decimal(maximum as nat) + "-byte limit"@,
            DecodeError::LimitExceeded { limit, actual, maximum } => message@ == limit@ + " is "@
                + text::decimal(actual as nat) + ", exceeding the "@
                + text::decimal(maximum as nat) + " limit"@,
            _ => true,
        },
{
}

/// The message of an inspection failure names the values that led to it, or its cause.
pub proof fn law_inspection_messages_name_their_values(
    error: InspectError,
    message: String,
    cause: String,
)
    requires
        call_ensures(InspectError::message, (&error,), message),
        error matches InspectError::Animation(inner) ==> call_ensures(
            DecodeError::message,
            (&inner,),
            cause,
        ),
    ensures
        match error {
            InspectError::InputTooLarge { actual, maximum } => message@ == "input is "@
                + text::decimal(actual as nat) + " bytes, exceeding the "@
                + text::decimal(maximum as nat) + "-byte limit"@,
            InspectError::LimitExceeded { limit, actual, maximum } => message@ == limit@
                + " is "@ + text::decimal(actual as nat) + ", exceeding the "@
                + text::decimal(maximum as nat) + " limit"@,
            InspectError::Animation(_) => message@ == "failed to inspect animated WebP: "@
                + cause@,
            _ => true,
        },
{
}

/// The message of a resize failure names the values that led to it.
pub proof fn law_resize_messages_name_their_values(
    error: ResizeError,
    message: String,
)
    requires
        call_ensures(ResizeError::message, (&error,), message),
    ensures
        match error {
            ResizeError::InvalidCanvasSize { which, size } => message@ == which@
                + " canvas has invalid dimensions "@ + text::decimal(size.width as nat) + "x"@
                + text::decimal(size.height as nat),
            ResizeError::OutputTooLarge { actual, maximum } => message@ == "output is "@
                + text::decimal(actual as nat) + " bytes, exceeding the "@
                + text::decimal(maximum as nat) + "-byte limit"@,
            ResizeError::InvalidSourceBufferLength { actual, expected } => message@ ==
                "source buffer is "@ + text::decimal(actual as nat) + " bytes; expected "@
                + text::decimal(expected as nat),
            ResizeError::UnexpectedFrameCanvas { actual, expected } => message@ ==
                "frame canvas "@ + text::decimal(actual.width as nat) + "x"@
                + text::decimal(actual.height as nat) + " does not match plan source "@
                + text::decimal(expected.width as nat) + "x"@
                + text::decimal(expected.height as nat),
            ResizeError::ImageResize(cause) => message@ == "RGBA resize failed: "@ + cause@,
            _ => true,
        },
{
}

/// The message of an encoding failure names the values that led to it.
pub proof fn law_encode_messages_name_their_values(
    error: EncodeError,
    quality: &str,
    message: String,
)
    requires
        call_ensures(EncodeError::message, (&error, quality), message),
    ensures
        match error {
            EncodeError::InvalidCanvasSize(size) => message@ == "canvas has invalid dimensions "@
                + text::decimal(size.width as nat) + "x"@ + text::decimal(size.height as nat),
            EncodeError::InvalidQuality { .. } => message@ == "quality "@ + quality@
                + " is outside libwebp's 0.0..=100.0 range"@,
            EncodeError::InvalidMethod { value } => message@ == "method "@
                + text::decimal(value as nat) + " is outside libwebp's 0..=6 range"@,
            EncodeError::InvalidAlphaQuality { value } => message@ == "alpha quality "@
                + text::decimal(value as nat) + " is outside libwebp's 0..=100 range"@,
            EncodeError::InvalidPreprocessing { value } => message@ == "preprocessing mode "@
                + text::decimal(value as nat) + " is outside libwebp's 0..=2 range"@,
            EncodeError::InvalidFilterStrength { value } => message@ == "filter strength "@
                + text::signed_decimal(value as int) + " is outside libwebp's 0..=100 range"@,
            EncodeError::InvalidFilterSharpness { value } => message@ == "filter sharpness "@
                + text::signed_decimal(value as int) + " is outside libwebp's 0..=7 range"@,
            EncodeError::InvalidFilterType { value } => message@ == "filter type "@
                + text::signed_decimal(value as int) + " is outside libwebp's 0..=1 range"@,
            EncodeError::IncompleteKeyframeInterval { kmin, kmax } => message@ ==
                "key-frame interval requires both kmin and kmax (got kmin="@
                + text::optional_decimal(kmin) + ", kmax="@ + text::optional_decimal(kmax) + ")"@,
            EncodeError::InvalidKeyframeInterval { kmin, kmax } => message@ ==
                "key-frame interval requires 0 <= kmin < kmax (got kmin="@
                + text::signed_decimal(kmin as int) + ", kmax="@
                + text::signed_decimal(kmax as int) + ")"@,
            EncodeError::NonCanonicalKeyframeMode { kmin, kmax } => message@ ==
                "key-frame special modes must use (kmin, kmax) = (0, 0) to disable insertion or (0, 1) for every frame (got "@
                + text::signed_decimal(kmin as int) + ", "@ + text::signed_decimal(kmax as int)
                + ")"@,
            EncodeError::KeyframeIntervalBelowMinimum { kmin, minimum, kmax } => message@ ==
                "key-frame interval requires kmin >= kmax / 2 + 1; got kmin="@
                + text::signed_decimal(kmin as int) + ", kmax="@
                + text::signed_decimal(kmax as int) + ", minimum="@
                + text::signed_decimal(minimum as int),
            EncodeError::KeyframeIntervalTooWide { kmin, kmax, maximum_span } => message@ ==
                "key-frame interval span kmax - kmin must not exceed "@
                + text::signed_decimal(maximum_span as int) + "; got kmin="@
                + text::signed_decimal(kmin as int) + ", kmax="@
                + text::signed_decimal(kmax as int),
            EncodeError::UnexpectedFrameCanvas { actual, expected } => message@ ==
                "frame canvas "@ + text::decimal(actual.width as nat) + "x"@
                + text::decimal(actual.height as nat) + " does not match encoder canvas "@
                + text::decimal(expected.width as nat) + "x"@
                + text::decimal(expected.height as nat),
            EncodeError::InvalidFrameBufferLength { actual, expected } => message@ ==
                "frame buffer is "@ + text::decimal(actual as nat) + " bytes; expected "@
                + text::decimal(expected as nat),
            EncodeError::NonMillisecondDuration(duration) => message@ == "frame duration "@
                + text::duration_text(duration@) + " is not an exact number of milliseconds"@,
            EncodeError::Libwebp(error) => message@ == "libwebp animation encoding failed: "@
                + error@,
            _ => true,
        },
{
}

/// The message of a transcode failure names its cause or the counts that differ.
pub proof fn law_transcode_messages_name_their_causes(
    error: TranscodeError,
    quality: &str,
    message: String,
    cause: String,
)
    requires
        call_ensures(TranscodeError::message, (&error, quality), message),
        error matches TranscodeError::Decode(inner) ==> call_ensures(
            DecodeError::message,
            (&inner,),
            cause,
        ),
        error matches TranscodeError::Resize(inner) ==> call_ensures(
            ResizeError::message,
            (&inner,),
            cause,
        ),
        error matches TranscodeError::Encode(inner) ==> call_ensures(
            EncodeError::message,
            (&inner, quality),
            cause,
        ),
    ensures
        match error {
            TranscodeError::Decode(_) => message@ == "animated WebP decode failed: "@
                + cause@,
            TranscodeError::Resize(_) => message@ == "animated WebP resize failed: "@
                + cause@,
            TranscodeError::Encode(_) => message@ == "animated WebP encode failed: "@
                + cause@,
            TranscodeError::FrameCountMismatch { decoded, declared } => message@ ==
                "decoder produced "@ + text::decimal(decoded as nat)
                + " frames; source declared "@ + text::decimal(declared as nat),
            _ => true,
        },
{
}

/// One, or ten times the power below.
pub open spec fn power_of_ten(exponent: nat) -> int
    decreases exponent,
{
    if exponent == 0 {
        1
    } else {
        10 * power_of_ten((exponent - 1) as nat)
    }
}

/// A digit in front counts with the power of ten that its place has.
proof fn lemma_front_digit(first: char, rest: Seq<char>)
    ensures
        values::number_of(seq![first] + rest) == (first as u32 - '0' as u32) * power_of_ten(
            rest.len(),
        ) + values::number_of(rest),
    decreases rest.len(),
{
    let all = seq![first] + rest;
    if rest.len() == 0 {
        assert(all.drop_last() =~= Seq::<char>::empty());
        assert(values::number_of(all.drop_last()) == 0);
    } else {
        assert(all.drop_last() =~= seq![first] + rest.drop_last());
        lemma_front_digit(first, rest.drop_last());
        let (digit, power, tail) = (
            first as u32 - '0' as u32,
            power_of_ten((rest.len() - 1) as nat),
            values::number_of(rest.drop_last()),
        );
        assert(10 * (digit * power + tail) == digit * (10 * power) + 10 * tail)
            by (nonlinear_arith);
    }
}

/// The digits behind a decimal point give the fraction, with no zero at the end: as
/// many of them as are needed, and the fraction follows by filling up with zeros.
pub proof fn law_fraction_digits_give_the_fraction(fraction: nat, places: nat)
    requires
        places > 0,
        fraction < power_of_ten(places),
    ensures
        ({
            let digits = text::fraction_digits(fraction, power_of_ten((places - 1) as nat) as nat);
            &&& digits.len() <= places
            &&& fraction == 0 <==> digits.len() == 0
            &&& fraction > 0 ==> digits.last() != '0'
            &&& forall|i: int| 0 <= i < digits.len() ==> '0' <= #[trigger] digits[i] <= '9'
            &&& values::number_of(digits) * power_of_ten((places - digits.len()) as nat)
                == fraction
        }),
    decreases places,
{
    let unit = power_of_ten((places - 1) as nat);
    lemma_power_positive((places - 1) as nat);
    let digits = text::fraction_digits(fraction, unit as nat);
    if fraction > 0 {
        let (f, u) = (fraction as int, unit);
        assert(0 <= f / u < 10 && 0 <= f % u < u && f == u * (f / u) + f % u) by (nonlinear_arith)
            requires
                0 <= f < 10 * u,
                u > 0,
        ;
        let lead = text::digit((f / u) as nat);
        if places == 1 {
            let rest = text::fraction_digits((f % u) as nat, (u / 10) as nat);
            assert(rest =~= Seq::<char>::empty());
            assert(digits =~= seq![lead]);
            lemma_front_digit(lead, rest);
            assert(digits =~= seq![lead] + rest);
            assert(digits.last() == lead);
            assert(power_of_ten(0) == 1);
            assert(u == 1);
            assert(f / u == f) by (nonlinear_arith)
                requires
                    u == 1,
            ;
            assert(values::number_of(digits) * power_of_ten((places - digits.len()) as nat) == f);
        } else {
            assert(u / 10 == power_of_ten((places - 2) as nat));
            law_fraction_digits_give_the_fraction((f % u) as nat, (places - 1) as nat);
            let rest = text::fraction_digits((f % u) as nat, (u / 10) as nat);
            assert(digits =~= seq![lead] + rest);
            lemma_front_digit(lead, rest);
            let fill = (places - 1 - rest.len()) as nat;
            lemma_powers_multiply(rest.len(), fill);
            let (head, tail, p, q) = (
                lead as u32 - '0' as u32,
                values::number_of(rest),
                power_of_ten(rest.len()),
                power_of_ten(fill),
            );
            assert((head * p + tail) * q == head * (p * q) + tail * q) by (nonlinear_arith);
            assert(head * (p * q) == u * (f / u)) by (nonlinear_arith)
                requires
                    p * q == u,
                    head == f / u,
            ;
            assert(rest.len() > 0 ==> digits.last() == rest.last());
            assert(digits.len() == rest.len() + 1);
            assert(values::number_of(digits) * q == f);
            assert forall|i: int| 0 <= i < digits.len() implies '0' <= #[trigger] digits[i]
                <= '9' by {
                if i > 0 {
                    assert(digits[i] == rest[i - 1]);
                }
            }
            if rest.len() == 0 {
                assert(digits.last() == lead);
                assert(f % u == 0);
                assert(f / u > 0) by (nonlinear_arith)
                    requires
                        f > 0,
                        f == u * (f / u) + f % u,
                        f % u == 0,
                        u > 0,
                ;
            }
        }
    } else {
        assert(values::number_of(digits) == 0);
    }
}

/// A power of ten is positive.
proof fn lemma_power_positive(exponent: nat)
    ensures
        power_of_ten(exponent) > 0,
    decreases exponent,
{
    if exponent > 0 {
        lemma_power_positive((exponent - 1) as nat);
    }
}

/// Exponents add up where powers of ten are multiplied.
proof fn lemma_powers_multiply(left: nat, right: nat)
    ensures
        power_of_ten(left) * power_of_ten(right) == power_of_ten(left + right),
    decreases left,
{
    if left > 0 {
        lemma_powers_multiply((left - 1) as nat, right);
        let (p, q) = (power_of_ten((left - 1) as nat), power_of_ten(right));
        assert((10 * p) * q == 10 * (p * q)) by (nonlinear_arith);
    }
}

/// The text of a count of units with a fraction of so many places.
pub open spec fn pointed(whole: nat, fraction: nat, places: nat) -> Seq<char> {
    text::decimal(whole) + if fraction == 0 {
        ""@
    } else {
        "."@ + text::fraction_digits(fraction, power_of_ten((places - 1) as nat) as nat)
    }
}

/// A duration is written in seconds, milliseconds, microseconds or nanoseconds, in
/// the largest of them of which it holds at least one, with what is beyond a whole
/// number of them behind the point.
pub proof fn law_durations_are_written_in_their_largest_unit(out: &mut String, span: Duration)
    requires
        call_ensures(push_duration, (out, span), ()),
    ensures
        ({
            let nanos = span@;
            final(out)@ == old(out)@ + if nanos >= 1_000_000_000 {
                pointed(nanos / 1_000_000_000, nanos % 1_000_000_000, 9) + "s"@
            } else if nanos >= 1_000_000 {
                pointed(nanos / 1_000_000, nanos % 1_000_000, 6) + "ms"@
            } else if nanos >= 1_000 {
                pointed(nanos / 1_000, nanos % 1_000, 3) + "\u{b5}s"@
            } else {
                pointed(nanos, 0, 1) + "ns"@
            }
        }),
{
    reveal_with_fuel(power_of_ten, 10);
    reveal_strlit("");
    let nanos = span@;
    assert(text::decimal(nanos) + ""@ =~= text::decimal(nanos));
    assert(text::decimal(nanos / 1_000_000_000) + ""@ =~= text::decimal(nanos / 1_000_000_000));
    assert(text::decimal(nanos / 1_000_000) + ""@ =~= text::decimal(nanos / 1_000_000));
    assert(text::decimal(nanos / 1_000) + ""@ =~= text::decimal(nanos / 1_000));
    assert(final(out)@ =~= old(out)@ + if nanos >= 1_000_000_000 {
        pointed(nanos / 1_000_000_000, nanos % 1_000_000_000, 9) + "s"@
    } else if nanos >= 1_000_000 {
        pointed(nanos / 1_000_000, nanos % 1_000_000, 6) + "ms"@
    } else if nanos >= 1_000 {
        pointed(nanos / 1_000, nanos % 1_000, 3) + "\u{b5}s"@
    } else {
        pointed(nanos, 0, 1) + "ns"@
    });
}

} // verus!
