//! Laws of canvases, numbers, spans of time, qualities, and text.

use vstd::prelude::*;

use crate::codec::quality::Quality;
use crate::model::{CanvasSize, NonZeroU16};
use crate::text::{self, push_decimal, push_optional, push_signed};
use crate::time::Duration;

verus! {

/// A canvas has as many pixels as its sides multiply to, and four bytes for each
/// of them, unless the host cannot address so many.
pub proof fn law_pixels_and_bytes_are_counted(
    canvas: CanvasSize,
    count: Option<u64>,
    bytes: Option<usize>,
)
    requires
        call_ensures(CanvasSize::pixel_count, (canvas,), count),
        call_ensures(CanvasSize::rgba_bytes, (canvas,), bytes),
    ensures
        count is Some,
        count->Some_0 == canvas.width * canvas.height,
        bytes is Some <==> 4 * (canvas.width * canvas.height) <= usize::MAX,
        bytes is Some ==> bytes->Some_0 == 4 * (canvas.width * canvas.height),
{
}

/// Every number but zero is kept.
pub proof fn law_only_zero_is_refused(value: u16, number: Option<NonZeroU16>, kept: u16)
    requires
        call_ensures(NonZeroU16::new, (value,), number),
        number is Some ==> call_ensures(NonZeroU16::get, (number->Some_0,), kept),
    ensures
        number is None <==> value == 0,
        number is Some ==> kept == value,
{
}

/// The nanoseconds of a span, from what can be read of it.
pub open spec fn nanos_of(secs: u64, subsec_nanos: u32) -> int {
    secs * 1_000_000_000 + subsec_nanos
}

/// A span is as long as the seconds and nanoseconds that it is made of, and less
/// than a second of it is read as nanoseconds.
pub proof fn law_span_is_read_back(
    secs: u64,
    nanos: u32,
    span: Duration,
    read_secs: u64,
    read_nanos: u32,
)
    requires
        secs + nanos / 1_000_000_000u32 <= u64::MAX,
        call_ensures(Duration::new, (secs, nanos), span),
        call_ensures(Duration::as_secs, (span,), read_secs),
        call_ensures(Duration::subsec_nanos, (span,), read_nanos),
    ensures
        nanos_of(read_secs, read_nanos) == secs * 1_000_000_000 + nanos,
        read_nanos < 1_000_000_000,
{
}

/// Whole seconds and whole milliseconds are read back.
pub proof fn law_whole_units_are_read_back(
    count: u64,
    seconds: Duration,
    read_seconds: u64,
    millis: Duration,
    read_millis: u128,
)
    requires
        call_ensures(Duration::from_secs, (count,), seconds),
        call_ensures(Duration::as_secs, (seconds,), read_seconds),
        call_ensures(Duration::from_millis, (count,), millis),
        call_ensures(Duration::as_millis, (millis,), read_millis),
    ensures
        read_seconds == count,
        read_millis == count,
{
}

/// The milliseconds of a span are those of its seconds and of the rest; where
/// they do not fit in 64 bits, the largest number stands for them.
pub proof fn law_milliseconds_of_a_span(
    span: Duration,
    secs: u64,
    nanos: u32,
    millis: u128,
    saturated: u64,
)
    requires
        call_ensures(Duration::as_secs, (span,), secs),
        call_ensures(Duration::subsec_nanos, (span,), nanos),
        call_ensures(Duration::as_millis, (span,), millis),
        call_ensures(Duration::saturating_millis, (span,), saturated),
    ensures
        millis == secs * 1000 + nanos / 1_000_000u32,
        millis <= u64::MAX ==> saturated == millis,
        millis > u64::MAX ==> saturated == u64::MAX,
{
}

/// Spans add up, as long as the sum has no more than 64 bits of seconds.
pub proof fn law_spans_add_up(
    left: Duration,
    right: Duration,
    left_parts: (u64, u32),
    right_parts: (u64, u32),
    sum: Option<Duration>,
    sum_parts: (u64, u32),
)
    requires
        call_ensures(Duration::as_secs, (left,), left_parts.0),
        call_ensures(Duration::subsec_nanos, (left,), left_parts.1),
        call_ensures(Duration::as_secs, (right,), right_parts.0),
        call_ensures(Duration::subsec_nanos, (right,), right_parts.1),
        call_ensures(Duration::checked_add, (left, right), sum),
        sum is Some ==> call_ensures(Duration::as_secs, (sum->Some_0,), sum_parts.0),
        sum is Some ==> call_ensures(Duration::subsec_nanos, (sum->Some_0,), sum_parts.1),
    ensures
        sum is Some ==> nanos_of(sum_parts.0, sum_parts.1) == nanos_of(left_parts.0, left_parts.1)
            + nanos_of(right_parts.0, right_parts.1),
        sum is None ==> nanos_of(left_parts.0, left_parts.1) + nanos_of(
            right_parts.0,
            right_parts.1,
        ) >= 0x1_0000_0000_0000_0000 * 1_000_000_000,
{
}

/// A quality is valid exactly from zero, of either sign, up to one hundred; all
/// bit patterns between those of zero and one hundred are numbers between them.
pub proof fn law_valid_qualities(quality: Quality, valid: bool)
    requires
        call_ensures(Quality::is_valid, (quality,), valid),
    ensures
        valid <==> quality.bits <= 0x42c8_0000 || quality.bits == 0x8000_0000,
{
    crate::codec::quality::lemma_range_by_bits(quality);
}

/// Qualities are equal exactly where they are the same number: the same bits, or
/// two zeros, and never what is not a number.
pub proof fn law_qualities_equal_as_numbers(left: Quality, right: Quality, equal: bool)
    requires
        call_ensures(Quality::eq, (&left, &right), equal),
    ensures
        left.bits == right.bits && left.bits % 0x8000_0000 <= 0x7f80_0000 ==> equal,
        left.bits % 0x8000_0000 == 0 && right.bits % 0x8000_0000 == 0 ==> equal,
        equal ==> left.bits % 0x8000_0000 <= 0x7f80_0000,
        equal && left.bits != right.bits ==> left.bits % 0x8000_0000 == 0 && right.bits
            % 0x8000_0000 == 0,
{
}

/// The number that decimal digits stand for.
pub open spec fn number_of(digits: Seq<char>) -> int
    decreases digits.len(),
{
    if digits.len() == 0 {
        0
    } else {
        10 * number_of(digits.drop_last()) + (digits.last() as u32 - '0' as u32)
    }
}

/// A numeral: digits alone, at least one, and no zero in front of others.
pub open spec fn is_numeral(digits: Seq<char>) -> bool {
    &&& digits.len() > 0
    &&& forall|i: int| 0 <= i < digits.len() ==> '0' <= #[trigger] digits[i] <= '9'
    &&& digits.len() > 1 ==> digits[0] != '0'
}

/// A decimal text is a numeral of its number.
pub proof fn law_decimal_is_the_numeral(value: nat)
    ensures
        is_numeral(text::decimal(value)),
        number_of(text::decimal(value)) == value,
        value > 0 ==> text::decimal(value)[0] != '0',
    decreases value,
{
    let digits = text::decimal(value);
    if value >= 10 {
        law_decimal_is_the_numeral(value / 10);
        let front = text::decimal(value / 10);
        assert(digits.drop_last() =~= front);
        assert(digits[0] == front[0]);
        assert(digits.last() == text::digit(value % 10));
        assert forall|i: int| 0 <= i < digits.len() implies '0' <= #[trigger] digits[i] <= '9' by {
            if i < front.len() {
                assert(digits[i] == front[i]);
            }
        }
    } else {
        assert(digits.drop_last() =~= Seq::<char>::empty());
        assert(number_of(digits.drop_last()) == 0);
        assert(digits.last() == text::digit(value));
    }
}

/// A number is written behind what stands there already, as its numeral.
pub proof fn law_numbers_are_written_in_decimal(out: &mut String, value: u64)
    requires
        call_ensures(push_decimal, (out, value), ()),
    ensures
        final(out)@.len() > old(out)@.len(),
        final(out)@.take(old(out)@.len() as int) == old(out)@,
        is_numeral(final(out)@.skip(old(out)@.len() as int)),
        number_of(final(out)@.skip(old(out)@.len() as int)) == value,
{
    law_decimal_is_the_numeral(value as nat);
    assert(final(out)@.skip(old(out)@.len() as int) =~= text::decimal(value as nat));
    assert(final(out)@.take(old(out)@.len() as int) =~= old(out)@);
}

/// A negative number is written as a minus sign and the numeral of its magnitude.
pub proof fn law_negative_numbers_have_a_sign(out: &mut String, value: i32)
    requires
        call_ensures(push_signed, (out, value), ()),
    ensures
        final(out)@.take(old(out)@.len() as int) == old(out)@,
        ({
            let written = final(out)@.skip(old(out)@.len() as int);
            if value < 0 {
                &&& written[0] == '-'
                &&& is_numeral(written.skip(1))
                &&& number_of(written.skip(1)) == -value
            } else {
                is_numeral(written) && number_of(written) == value
            }
        }),
{
    reveal_strlit("-");
    let written = final(out)@.skip(old(out)@.len() as int);
    assert(written =~= text::signed_decimal(value as int));
    assert(final(out)@.take(old(out)@.len() as int) =~= old(out)@);
    if value < 0 {
        law_decimal_is_the_numeral((-value) as nat);
        assert(written.skip(1) =~= text::decimal((-value) as nat));
    } else {
        law_decimal_is_the_numeral(value as nat);
    }
}

/// An optional number is written as the word for none, or as its numeral between
/// the brackets of the word for some.
pub proof fn law_optional_numbers(out: &mut String, value: Option<i32>)
    requires
        call_ensures(push_optional, (out, value), ()),
    ensures
        final(out)@.take(old(out)@.len() as int) == old(out)@,
        ({
            let written = final(out)@.skip(old(out)@.len() as int);
            match value {
                None => written == "None"@,
                Some(number) => {
                    &&& written.take(5) == "Some("@
                    &&& written.last() == ')'
                    &&& written.subrange(5, written.len() - 1) == text::signed_decimal(
                        number as int,
                    )
                },
            }
        }),
{
    reveal_strlit("None");
    reveal_strlit("Some(");
    reveal_strlit(")");
    let written = final(out)@.skip(old(out)@.len() as int);
    assert(written =~= text::optional_decimal(value));
    assert(final(out)@.take(old(out)@.len() as int) =~= old(out)@);
    if let Some(number) = value {
        assert(written.take(5) =~= "Some("@);
        assert(written.subrange(5, written.len() - 1) =~= text::signed_decimal(number as int));
    }
}

} // verus!
