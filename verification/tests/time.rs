use webp_anim::text::{push_decimal, push_duration, push_optional, push_signed};
use webp_anim::Duration;

fn duration_text(secs: u64, nanos: u32) -> String {
    let mut out = String::new();
    push_duration(&mut out, Duration::new(secs, nanos));
    out
}

#[test]
fn durations_carry_and_add() {
    let carried = Duration::new(1, 2_500_000_000);
    assert_eq!((carried.as_secs(), carried.subsec_nanos()), (3, 500_000_000));
    assert_eq!(Duration::from_millis(1234), Duration::new(1, 234_000_000));
    assert_eq!(Duration::zero(), Duration::from_secs(0));
    assert_eq!(Duration::new(1, 999_999_999).as_millis(), 1999);
    assert_eq!(
        Duration::from_millis(600).checked_add(Duration::from_millis(700)),
        Some(Duration::from_millis(1300))
    );
    assert_eq!(Duration::max().checked_add(Duration::new(0, 1)), None);
    assert_eq!(Duration::max().checked_add(Duration::zero()), Some(Duration::max()));
}

#[test]
fn milliseconds_saturate() {
    assert_eq!(Duration::from_secs(5).saturating_millis(), 5000);
    assert_eq!(Duration::max().saturating_millis(), u64::MAX);
    assert_eq!(Duration::max().as_millis(), 18_446_744_073_709_551_615_999);
}

#[test]
fn durations_are_written_as_the_standard_library_writes_them() {
    let cases = [
        (0, 0),
        (0, 7),
        (0, 999),
        (0, 1000),
        (0, 7250),
        (0, 1_000_000),
        (0, 1_500_000),
        (0, 20_000_001),
        (1, 0),
        (1, 500_000_000),
        (61, 1),
        (u64::MAX, 999_999_999),
    ];
    for (secs, nanos) in cases {
        let expected = format!("{:?}", std::time::Duration::new(secs, nanos));
        assert_eq!(duration_text(secs, nanos), expected);
    }
    assert_eq!(duration_text(0, 7250), "7.25\u{b5}s");
}

#[test]
fn numbers_are_written_in_decimal() {
    let mut out = String::new();
    push_decimal(&mut out, 0);
    push_decimal(&mut out, u64::MAX);
    assert_eq!(out, "018446744073709551615");
    let mut out = String::new();
    push_signed(&mut out, i32::MIN);
    push_signed(&mut out, 42);
    push_optional(&mut out, None);
    push_optional(&mut out, Some(-1));
    assert_eq!(out, "-214748364842NoneSome(-1)");
}
