use worms::fixed::{scale, UNIT};
use worms::trig::Trig;

#[test]
fn scale_multiplies_fixed_point_numbers() {
    assert_eq!(scale(2 * UNIT, 3 * UNIT), 6 * UNIT);
    assert_eq!(scale(500_000, 6_000_000), 3_000_000);
    assert_eq!(scale(UNIT, 123_456_789), 123_456_789);
    assert_eq!(scale(0, 123_456_789), 0);
}

#[test]
fn scale_rounds_toward_zero() {
    assert_eq!(scale(909_297, 30_000), 27_278);
    assert_eq!(scale(-909_297, 30_000), -27_278);
    assert_eq!(scale(1, 999_999), 0);
    assert_eq!(scale(-1, 999_999), 0);
}

#[test]
fn scale_reaches_the_ends_of_the_range() {
    assert_eq!(scale(i64::MAX, UNIT), i64::MAX);
    assert_eq!(scale(i64::MIN, UNIT), i64::MIN);
    assert_eq!(scale(4_000_000_000_000, 2_000_000_000_000), 8_000_000_000_000_000_000);
    assert_eq!(scale(-4_000_000_000_000, 2_000_000_000_000), -8_000_000_000_000_000_000);
}

#[test]
fn trig_new_keeps_values_in_range() {
    let sample: Trig = Trig::new(-UNIT, UNIT).expect("both values are in range");
    assert_eq!(sample.sin(), -UNIT);
    assert_eq!(sample.cos(), UNIT);
    let middle: Trig = Trig::new(123, -456).expect("both values are in range");
    assert_eq!(middle.sin(), 123);
    assert_eq!(middle.cos(), -456);
}

#[test]
fn trig_new_refuses_values_out_of_range() {
    assert!(Trig::new(UNIT + 1, 0).is_none());
    assert!(Trig::new(0, UNIT + 1).is_none());
    assert!(Trig::new(-UNIT - 1, 0).is_none());
    assert!(Trig::new(0, -UNIT - 1).is_none());
    assert!(Trig::new(i64::MIN, i64::MAX).is_none());
}
