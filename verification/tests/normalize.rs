use evdev_absinfo::absinfo::{apply_flatness, normalize, AbsInfo, InputAbsInfo, JoystickAbsInfo};
use evdev_absinfo::error::Error;

fn record(value: i32, minimum: i32, maximum: i32, flat: i32) -> InputAbsInfo {
    InputAbsInfo { value, minimum, maximum, fuzz: 0, flat, resolution: 0 }
}

#[test]
fn centre_reading_falls_in_the_deadzone() {
    assert_eq!(normalize(500, 0, 1000, 100), Ok(0));
    assert_eq!(AbsInfo::new(0, record(500, 0, 1000, 100)).get_normalized_value(), 0);
    assert_eq!(JoystickAbsInfo(record(500, 0, 1000, 100)).normalized_value(), 0);
}

#[test]
fn centre_reading_without_deadzone_is_minus_one() {
    assert_eq!(normalize(500, 0, 1000, 0), Ok(-1));
}

#[test]
fn high_reading_keeps_its_proportion() {
    assert_eq!(normalize(900, 0, 1000, 100), Ok(26213));
    assert_eq!(AbsInfo::new(3, record(900, 0, 1000, 100)).get_normalized_value(), 26213);
    assert_eq!(record(900, 0, 1000, 100).normalize(), Ok(26213));
}

#[test]
fn endpoints_are_exact_on_a_zero_based_range() {
    assert_eq!(normalize(0, 0, 1000, 0), Ok(-32768));
    assert_eq!(normalize(1000, 0, 1000, 0), Ok(32767));
    assert_eq!(normalize(0, 0, 1, 0), Ok(-32768));
    assert_eq!(normalize(1, 0, 1, 0), Ok(32767));
    assert_eq!(normalize(i32::MAX, 0, i32::MAX, 0), Ok(32767));
}

#[test]
fn full_sixteen_bit_range_is_the_identity() {
    assert_eq!(normalize(-32768, -32768, 32767, 0), Ok(-32768));
    assert_eq!(normalize(32767, -32768, 32767, 0), Ok(32767));
    assert_eq!(normalize(1234, -32768, 32767, 0), Ok(1234));
    assert_eq!(normalize(-1234, -32768, 32767, 0), Ok(-1234));
}

#[test]
fn normalize_never_decreases_without_deadzone() {
    let mut last = i16::MIN;
    for value in -10..=265 {
        let now = normalize(value, 0, 255, 0).unwrap();
        assert!(now >= last);
        last = now;
    }
    assert_eq!(last, 32767);
}

#[test]
fn readings_outside_the_range_are_clamped() {
    assert_eq!(normalize(-5, 0, 1000, 0), normalize(0, 0, 1000, 0));
    assert_eq!(normalize(2000, 0, 1000, 0), normalize(1000, 0, 1000, 0));
    assert_eq!(normalize(i32::MIN, 0, 1000, 0), Ok(-32768));
    assert_eq!(normalize(i32::MAX, 0, 1000, 0), Ok(32767));
}

#[test]
fn empty_and_reversed_ranges_are_invalid() {
    assert_eq!(normalize(5, 10, 10, 0), Err(Error::InvalidRange));
    assert_eq!(normalize(5, 10, 0, 0), Err(Error::InvalidRange));
    assert_eq!(normalize(0, 0, 0, 100), Err(Error::InvalidRange));
    assert_eq!(normalize(-1, 0, -1, 0), Err(Error::InvalidRange));
    assert_eq!(normalize(0, i32::MAX, i32::MIN, 0), Err(Error::InvalidRange));
    assert_eq!(record(5, 10, 10, 0).normalize(), Err(Error::InvalidRange));
}

#[test]
fn rescaled_value_outside_sixteen_bits_is_unrepresentable() {
    assert_eq!(normalize(200, 100, 200, 0), Err(Error::Unrepresentable));
    assert_eq!(normalize(100, 100, 200, 0), Ok(32667));
    assert_eq!(normalize(-1000, -1000, 1000, 0), Err(Error::Unrepresentable));
    assert_eq!(normalize(1000, -1000, 1000, 0), Ok(999));
}

#[test]
fn division_rounds_toward_zero() {
    assert_eq!(normalize(-10, -1000, 1000, 0), Ok(-32095));
    assert_eq!(normalize(10, -1000, 1000, 0), Ok(-31441));
}

#[test]
fn deadzone_band_is_inclusive() {
    assert_eq!(apply_flatness(50, 100), 0);
    assert_eq!(apply_flatness(-50, 100), 0);
    assert_eq!(apply_flatness(51, 100), 51);
    assert_eq!(apply_flatness(-51, 100), -51);
    assert_eq!(apply_flatness(0, 0), 0);
    assert_eq!(apply_flatness(1, 0), 1);
    assert_eq!(apply_flatness(-1, 0), -1);
}

#[test]
fn odd_flat_reaches_one_further_below_zero() {
    assert_eq!(apply_flatness(-2, 3), 0);
    assert_eq!(apply_flatness(-3, 3), -3);
    assert_eq!(apply_flatness(1, 3), 0);
    assert_eq!(apply_flatness(2, 3), 2);
}

#[test]
fn negative_flat_leaves_no_deadzone() {
    assert_eq!(apply_flatness(0, -4), 0);
    assert_eq!(apply_flatness(1, -4), 1);
    assert_eq!(apply_flatness(-1, -4), -1);
    assert_eq!(apply_flatness(2, -4), 2);
    assert_eq!(apply_flatness(5, i32::MIN), 5);
    assert_eq!(apply_flatness(-5, -1), -5);
}

#[test]
fn widest_flat_swallows_every_value() {
    assert_eq!(apply_flatness(i16::MAX, i32::MAX), 0);
    assert_eq!(apply_flatness(i16::MIN, i32::MAX), 0);
}

#[test]
fn wider_flat_never_shrinks_the_zero_set() {
    for flat in 0..200 {
        for value in 400..600 {
            if normalize(value, 0, 1000, flat) == Ok(0) {
                assert_eq!(normalize(value, 0, 1000, flat + 1), Ok(0));
            }
        }
    }
}

#[test]
fn zero_set_is_an_interval() {
    let zeroes: Vec<i32> =
        (0..=1000).filter(|&value| normalize(value, 0, 1000, 100) == Ok(0)).collect();
    assert_eq!(zeroes.first(), Some(&500));
    assert_eq!(zeroes.last(), Some(&500));
    let zeroes: Vec<i32> =
        (0..=1000).filter(|&value| normalize(value, 0, 1000, 1000) == Ok(0)).collect();
    assert_eq!(zeroes, (493..=507).collect::<Vec<i32>>());
}

#[test]
fn zeroed_record_is_all_zeroes() {
    assert_eq!(InputAbsInfo::zeroed(), record(0, 0, 0, 0));
    assert_eq!(AbsInfo::new(7, InputAbsInfo::zeroed()).axis(), 7);
}
