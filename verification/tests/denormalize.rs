//! Unwrapping angles counted in steps.

use angle_wrap::{denormalize_angle, try_denormalize_angle, AngleError};

/// Ten steps to half a turn: one step is a tenth of it.
const TENTHS: i64 = 10;

#[test]
fn unwraps_tenths_of_half_a_turn() {
    assert_eq!(denormalize_angle(-9, -7, TENTHS), -7);
    assert_eq!(denormalize_angle(-9, 7, TENTHS), -13);
    assert_eq!(denormalize_angle(-9, -13, TENTHS), -13);
    assert_eq!(denormalize_angle(9, -7, TENTHS), 13);
    assert_eq!(denormalize_angle(9, 7, TENTHS), 7);
    assert_eq!(denormalize_angle(9, 13, TENTHS), 13);
    assert_eq!(denormalize_angle(11, -9, TENTHS), 11);
    assert_eq!(denormalize_angle(-11, 9, TENTHS), -11);
    assert_eq!(denormalize_angle(21, -1, TENTHS), 19);
    assert_eq!(denormalize_angle(31, -9, TENTHS), 31);
    assert_eq!(denormalize_angle(-31, 9, TENTHS), -31);
}

#[test]
fn an_angle_in_the_window_is_unchanged() {
    assert_eq!(denormalize_angle(100, 100, TENTHS), 100);
    assert_eq!(denormalize_angle(100, 95, TENTHS), 95);
    assert_eq!(denormalize_angle(100, 109, TENTHS), 109);
    assert_eq!(denormalize_angle(100, 90, TENTHS), 90);
    assert_eq!(denormalize_angle(100, 110, TENTHS), 110);
}

#[test]
fn walks_over_many_turns() {
    assert_eq!(denormalize_angle(20_003, 5, TENTHS), 20_005);
    assert_eq!(denormalize_angle(-20_003, 5, TENTHS), -19_995);
    assert_eq!(denormalize_angle(20_003, -9, TENTHS), 20_011);
    assert_eq!(denormalize_angle(0, 20_005, TENTHS), 5);
    assert_eq!(denormalize_angle(0, -20_005, TENTHS), -5);
}

#[test]
fn a_tie_is_settled_on_the_side_of_the_new_angle() {
    // Both -10 and 10 point the way of 30 and lie half a turn from 0.
    assert_eq!(denormalize_angle(0, 30, TENTHS), 10);
    assert_eq!(denormalize_angle(0, -30, TENTHS), -10);
    assert_eq!(denormalize_angle(0, 10, TENTHS), 10);
    assert_eq!(denormalize_angle(0, -10, TENTHS), -10);
    assert_eq!(denormalize_angle(5, 55, TENTHS), 15);
    assert_eq!(denormalize_angle(5, -45, TENTHS), -5);
}

#[test]
fn unwraps_a_sequence_of_wrapped_samples() {
    // A steady rotation of 7 steps per sample, measured wrapped.
    let wrapped: [i64; 8] = [0, 7, -6, 1, 8, -5, 2, 9];
    let mut previous: i64 = 0;
    let mut step: i64 = 0;
    for sample in wrapped {
        let unwrapped: i64 = denormalize_angle(previous, sample, TENTHS);
        assert_eq!(unwrapped, 7 * step);
        previous = unwrapped;
        step += 1;
    }
}

#[test]
fn unwraps_next_to_the_limits_of_the_integer_range() {
    assert_eq!(denormalize_angle(i64::MAX - 10, i64::MAX - 45, TENTHS), i64::MAX - 5);
    assert_eq!(denormalize_angle(i64::MAX - 10, i64::MAX - 40, TENTHS), i64::MAX - 20);
    assert_eq!(denormalize_angle(i64::MAX - 10, i64::MAX, TENTHS), i64::MAX);
    assert_eq!(denormalize_angle(i64::MIN + 10, i64::MIN + 45, TENTHS), i64::MIN + 5);
    assert_eq!(denormalize_angle(i64::MIN + 10, i64::MIN + 40, TENTHS), i64::MIN + 20);
    assert_eq!(denormalize_angle(i64::MIN + 10, i64::MIN, TENTHS), i64::MIN);
}

#[test]
fn unwraps_degrees() {
    assert_eq!(denormalize_angle(350, -170, 180), 190);
    assert_eq!(denormalize_angle(725, 10, 180), 730);
    assert_eq!(denormalize_angle(-725, 10, 180), -710);
}

#[test]
fn checked_unwrapping_agrees_on_valid_input() {
    assert_eq!(try_denormalize_angle(-9, 7, TENTHS), Ok(-13));
    assert_eq!(try_denormalize_angle(21, -1, TENTHS), Ok(19));
    assert_eq!(try_denormalize_angle(i64::MAX - 10, i64::MAX - 45, TENTHS), Ok(i64::MAX - 5));
    assert_eq!(try_denormalize_angle(i64::MIN + 10, i64::MIN + 45, TENTHS), Ok(i64::MIN + 5));
}

#[test]
fn checked_unwrapping_rejects_an_invalid_half_turn() {
    assert_eq!(try_denormalize_angle(0, 5, 0), Err(AngleError::InvalidInput));
    assert_eq!(try_denormalize_angle(0, 5, -10), Err(AngleError::InvalidInput));
    assert_eq!(try_denormalize_angle(0, 5, i64::MAX / 2 + 1), Err(AngleError::InvalidInput));
}

#[test]
fn checked_unwrapping_rejects_a_window_that_does_not_fit() {
    assert_eq!(try_denormalize_angle(i64::MAX - 9, 3, TENTHS), Err(AngleError::InvalidInput));
    assert_eq!(try_denormalize_angle(i64::MAX, 3, TENTHS), Err(AngleError::InvalidInput));
    assert_eq!(try_denormalize_angle(i64::MIN + 9, 3, TENTHS), Err(AngleError::InvalidInput));
    assert_eq!(try_denormalize_angle(i64::MIN, 3, TENTHS), Err(AngleError::InvalidInput));
}
