use locomotion::fixed::{mul_scaled, saturate, SCALE};

#[test]
fn one_unit_is_a_million_steps() {
    assert_eq!(SCALE, 1_000_000);
}

#[test]
fn product_of_whole_numbers_is_exact() {
    assert_eq!(mul_scaled(1_500_000, 2_000_000), 3_000_000);
    assert_eq!(mul_scaled(-1_500_000, 2_000_000), -3_000_000);
    assert_eq!(mul_scaled(-1_500_000, -2_000_000), 3_000_000);
    assert_eq!(mul_scaled(0, 2_000_000), 0);
}

#[test]
fn product_rounds_toward_zero_on_both_sides() {
    // 0.707107 * 1.5 = 1.0606605
    assert_eq!(mul_scaled(707_107, 1_500_000), 1_060_660);
    assert_eq!(mul_scaled(-707_107, 1_500_000), -1_060_660);
    assert_eq!(mul_scaled(707_107, -1_500_000), -1_060_660);
    // less than one step in magnitude
    assert_eq!(mul_scaled(999, 999), 0);
    assert_eq!(mul_scaled(-999, 999), 0);
    assert_eq!(mul_scaled(1_000, 1_000), 1);
    assert_eq!(mul_scaled(-1_000, 1_000), -1);
}

#[test]
fn product_of_extremes_does_not_overflow() {
    assert_eq!(mul_scaled(i64::MAX, i64::MAX), 85070591730234615847396907784232);
    assert_eq!(mul_scaled(i64::MIN, i64::MAX), -85070591730234615856620279821087);
    assert_eq!(mul_scaled(i64::MIN, i64::MIN), 85070591730234615865843651857942);
}

#[test]
fn saturate_keeps_what_fits() {
    assert_eq!(saturate(0), 0);
    assert_eq!(saturate(-42), -42);
    assert_eq!(saturate(i64::MAX as i128), i64::MAX);
    assert_eq!(saturate(i64::MIN as i128), i64::MIN);
}

#[test]
fn saturate_cuts_what_does_not_fit() {
    assert_eq!(saturate(i64::MAX as i128 + 1), i64::MAX);
    assert_eq!(saturate(i64::MIN as i128 - 1), i64::MIN);
    assert_eq!(saturate(i128::MAX), i64::MAX);
    assert_eq!(saturate(i128::MIN), i64::MIN);
}
