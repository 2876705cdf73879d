use sagiri::decimal::{i64_to_string, u64_to_string, usize_to_string};

#[test]
fn small_values_render_as_one_digit() {
    assert_eq!(u64_to_string(0), "0");
    assert_eq!(u64_to_string(7), "7");
    assert_eq!(i64_to_string(0), "0");
}

#[test]
fn multi_digit_values_render_most_significant_first() {
    assert_eq!(u64_to_string(120), "120");
    assert_eq!(i64_to_string(10_500), "10500");
    assert_eq!(usize_to_string(42), "42");
}

#[test]
fn negative_values_carry_the_sign() {
    assert_eq!(i64_to_string(-1), "-1");
    assert_eq!(i64_to_string(-9_001), "-9001");
}

#[test]
fn the_extremes_render_exactly() {
    assert_eq!(i64_to_string(i64::MAX), "9223372036854775807");
    assert_eq!(i64_to_string(i64::MIN), "-9223372036854775808");
    assert_eq!(u64_to_string(u64::MAX), "18446744073709551615");
}
