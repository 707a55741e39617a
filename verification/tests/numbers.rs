use slack_uploader::numbers::u64_to_string;

#[test]
fn renders_zero() {
    assert_eq!(u64_to_string(0), "0");
}

#[test]
fn renders_single_digit() {
    assert_eq!(u64_to_string(7), "7");
}

#[test]
fn renders_poll_budget() {
    assert_eq!(u64_to_string(150), "150");
}

#[test]
fn renders_round_numbers_without_stray_digits() {
    assert_eq!(u64_to_string(100), "100");
    assert_eq!(u64_to_string(2000), "2000");
    assert_eq!(u64_to_string(2001), "2001");
}

#[test]
fn renders_largest_value() {
    assert_eq!(u64_to_string(u64::MAX), "18446744073709551615");
}
