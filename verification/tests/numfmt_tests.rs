use gotify_relay::numfmt::{parse_priority, u64_to_string};
use gotify_relay::split::split_commas;

#[test]
fn renders_zero() {
    assert_eq!(u64_to_string(0), "0");
}

#[test]
fn renders_single_digit() {
    assert_eq!(u64_to_string(7), "7");
}

#[test]
fn renders_round_number() {
    assert_eq!(u64_to_string(100), "100");
}

#[test]
fn renders_sample_size() {
    assert_eq!(u64_to_string(2048), "2048");
}

#[test]
fn renders_largest_counter() {
    assert_eq!(u64_to_string(18446744073709551615), "18446744073709551615");
}

#[test]
fn parses_plain_number() {
    assert_eq!(parse_priority("10"), 10);
    assert_eq!(parse_priority("0"), 0);
    assert_eq!(parse_priority("123"), 123);
}

#[test]
fn parses_signed_numbers() {
    assert_eq!(parse_priority("-3"), -3);
    assert_eq!(parse_priority("+7"), 7);
    assert_eq!(parse_priority("-0"), 0);
}

#[test]
fn parses_extreme_values() {
    assert_eq!(parse_priority("2147483647"), 2147483647);
    assert_eq!(parse_priority("-2147483648"), -2147483648);
}

#[test]
fn out_of_range_defaults_to_ten() {
    assert_eq!(parse_priority("2147483648"), 10);
    assert_eq!(parse_priority("-2147483649"), 10);
    assert_eq!(parse_priority("99999999999"), 10);
}

#[test]
fn malformed_defaults_to_ten() {
    assert_eq!(parse_priority(""), 10);
    assert_eq!(parse_priority("abc"), 10);
    assert_eq!(parse_priority("-"), 10);
    assert_eq!(parse_priority("+"), 10);
    assert_eq!(parse_priority("1a"), 10);
    assert_eq!(parse_priority(" 5"), 10);
    assert_eq!(parse_priority("5 "), 10);
}

#[test]
fn splits_simple_list() {
    assert_eq!(split_commas("a,b,c"), vec!["a", "b", "c"]);
}

#[test]
fn splits_empty_string_to_one_empty_piece() {
    assert_eq!(split_commas(""), vec![""]);
}

#[test]
fn splits_keep_empty_pieces() {
    assert_eq!(split_commas("a,,b"), vec!["a", "", "b"]);
    assert_eq!(split_commas(",a,"), vec!["", "a", ""]);
}

#[test]
fn splits_single_key() {
    assert_eq!(split_commas("duration"), vec!["duration"]);
}
