use tweetdelete::render::{i64_to_string, u64_to_string};
use tweetdelete::status::Status;

#[test]
fn renders_zero() {
    assert_eq!(u64_to_string(0), "0");
    assert_eq!(i64_to_string(0), "0");
}

#[test]
fn renders_decimal_digits_in_order() {
    assert_eq!(u64_to_string(12345), "12345");
    assert_eq!(u64_to_string(1000), "1000");
    assert_eq!(u64_to_string(u64::MAX), "18446744073709551615");
}

#[test]
fn renders_negative_numbers_with_a_minus() {
    assert_eq!(i64_to_string(-42), "-42");
    assert_eq!(i64_to_string(i64::MIN), "-9223372036854775808");
    assert_eq!(i64_to_string(i64::MAX), "9223372036854775807");
}

#[test]
fn log_line_has_time_id_and_text() {
    let post = Status::new(42, 1_600_000_000, String::from("hello world"));
    assert_eq!(post.log_line(), "1600000000/42: hello world");
}

#[test]
fn log_line_of_a_pre_epoch_post() {
    let post = Status::new(7, -5, String::from("old"));
    assert_eq!(post.log_line(), "-5/7: old");
}
