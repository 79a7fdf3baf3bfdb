use tweetdelete::cli::{is_valid_max_tweet_age, parse_i64, ParseIntError};

#[test]
fn parses_plain_digits() {
    assert_eq!(parse_i64("123"), Ok(123));
    assert_eq!(parse_i64("0"), Ok(0));
    assert_eq!(parse_i64("0042"), Ok(42));
}

#[test]
fn parses_signed_numbers() {
    assert_eq!(parse_i64("-45"), Ok(-45));
    assert_eq!(parse_i64("+42"), Ok(42));
    assert_eq!(parse_i64("-0"), Ok(0));
}

#[test]
fn parses_the_extremes() {
    assert_eq!(parse_i64("9223372036854775807"), Ok(i64::MAX));
    assert_eq!(parse_i64("-9223372036854775808"), Ok(i64::MIN));
}

#[test]
fn rejects_empty_text() {
    assert_eq!(parse_i64(""), Err(ParseIntError::Empty));
}

#[test]
fn rejects_a_bare_sign() {
    assert_eq!(parse_i64("+"), Err(ParseIntError::InvalidDigit));
    assert_eq!(parse_i64("-"), Err(ParseIntError::InvalidDigit));
}

#[test]
fn rejects_stray_characters() {
    assert_eq!(parse_i64("12a"), Err(ParseIntError::InvalidDigit));
    assert_eq!(parse_i64(" 12"), Err(ParseIntError::InvalidDigit));
    assert_eq!(parse_i64("1.5"), Err(ParseIntError::InvalidDigit));
}

#[test]
fn rejects_values_out_of_range() {
    assert_eq!(parse_i64("9223372036854775808"), Err(ParseIntError::TooLarge));
    assert_eq!(parse_i64("-9223372036854775809"), Err(ParseIntError::TooSmall));
    assert_eq!(parse_i64("99999999999999999999999"), Err(ParseIntError::TooLarge));
}

#[test]
fn overflow_is_found_before_a_later_stray_character() {
    assert_eq!(parse_i64("99999999999999999999999x"), Err(ParseIntError::TooLarge));
}

#[test]
fn agrees_with_the_standard_parser() {
    let inputs = [
        "", "+", "-", "0", "-0", "+17", "180", "007", "12a", "a12",
        "9223372036854775807", "9223372036854775808", "-9223372036854775808",
        "-9223372036854775809", "99999999999999999999999x",
    ];
    for text in inputs {
        let std_result = text.parse::<i64>();
        match parse_i64(text) {
            Ok(v) => assert_eq!(std_result, Ok(v), "on {:?}", text),
            Err(kind) => {
                let message = match std_result {
                    Ok(_) => panic!("standard parser accepted {:?}", text),
                    Err(e) => e.to_string(),
                };
                let expected = match kind {
                    ParseIntError::Empty => "cannot parse integer from empty string",
                    ParseIntError::InvalidDigit => "invalid digit found in string",
                    ParseIntError::TooLarge => "number too large to fit in target type",
                    ParseIntError::TooSmall => "number too small to fit in target type",
                };
                assert_eq!(message, expected, "on {:?}", text);
            }
        }
    }
}

#[test]
fn accepts_a_non_negative_number_of_days() {
    assert_eq!(is_valid_max_tweet_age("0"), Ok(()));
    assert_eq!(is_valid_max_tweet_age("180"), Ok(()));
    assert_eq!(is_valid_max_tweet_age("+7"), Ok(()));
}

#[test]
fn rejects_a_negative_number_of_days() {
    assert_eq!(
        is_valid_max_tweet_age("-1"),
        Err(String::from("value cannot be a negative number of days"))
    );
}

#[test]
fn names_each_parse_failure() {
    assert_eq!(
        is_valid_max_tweet_age(""),
        Err(String::from("cannot parse integer from empty string"))
    );
    assert_eq!(
        is_valid_max_tweet_age("abc"),
        Err(String::from("invalid digit found in string"))
    );
    assert_eq!(
        is_valid_max_tweet_age("99999999999999999999999"),
        Err(String::from("number too large to fit in target type"))
    );
    assert_eq!(
        is_valid_max_tweet_age("-99999999999999999999999"),
        Err(String::from("number too small to fit in target type"))
    );
}
