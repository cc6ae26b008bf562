use timr::duration::Duration;
use timr::parser::{parse_duration, parse_duration_chars, Field, ParseError};

#[test]
fn test_parse_duration() {
    // ss
    assert_eq!(parse_duration("50").unwrap(), Duration::from_secs(50));
    // mm:ss
    assert_eq!(
        parse_duration("01:30").unwrap(),
        Duration::from_secs(60 + 30)
    );
    // hh:mm:ss
    assert_eq!(
        parse_duration("01:30:00").unwrap(),
        Duration::from_secs(60 * 60 + 30 * 60)
    );
    // errors
    assert!(parse_duration("1:60").is_err()); // invalid seconds
    assert!(parse_duration("60:00").is_err()); // invalid minutes
    assert!(parse_duration("100:00:00").is_err()); // invalid hours
    assert!(parse_duration("abc").is_err()); // invalid input
    assert!(parse_duration("01:02:03:04").is_err()); // too many parts
}

#[test]
fn parse_gives_total_seconds() {
    assert_eq!(
        parse_duration("12:34:56").unwrap(),
        Duration::from_secs(12 * 3600 + 34 * 60 + 56)
    );
    assert_eq!(parse_duration("12:34:56").unwrap().as_millis(), 45_296_000);
    assert_eq!(parse_duration("99:59:59").unwrap(), Duration::from_secs(359_999));
    assert_eq!(parse_duration("0").unwrap(), Duration::zero());
    assert_eq!(parse_duration("00:00:00").unwrap(), Duration::zero());
    assert_eq!(parse_duration("59:59").unwrap(), Duration::from_secs(3599));
    assert_eq!(parse_duration("7:5").unwrap(), Duration::from_secs(425));
}

#[test]
fn parse_round_trip_over_all_fields() {
    for h in 0u64..100 {
        for m in [0u64, 1, 9, 10, 30, 59] {
            for s in [0u64, 1, 9, 10, 45, 59] {
                let text = format!("{:02}:{:02}:{:02}", h, m, s);
                assert_eq!(
                    parse_duration(&text).unwrap(),
                    Duration::from_secs(h * 3600 + m * 60 + s)
                );
            }
        }
    }
    for m in 0u64..60 {
        for s in 0u64..60 {
            let text = format!("{:02}:{:02}", m, s);
            assert_eq!(parse_duration(&text).unwrap(), Duration::from_secs(m * 60 + s));
        }
    }
}

#[test]
fn parse_names_the_field_that_fails() {
    assert_eq!(parse_duration("1:60"), Err(ParseError::TooLarge(Field::Seconds)));
    assert_eq!(parse_duration("60"), Err(ParseError::TooLarge(Field::Seconds)));
    assert_eq!(parse_duration("60:00"), Err(ParseError::TooLarge(Field::Minutes)));
    assert_eq!(parse_duration("100:00:00"), Err(ParseError::TooLarge(Field::Hours)));
    assert_eq!(parse_duration("abc"), Err(ParseError::Invalid(Field::Seconds)));
    assert_eq!(parse_duration("ab:10"), Err(ParseError::Invalid(Field::Minutes)));
    assert_eq!(parse_duration("x:10:10"), Err(ParseError::Invalid(Field::Hours)));
    assert_eq!(parse_duration("01:02:03:04"), Err(ParseError::Format));
    assert_eq!(parse_duration(":::"), Err(ParseError::Format));
}

#[test]
fn parse_examines_seconds_first() {
    assert_eq!(parse_duration("100:60:60"), Err(ParseError::TooLarge(Field::Seconds)));
    assert_eq!(parse_duration("100:60:00"), Err(ParseError::TooLarge(Field::Minutes)));
    assert_eq!(parse_duration("zz:60:xx"), Err(ParseError::Invalid(Field::Seconds)));
}

#[test]
fn parse_turns_down_empty_and_signed_fields() {
    assert_eq!(parse_duration(""), Err(ParseError::Invalid(Field::Seconds)));
    assert_eq!(parse_duration("10:"), Err(ParseError::Invalid(Field::Seconds)));
    assert_eq!(parse_duration(":10"), Err(ParseError::Invalid(Field::Minutes)));
    assert_eq!(parse_duration("-5"), Err(ParseError::Invalid(Field::Seconds)));
    assert_eq!(parse_duration("+"), Err(ParseError::Invalid(Field::Seconds)));
    assert_eq!(parse_duration("5 "), Err(ParseError::Invalid(Field::Seconds)));
    assert_eq!(parse_duration("1.5"), Err(ParseError::Invalid(Field::Seconds)));
    assert_eq!(parse_duration("٣"), Err(ParseError::Invalid(Field::Seconds)));
}

#[test]
fn parse_takes_a_leading_plus_and_zeros() {
    assert_eq!(parse_duration("+5").unwrap(), Duration::from_secs(5));
    assert_eq!(parse_duration("+1:+2:+3").unwrap(), Duration::from_secs(3723));
    assert_eq!(parse_duration("0000000000000000000000000007").unwrap(), Duration::from_secs(7));
}

#[test]
fn parse_agrees_with_the_standard_integer_parser() {
    let samples = [
        "0", "7", "59", "60", "+59", "++5", "-0", "", "+", "18446744073709551615",
        "18446744073709551616", "99999999999999999999999", "5a", "a5", " 5", "05",
    ];
    for text in samples {
        let expected = match text.parse::<u64>() {
            Err(_) => Err(ParseError::Invalid(Field::Seconds)),
            Ok(v) if v < 60 => Ok(Duration::from_secs(v)),
            Ok(_) => Err(ParseError::TooLarge(Field::Seconds)),
        };
        assert_eq!(parse_duration(text), expected, "{:?}", text);
    }
}

#[test]
fn parse_numbers_beyond_64_bits_are_no_numbers() {
    assert_eq!(
        parse_duration("18446744073709551615"),
        Err(ParseError::TooLarge(Field::Seconds))
    );
    assert_eq!(
        parse_duration("18446744073709551616"),
        Err(ParseError::Invalid(Field::Seconds))
    );
    assert_eq!(
        parse_duration("184467440737095516150:00:00"),
        Err(ParseError::Invalid(Field::Hours))
    );
}

#[test]
fn parse_chars_agrees_with_parse() {
    for text in ["50", "01:30", "01:30:00", "1:60", "abc", "01:02:03:04", ""] {
        let chars: Vec<char> = text.chars().collect();
        assert_eq!(parse_duration_chars(&chars), parse_duration(text));
    }
}

#[test]
fn field_limits() {
    assert_eq!(Field::Seconds.limit(), 60);
    assert_eq!(Field::Minutes.limit(), 60);
    assert_eq!(Field::Hours.limit(), 100);
}

#[test]
fn error_messages() {
    assert_eq!(ParseError::Invalid(Field::Seconds).message(), "Invalid seconds");
    assert_eq!(ParseError::Invalid(Field::Minutes).message(), "Invalid minutes");
    assert_eq!(ParseError::Invalid(Field::Hours).message(), "Invalid hours");
    assert_eq!(
        ParseError::TooLarge(Field::Seconds).message(),
        "Seconds must be less than 60."
    );
    assert_eq!(
        ParseError::TooLarge(Field::Minutes).message(),
        "Minutes must be less than 60."
    );
    assert_eq!(ParseError::TooLarge(Field::Hours).message(), "Hours must be less than 100.");
    assert_eq!(
        ParseError::Format.message(),
        "Invalid time format. Use 'ss', mm:ss, or hh:mm:ss"
    );
}
