use resource_sim::error::NumericErrorKind;
use resource_sim::error::ResourceError;
use resource_sim::size::chars_of;
use resource_sim::size::decode_size;
use resource_sim::size::multiplier_of;
use resource_sim::size::parse_decimal;
use resource_sim::size::GIB;
use resource_sim::size::KIB;
use resource_sim::size::MIB;

fn invalid_number(text: &str, kind: NumericErrorKind) -> Result<(u64, u64), ResourceError> {
    Err(ResourceError::InvalidNumericValue {
        text: text.to_string(),
        kind,
    })
}

#[test]
fn decode_round_trip() {
    assert_eq!(decode_size("100B"), Ok((100, 1)));
    assert_eq!(decode_size("2G"), Ok((2, 1073741824)));
    assert_eq!(decode_size("0K"), Ok((0, 1024)));
}

#[test]
fn decode_each_suffix() {
    assert_eq!(decode_size("12B"), Ok((12, 1)));
    assert_eq!(decode_size("12K"), Ok((12, 1024)));
    assert_eq!(decode_size("12M"), Ok((12, 1024 * 1024)));
    assert_eq!(decode_size("12G"), Ok((12, 1024 * 1024 * 1024)));
}

#[test]
fn decode_largest_number() {
    assert_eq!(decode_size("18446744073709551615B"), Ok((u64::MAX, 1)));
    assert_eq!(decode_size("18446744073709551615G"), Ok((u64::MAX, GIB)));
}

#[test]
fn decode_leading_zeros() {
    assert_eq!(decode_size("007K"), Ok((7, 1024)));
    assert_eq!(
        decode_size("000000000000000000000000000000000001M"),
        Ok((1, MIB))
    );
}

#[test]
fn decode_single_digit() {
    assert_eq!(decode_size("9B"), Ok((9, 1)));
}

#[test]
fn decode_without_suffix() {
    assert_eq!(decode_size("10"), Err(ResourceError::InvalidSuffix));
    assert_eq!(decode_size(""), Err(ResourceError::InvalidSuffix));
    assert_eq!(decode_size("1024"), Err(ResourceError::InvalidSuffix));
}

#[test]
fn decode_unknown_suffix() {
    assert_eq!(decode_size("10X"), Err(ResourceError::InvalidSuffix));
    assert_eq!(decode_size("10T"), Err(ResourceError::InvalidSuffix));
    assert_eq!(decode_size("abc"), Err(ResourceError::InvalidSuffix));
}

#[test]
fn decode_suffix_is_case_sensitive() {
    for s in ["10b", "10k", "10m", "10g"] {
        assert_eq!(decode_size(s), Err(ResourceError::InvalidSuffix), "{s}");
    }
}

#[test]
fn decode_trailing_whitespace() {
    assert_eq!(decode_size("10K "), Err(ResourceError::InvalidSuffix));
    assert_eq!(decode_size("10K\n"), Err(ResourceError::InvalidSuffix));
}

#[test]
fn decode_suffix_before_number() {
    assert_eq!(decode_size("K10"), Err(ResourceError::InvalidSuffix));
}

#[test]
fn decode_non_ascii_last_character() {
    assert_eq!(decode_size("10\u{212A}"), Err(ResourceError::InvalidSuffix));
    assert_eq!(decode_size("10é"), Err(ResourceError::InvalidSuffix));
}

#[test]
fn decode_suffix_alone() {
    for s in ["B", "K", "M", "G"] {
        assert_eq!(decode_size(s), invalid_number("", NumericErrorKind::Empty), "{s}");
    }
}

#[test]
fn decode_non_digit_prefix() {
    assert_eq!(
        decode_size("abcK"),
        invalid_number("abc", NumericErrorKind::InvalidDigit)
    );
    assert_eq!(
        decode_size("12a4M"),
        invalid_number("12a4", NumericErrorKind::InvalidDigit)
    );
}

#[test]
fn decode_fraction() {
    assert_eq!(
        decode_size("1.5M"),
        invalid_number("1.5", NumericErrorKind::InvalidDigit)
    );
}

#[test]
fn decode_sign() {
    assert_eq!(
        decode_size("+5K"),
        invalid_number("+5", NumericErrorKind::InvalidDigit)
    );
    assert_eq!(
        decode_size("-5K"),
        invalid_number("-5", NumericErrorKind::InvalidDigit)
    );
    assert_eq!(
        decode_size("+K"),
        invalid_number("+", NumericErrorKind::InvalidDigit)
    );
}

#[test]
fn decode_inner_whitespace() {
    assert_eq!(
        decode_size(" 5K"),
        invalid_number(" 5", NumericErrorKind::InvalidDigit)
    );
    assert_eq!(
        decode_size("5 K"),
        invalid_number("5 ", NumericErrorKind::InvalidDigit)
    );
}

#[test]
fn decode_combined_units() {
    assert_eq!(
        decode_size("1K5M"),
        invalid_number("1K5", NumericErrorKind::InvalidDigit)
    );
    assert_eq!(
        decode_size("1KB"),
        invalid_number("1K", NumericErrorKind::InvalidDigit)
    );
}

#[test]
fn decode_digits_that_are_not_ascii() {
    assert_eq!(
        decode_size("\u{0661}\u{0662}K"),
        invalid_number("\u{0661}\u{0662}", NumericErrorKind::InvalidDigit)
    );
    assert_eq!(
        decode_size("１２G"),
        invalid_number("１２", NumericErrorKind::InvalidDigit)
    );
}

#[test]
fn decode_number_too_large() {
    assert_eq!(
        decode_size("18446744073709551616B"),
        invalid_number("18446744073709551616", NumericErrorKind::Overflow)
    );
    assert_eq!(
        decode_size("99999999999999999999999999G"),
        invalid_number("99999999999999999999999999", NumericErrorKind::Overflow)
    );
}

#[test]
fn decode_first_fault_from_the_left_decides() {
    assert_eq!(
        decode_size("99999999999999999999999999xG"),
        invalid_number("99999999999999999999999999x", NumericErrorKind::Overflow)
    );
    assert_eq!(
        decode_size("18446744073709551616xK"),
        invalid_number("18446744073709551616x", NumericErrorKind::Overflow)
    );
    assert_eq!(
        decode_size("18446744073709551615xK"),
        invalid_number("18446744073709551615x", NumericErrorKind::InvalidDigit)
    );
    assert_eq!(
        decode_size("9x99999999999999999999999G"),
        invalid_number("9x99999999999999999999999", NumericErrorKind::InvalidDigit)
    );
}

#[test]
fn multiplier_of_each_suffix() {
    assert_eq!(multiplier_of('B'), Some(1));
    assert_eq!(multiplier_of('K'), Some(1024));
    assert_eq!(multiplier_of('M'), Some(1_048_576));
    assert_eq!(multiplier_of('G'), Some(1_073_741_824));
    assert_eq!(KIB, 1024);
    assert_eq!(MIB, 1024 * 1024);
    assert_eq!(GIB, 1024 * 1024 * 1024);
}

#[test]
fn multiplier_of_other_characters() {
    for c in ['b', 'k', 'm', 'g', 'T', 'X', '0', ' ', 'é'] {
        assert_eq!(multiplier_of(c), None, "{c}");
    }
}

#[test]
fn parse_decimal_values() {
    assert_eq!(parse_decimal(&['0']), Ok(0));
    assert_eq!(parse_decimal(&['4', '2']), Ok(42));
    assert_eq!(parse_decimal(&['0', '0', '9']), Ok(9));
    let max: Vec<char> = "18446744073709551615".chars().collect();
    assert_eq!(parse_decimal(&max), Ok(u64::MAX));
}

#[test]
fn parse_decimal_failures() {
    assert_eq!(parse_decimal(&[]), Err(NumericErrorKind::Empty));
    assert_eq!(parse_decimal(&['1', 'x']), Err(NumericErrorKind::InvalidDigit));
    assert_eq!(parse_decimal(&['/']), Err(NumericErrorKind::InvalidDigit));
    assert_eq!(parse_decimal(&[':']), Err(NumericErrorKind::InvalidDigit));
    let over: Vec<char> = "18446744073709551616".chars().collect();
    assert_eq!(parse_decimal(&over), Err(NumericErrorKind::Overflow));
    let long: Vec<char> = "184467440737095516150".chars().collect();
    assert_eq!(parse_decimal(&long), Err(NumericErrorKind::Overflow));
    let tail: Vec<char> = "18446744073709551616-".chars().collect();
    assert_eq!(parse_decimal(&tail), Err(NumericErrorKind::Overflow));
    let head: Vec<char> = "-18446744073709551616".chars().collect();
    assert_eq!(parse_decimal(&head), Err(NumericErrorKind::InvalidDigit));
}

#[test]
fn chars_of_keeps_every_character() {
    assert_eq!(chars_of(""), Vec::<char>::new());
    assert_eq!(chars_of("10K"), vec!['1', '0', 'K']);
    assert_eq!(chars_of("aé１"), vec!['a', 'é', '１']);
}
