use mun::digits::{format_u64, parse_u64, IntParseError};
use mun::error::CliError;
use mun::runtime::{runtime_options, DEFAULT_DELAY_MS};

fn s(text: &str) -> String {
    text.to_string()
}

#[test]
fn delay_flag_configures_debounce() {
    let o = runtime_options(s("mod.munlib"), Some(&s("25"))).unwrap();
    assert_eq!(o.delay_ms, 25);
    assert_eq!(o.library_path, "mod.munlib");
}

#[test]
fn delay_absent_uses_default() {
    let o = runtime_options(s("mod.munlib"), None).unwrap();
    assert_eq!(o.delay_ms, DEFAULT_DELAY_MS);
    assert_eq!(o.delay_ms, 10);
}

#[test]
fn delay_malformed_is_parse_error() {
    let e = runtime_options(s("mod.munlib"), Some(&s("abc"))).unwrap_err();
    assert!(matches!(e, CliError::InvalidDelay { cause: IntParseError::InvalidDigit }));
    assert_eq!(e.message(), "invalid digit found in string");
}

#[test]
fn delay_empty_is_parse_error() {
    let e = runtime_options(s("mod.munlib"), Some(&s(""))).unwrap_err();
    assert!(matches!(e, CliError::InvalidDelay { cause: IntParseError::Empty }));
    assert_eq!(e.message(), "cannot parse integer from empty string");
}

#[test]
fn parse_u64_accepts_plain_and_signed_digits() {
    assert_eq!(parse_u64("25"), Ok(25));
    assert_eq!(parse_u64("0"), Ok(0));
    assert_eq!(parse_u64("+7"), Ok(7));
    assert_eq!(parse_u64("18446744073709551615"), Ok(u64::MAX));
}

#[test]
fn parse_u64_rejects_as_std_does() {
    assert_eq!(parse_u64(""), Err(IntParseError::Empty));
    assert_eq!(parse_u64("+"), Err(IntParseError::InvalidDigit));
    assert_eq!(parse_u64("12x"), Err(IntParseError::InvalidDigit));
    assert_eq!(parse_u64("-3"), Err(IntParseError::InvalidDigit));
    assert_eq!(parse_u64("18446744073709551616"), Err(IntParseError::PosOverflow));
    assert_eq!(parse_u64("99999999999999999999x"), Err(IntParseError::PosOverflow));
}

#[test]
fn parse_of_rendered_value_round_trips() {
    for x in [0, 1, 9, 10, 25, 12345, u64::MAX] {
        assert_eq!(parse_u64(&format_u64(x)), Ok(x));
    }
}

#[test]
fn parse_u64_agrees_with_std() {
    for case in ["", "+", "10", "+25", "007", "18446744073709551615", "18446744073709551616", "1a"]
    {
        let ours = parse_u64(case);
        let std_result = case.parse::<u64>();
        match (ours, std_result) {
            (Ok(a), Ok(b)) => assert_eq!(a, b),
            (Err(_), Err(_)) => {}
            (a, b) => panic!("mismatch on {:?}: {:?} vs {:?}", case, a, b),
        }
    }
}
