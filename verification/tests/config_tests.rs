use stress_test_cli::config::{parse_args, parse_i32, ArgError, Flag};

fn args(items: &[&str]) -> Vec<String> {
    items.iter().map(|s| s.to_string()).collect()
}

#[test]
fn defaults_when_no_flags() {
    let c = parse_args(&args(&["prog"])).unwrap();
    assert_eq!(c.duration_seconds, 10);
    assert_eq!(c.concurrency, 1);
    assert_eq!(c.url, "http://localhost:3000");
}

#[test]
fn defaults_on_empty_vector() {
    let c = parse_args(&args(&[])).unwrap();
    assert_eq!(c.duration_seconds, 10);
    assert_eq!(c.concurrency, 1);
    assert_eq!(c.url, "http://localhost:3000");
}

#[test]
fn all_three_flags_resolved() {
    let c = parse_args(&args(&["prog", "-t", "5", "-c", "3", "-u", "http://example.com"]))
        .unwrap();
    assert_eq!(c.duration_seconds, 5);
    assert_eq!(c.concurrency, 3);
    assert_eq!(c.url, "http://example.com");
}

#[test]
fn later_flag_overrides_earlier() {
    let c = parse_args(&args(&["prog", "-t", "5", "-t", "7"])).unwrap();
    assert_eq!(c.duration_seconds, 7);
}

#[test]
fn unrecognized_flags_ignored() {
    let c = parse_args(&args(&["prog", "-x", "9", "extra"])).unwrap();
    assert_eq!(c.duration_seconds, 10);
    assert_eq!(c.concurrency, 1);
    assert_eq!(c.url, "http://localhost:3000");
}

#[test]
fn missing_value_for_time() {
    let e = parse_args(&args(&["prog", "-t"])).unwrap_err();
    assert_eq!(e, ArgError::MissingValue(Flag::Time));
}

#[test]
fn missing_value_for_concurrency() {
    let e = parse_args(&args(&["prog", "-c"])).unwrap_err();
    assert_eq!(e, ArgError::MissingValue(Flag::Concurrency));
}

#[test]
fn missing_value_for_url() {
    let e = parse_args(&args(&["prog", "-u"])).unwrap_err();
    assert_eq!(e, ArgError::MissingValue(Flag::Url));
}

#[test]
fn non_integer_time() {
    let e = parse_args(&args(&["prog", "-t", "abc"])).unwrap_err();
    assert_eq!(e, ArgError::NotAnInteger(Flag::Time));
}

#[test]
fn non_integer_concurrency() {
    let e = parse_args(&args(&["prog", "-c", "1.5"])).unwrap_err();
    assert_eq!(e, ArgError::NotAnInteger(Flag::Concurrency));
}

#[test]
fn flag_as_value_fails_integer_parse() {
    // the argument after -t is examined as its value, even if it looks
    // like another flag
    let e = parse_args(&args(&["prog", "-t", "-c"])).unwrap_err();
    assert_eq!(e, ArgError::NotAnInteger(Flag::Time));
}

#[test]
fn url_value_is_rescanned_as_flag() {
    // "-u -t": the url becomes "-t", and that same token is examined
    // again on the next step, where it is a -t with no value
    let e = parse_args(&args(&["prog", "-u", "-t"])).unwrap_err();
    assert_eq!(e, ArgError::MissingValue(Flag::Time));
}

#[test]
fn negative_duration_accepted() {
    let c = parse_args(&args(&["prog", "-t", "-5"])).unwrap();
    assert_eq!(c.duration_seconds, -5);
}

#[test]
fn parse_i32_plain_and_signed() {
    assert_eq!(parse_i32("42"), Some(42));
    assert_eq!(parse_i32("0"), Some(0));
    assert_eq!(parse_i32("+7"), Some(7));
    assert_eq!(parse_i32("-5"), Some(-5));
}

#[test]
fn parse_i32_range_edges() {
    assert_eq!(parse_i32("2147483647"), Some(i32::MAX));
    assert_eq!(parse_i32("-2147483648"), Some(i32::MIN));
    assert_eq!(parse_i32("2147483648"), None);
    assert_eq!(parse_i32("-2147483649"), None);
    assert_eq!(parse_i32("999999999999999999999999"), None);
}

#[test]
fn parse_i32_rejects_malformed() {
    assert_eq!(parse_i32(""), None);
    assert_eq!(parse_i32("-"), None);
    assert_eq!(parse_i32("+"), None);
    assert_eq!(parse_i32("12a"), None);
    assert_eq!(parse_i32(" 1"), None);
    assert_eq!(parse_i32("1 "), None);
    assert_eq!(parse_i32("--1"), None);
}

#[test]
fn parse_i32_agrees_with_std() {
    for s in ["42", "-0", "0007", "2147483647", "2147483648", "x", "", "+12", "-2147483648"] {
        assert_eq!(parse_i32(s), s.parse::<i32>().ok(), "input {:?}", s);
    }
}
