//! Arguments of the operator commands.
use alpaca_options::arguments::args_error_text;
use alpaca_options::arguments::parse_doctor_args;
use alpaca_options::arguments::parse_integer;
use alpaca_options::arguments::parse_lint_args;
use alpaca_options::arguments::parse_scanner_args;
use alpaca_options::arguments::parse_universe_args;
use alpaca_options::arguments::ArgsError;
use alpaca_options::arguments::ParsedArgs;

fn owned(items: &[&str]) -> Vec<String> {
    items.iter().map(|item| item.to_string()).collect()
}

#[test]
fn integers_are_read_as_the_standard_library_reads_them() {
    for text in [
        "0",
        "+5",
        "-5",
        "007",
        "",
        "+",
        "-",
        "1_000",
        " 1",
        "9223372036854775807",
        "9223372036854775808",
        "-9223372036854775808",
        "-9223372036854775809",
        "00000000000000000000000000000012",
        "99999999999999999999999999999999999999999",
        "12a",
        "--1",
    ] {
        assert_eq!(parse_integer(text), text.parse::<i64>().ok(), "{text}");
    }
}

#[test]
fn lint_options_are_read() {
    let parsed = parse_lint_args(&owned(&["--json", "--pre-roll"])).unwrap();
    assert_eq!(
        parsed,
        ParsedArgs { json_output: true, pre_roll: true, since_secs: 0, help: false }
    );
    let error = parse_lint_args(&owned(&["--since-secs", "5"])).unwrap_err();
    assert_eq!(
        args_error_text(&error, "config lint", ""),
        Some("unknown config lint argument `--since-secs`".to_string()),
    );
}

#[test]
fn help_stops_the_reading() {
    let parsed = parse_universe_args(&owned(&["--json", "-h", "--bogus"])).unwrap();
    assert!(parsed.help);
    assert!(parsed.json_output);
}

#[test]
fn lookbacks_are_clamped_to_zero() {
    let parsed = parse_scanner_args(&owned(&["--since-secs", "-7"])).unwrap();
    assert_eq!(parsed.since_secs, 0);
    let parsed = parse_scanner_args(&Vec::new()).unwrap();
    assert_eq!(parsed.since_secs, 86_400);
    let parsed = parse_doctor_args(&owned(&["--scanner-since-secs", "86400"])).unwrap();
    assert_eq!(parsed.since_secs, 86_400);
    let parsed = parse_doctor_args(&Vec::new()).unwrap();
    assert_eq!(parsed.since_secs, 600);
}

#[test]
fn a_lookback_needs_a_value_that_is_an_integer() {
    let missing = parse_doctor_args(&owned(&["--since-secs"])).unwrap_err();
    assert!(matches!(missing, ArgsError::MissingValue));
    assert_eq!(
        args_error_text(&missing, "doctor", "--scanner-since-secs"),
        Some("--scanner-since-secs requires a value".to_string()),
    );
    let bad = parse_scanner_args(&owned(&["--since-secs", "soon"])).unwrap_err();
    assert!(matches!(&bad, ArgsError::BadNumber(value) if value == "soon"));
    assert_eq!(args_error_text(&bad, "scanner report", "--since-secs"), None);
}
