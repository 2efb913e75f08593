//! Dates, instants, market windows and option symbols.
use alpaca_options::calendar::age_secs_from_rfc3339;
use alpaca_options::calendar::date_before;
use alpaca_options::calendar::date_of_nanos;
use alpaca_options::calendar::date_text;
use alpaca_options::calendar::elapsed_hours;
use alpaca_options::calendar::elapsed_nanos;
use alpaca_options::calendar::elapsed_secs;
use alpaca_options::calendar::floor_div;
use alpaca_options::calendar::floor_mod;
use alpaca_options::calendar::instant_of_nanos;
use alpaca_options::calendar::midnight_of;
use alpaca_options::calendar::recent;
use alpaca_options::calendar::utc_date;
use alpaca_options::calendar::utc_day_of;
use alpaca_options::calendar::CalendarDate;
use alpaca_options::calendar::MarketWindow;
use alpaca_options::calendar::TimeOfDay;
use alpaca_options::calendar::UtcInstant;
use alpaca_options::operator::contract_expirations;
use alpaca_options::symbol::alpaca_instrument_id;
use alpaca_options::symbol::days_to_expiration;

fn instant(text: &str) -> UtcInstant {
    let moment = chrono::DateTime::parse_from_rfc3339(text).unwrap();
    UtcInstant { secs: moment.timestamp(), nanos: moment.timestamp_subsec_nanos() }
}

fn date(year: i32, month: u32, day: u32) -> CalendarDate {
    CalendarDate { year, month, day }
}

fn new_york() -> MarketWindow {
    MarketWindow {
        start: TimeOfDay { secs: 34_200, nanos: 0 },
        end: TimeOfDay { secs: 57_600, nanos: 0 },
        zone: "America/New_York".to_string(),
    }
}

#[test]
fn dates_are_written_as_iso_dates() {
    assert_eq!(date_text(date(2026, 5, 4)), "2026-05-04");
    assert_eq!(date_text(date(800, 1, 31)), "0800-01-31");
    for (year, month, day) in [(-5, 2, 3), (12_345, 6, 7), (0, 1, 1)] {
        let expected = chrono::NaiveDate::from_ymd_opt(year, month, day).unwrap().to_string();
        assert_eq!(date_text(date(year, month, day)), expected);
    }
}

#[test]
fn midnights_exist_for_dates_of_the_calendar_only() {
    assert_eq!(midnight_of(date(2026, 5, 4)), Some(instant("2026-05-04T00:00:00Z")));
    assert_eq!(midnight_of(date(2024, 2, 29)), Some(instant("2024-02-29T00:00:00Z")));
    assert_eq!(midnight_of(date(2026, 2, 29)), None);
    assert_eq!(midnight_of(date(2026, 13, 1)), None);
}

#[test]
fn instants_fall_on_their_utc_date() {
    assert_eq!(utc_date(instant("2026-05-04T23:59:59Z")), date(2026, 5, 4));
    assert_eq!(utc_date(instant("1969-12-31T23:59:59Z")), date(1969, 12, 31));
    assert_eq!(date_of_nanos(1_777_852_800_000_000_000), date(2026, 5, 4));
    assert_eq!(utc_day_of(UtcInstant { secs: 0, nanos: 0 }), 719_163);
}

#[test]
fn earlier_dates_are_counted_over_month_ends() {
    assert_eq!(date_before(date(2026, 5, 4), 7), Some(date(2026, 4, 27)));
    assert_eq!(date_before(date(2024, 3, 1), 1), Some(date(2024, 2, 29)));
    assert_eq!(date_before(date(2026, 5, 4), 0), Some(date(2026, 5, 4)));
    assert_eq!(date_before(date(2026, 5, 4), i64::MAX), None);
}

#[test]
fn ages_are_whole_seconds_and_never_negative() {
    let now = instant("2026-05-04T14:00:00Z");
    assert_eq!(age_secs_from_rfc3339("2026-05-04T13:59:00.5Z", now), Some(59));
    assert_eq!(age_secs_from_rfc3339("2026-05-04T10:00:00-04:00", now), Some(0));
    assert_eq!(age_secs_from_rfc3339("2026-05-04T14:00:01Z", now), None);
    assert_eq!(age_secs_from_rfc3339("yesterday", now), None);
    let then = instant("2026-05-04T11:30:00Z");
    assert_eq!(elapsed_secs(now, then), Some(9_000));
    assert_eq!(elapsed_hours(now, then), 2);
    assert_eq!(elapsed_hours(then, now), 0);
    assert_eq!(elapsed_nanos(then, now), -9_000_000_000_000);
}

#[test]
fn recent_texts_lie_within_the_lookback() {
    let now = instant("2026-05-04T14:00:00Z");
    assert!(recent("2026-05-04T13:00:00Z", now, 3_600));
    assert!(!recent("2026-05-04T12:59:59.999Z", now, 3_600));
    assert!(recent("2026-05-05T00:00:00Z", now, 3_600));
    assert!(!recent("not a time", now, 3_600));
}

#[test]
fn market_windows_follow_their_zone() {
    let window = new_york();
    assert!(window.is_open_at(instant("2026-05-04T13:30:00Z")));
    assert!(window.is_open_at(instant("2026-05-04T20:00:00Z")));
    assert!(!window.is_open_at(instant("2026-05-04T20:00:01Z")));
    assert!(!window.is_open_at(instant("2026-01-05T13:30:00Z")));
    assert!(window.is_open_at(instant("2026-01-05T14:30:00Z")));
}

#[test]
fn an_unknown_zone_has_no_open_hours() {
    let mut window = new_york();
    window.zone = "Mars/Olympus".to_string();
    assert!(!window.is_open_at(instant("2026-05-04T15:00:00Z")));
}

#[test]
fn division_rounds_down() {
    assert_eq!(floor_div(-1, 86_400), -1);
    assert_eq!(floor_mod(-1, 86_400), 86_399);
    assert_eq!(floor_div(86_401, 86_400), 1);
}

#[test]
fn option_symbols_state_their_expiration() {
    let today = utc_day_of(instant("2026-05-04T00:00:00Z"));
    assert_eq!(days_to_expiration("SPY260512P00708000", today), Some(8));
    assert_eq!(days_to_expiration("SPY260501C00708000", today), Some(-3));
    assert_eq!(days_to_expiration("SPY261312P00708000", today), None);
    assert_eq!(days_to_expiration("SPY", today), None);
}

#[test]
fn instrument_ids_name_the_venue() {
    assert_eq!(
        alpaca_instrument_id("SPY260512P00708000"),
        Some("SPY260512P00708000.ALPACA".to_string()),
    );
    assert_eq!(alpaca_instrument_id(""), None);
}

#[test]
fn contracts_are_loaded_for_two_weeks() {
    let range = |today| contract_expirations(None, None, today);
    assert_eq!(
        range(date(2024, 2, 20)),
        ("2024-02-20".to_string(), "2024-03-05".to_string()),
    );
    assert_eq!(
        range(date(2025, 12, 25)),
        ("2025-12-25".to_string(), "2026-01-08".to_string()),
    );
    assert_eq!(
        contract_expirations(Some("a".to_string()), Some("b".to_string()), date(2026, 5, 4)),
        ("a".to_string(), "b".to_string()),
    );
}

#[test]
fn contracts_are_loaded_at_the_ends_of_the_calendar() {
    let range = |today| contract_expirations(None, None, today);
    assert_eq!(
        range(date(9999, 12, 17)),
        ("9999-12-17".to_string(), "9999-12-31".to_string()),
    );
    assert_eq!(
        range(date(-1, 12, 25)),
        ("-0001-12-25".to_string(), "0000-01-08".to_string()),
    );
    assert_eq!(
        contract_expirations(None, Some("b".to_string()), date(9999, 12, 31)),
        ("9999-12-31".to_string(), "b".to_string()),
    );
}

#[test]
fn nanoseconds_count_from_1970() {
    assert_eq!(instant_of_nanos(1_500_000_000), UtcInstant { secs: 1, nanos: 500_000_000 });
    assert_eq!(
        instant_of_nanos(u64::MAX),
        UtcInstant { secs: 18_446_744_073, nanos: 709_551_615 },
    );
}
