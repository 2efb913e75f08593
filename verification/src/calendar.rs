//! Calendar dates, instants and market clocks.
use chrono::Datelike;
use chrono::Timelike;
use vstd::prelude::*;

use crate::text::decimal;
use crate::text::decimal_text;
use crate::text::opt_text;

verus! {

/// The day number of 1970-01-01, counted from 0001-01-01 as day one.
pub const EPOCH_DAY: i64 = 719_163;

/// Nanoseconds in one second.
pub const NANOS_PER_SEC: i128 = 1_000_000_000;

/// Whether a year of the Gregorian calendar has a 29th of February.
pub open spec fn is_leap_year(year: int) -> bool {
    year % 4 == 0 && (year % 100 != 0 || year % 400 == 0)
}

/// The number of days in a month of the Gregorian calendar.
pub open spec fn days_in_month(year: int, month: int) -> int {
    if month == 2 {
        if is_leap_year(year) {
            29
        } else {
            28
        }
    } else if month == 4 || month == 6 || month == 9 || month == 11 {
        30
    } else {
        31
    }
}

/// The number of days in a year before the first of a month.
pub open spec fn days_before_month(year: int, month: int) -> int
    decreases month,
{
    if month <= 1 {
        0
    } else {
        days_before_month(year, month - 1) + days_in_month(year, month - 1)
    }
}

/// A date of the Gregorian calendar.
#[derive(Clone, Copy, Debug, PartialEq, Eq, Structural)]
pub struct CalendarDate {
    /// Year.
    pub year: i32,
    /// Month, from one.
    pub month: u32,
    /// Day of the month, from one.
    pub day: u32,
}

impl CalendarDate {
    /// Whether the calendar has this date and the date library can hold it.
    pub open spec fn valid(self) -> bool {
        &&& -262_143 <= self.year <= 262_142
        &&& 1 <= self.month <= 12
        &&& 1 <= self.day <= days_in_month(self.year as int, self.month as int)
    }

    /// The day number, counted from 0001-01-01 as day one.
    pub open spec fn day_number(self) -> int {
        let before = self.year - 1;
        365 * before + before / 4 - before / 100 + before / 400 + days_before_month(
            self.year as int,
            self.month as int,
        ) + self.day
    }
}

/// Returns the day number of a date.
///
/// Calls `chrono::NaiveDate::from_ymd_opt`, which gives no date outside the calendar or outside
/// the years -262143 to 262142, and `Datelike::num_days_from_ce`, which counts days from
/// 0001-01-01 as day one in the proleptic Gregorian calendar.
#[verifier::external_body]
pub(crate) fn day_of(date: CalendarDate) -> (day: Option<i32>)
    ensures
        day is Some <==> date.valid(),
        day matches Some(number) ==> number == date.day_number(),
{
    let day = chrono::NaiveDate::from_ymd_opt(date.year, date.month, date.day)?;
    Some(day.num_days_from_ce())
}

/// Returns the date with a day number.
///
/// Calls `chrono::NaiveDate::from_num_days_from_ce_opt`, the inverse of the day count. The date
/// library holds every day from -262143-01-01 to 262142-12-31.
#[verifier::external_body]
pub(crate) fn date_of(day: i32) -> (date: Option<CalendarDate>)
    ensures
        date is Some <==> -95_746_129 <= day <= 95_745_399,
        date matches Some(found) ==> found.valid() && found.day_number() == day,
{
    let date = chrono::NaiveDate::from_num_days_from_ce_opt(day)?;
    Some(CalendarDate { year: date.year(), month: date.month(), day: date.day() })
}

/// What `chrono::NaiveDate::parse_from_str` reads from a text with the pattern `%Y-%m-%d`, as year,
/// month and day.
pub uninterp spec fn iso_date(text: Seq<char>) -> Option<(i32, u32, u32)>;

/// Reads a date.
///
/// Calls `chrono::NaiveDate::parse_from_str` with the pattern `%Y-%m-%d`. Which texts it takes is
/// left to that parser; a date that it gives is a date of the calendar.
#[verifier::external_body]
pub(crate) fn parse_date(text: &str) -> (date: Option<CalendarDate>)
    ensures
        match date {
            Some(found) => iso_date(text@) == Some((found.year, found.month, found.day)) && found.valid(),
            None => iso_date(text@) is None,
        },
{
    let date = chrono::NaiveDate::parse_from_str(text, "%Y-%m-%d").ok()?;
    Some(CalendarDate { year: date.year(), month: date.month(), day: date.day() })
}

/// The date that a text reads as, if any.
pub open spec fn date_in(text: Seq<char>) -> Option<CalendarDate> {
    match iso_date(text) {
        Some((year, month, day)) => Some(CalendarDate { year, month, day }),
        None => None,
    }
}

/// A number of at least two digits.
pub open spec fn two_digits(n: nat) -> Seq<char> {
    if n < 10 {
        "0"@ + decimal(n)
    } else {
        decimal(n)
    }
}

/// A year of at least four digits, with a sign outside the years 0 to 9999.
pub open spec fn year_digits(year: int) -> Seq<char> {
    let magnitude = (if year < 0 { -year } else { year }) as nat;
    let padded = if magnitude < 10 {
        "000"@ + decimal(magnitude)
    } else if magnitude < 100 {
        "00"@ + decimal(magnitude)
    } else if magnitude < 1000 {
        "0"@ + decimal(magnitude)
    } else {
        decimal(magnitude)
    };
    if year < 0 {
        "-"@ + padded
    } else if year > 9999 {
        "+"@ + padded
    } else {
        padded
    }
}

/// A date as `YYYY-MM-DD`.
pub open spec fn date_chars(date: CalendarDate) -> Seq<char> {
    year_digits(date.year as int) + "-"@ + two_digits(date.month as nat) + "-"@ + two_digits(
        date.day as nat,
    )
}

fn two_digit_text(n: u32) -> (text: String)
    ensures
        text@ == two_digits(n as nat),
{
    if n < 10 {
        "0".to_owned().concat(decimal_text(n as u64).as_str())
    } else {
        decimal_text(n as u64)
    }
}

/// Writes a date as `YYYY-MM-DD`.
pub fn date_text(date: CalendarDate) -> (text: String)
    ensures
        text@ == date_chars(date),
{
    let magnitude: u64 = if date.year < 0 {
        (-(date.year as i64)) as u64
    } else {
        date.year as u64
    };
    let digits = decimal_text(magnitude);
    let padded: String = if magnitude < 10 {
        "000".to_owned().concat(digits.as_str())
    } else if magnitude < 100 {
        "00".to_owned().concat(digits.as_str())
    } else if magnitude < 1000 {
        "0".to_owned().concat(digits.as_str())
    } else {
        digits
    };
    let year: String = if date.year < 0 {
        "-".to_owned().concat(padded.as_str())
    } else if date.year > 9999 {
        "+".to_owned().concat(padded.as_str())
    } else {
        padded
    };
    year.concat("-").concat(two_digit_text(date.month).as_str()).concat("-").concat(
        two_digit_text(date.day).as_str(),
    )
}

// ---------------------------------------------------------------------------------------------
// Instants
// ---------------------------------------------------------------------------------------------

/// A moment in UTC. A leap second carries a full second or more in its nanoseconds.
#[derive(Clone, Copy, Debug, PartialEq, Eq, Structural)]
pub struct UtcInstant {
    /// Seconds since 1970-01-01T00:00:00Z.
    pub secs: i64,
    /// Nanoseconds past that second.
    pub nanos: u32,
}

impl UtcInstant {
    /// Whether the date library holds this instant.
    pub open spec fn valid(self) -> bool {
        -8_334_601_228_800 <= self.secs <= 8_210_266_876_799 && self.nanos < 2_000_000_000
    }

    /// Whether the instant keeps a day's distance from the ends of the range of the date library.
    pub open spec fn inland(self) -> bool {
        -8_334_601_142_400 <= self.secs <= 8_210_266_790_399 && self.nanos < 2_000_000_000
    }

    /// Returns whether the date library holds this instant.
    pub fn is_valid(self) -> (valid: bool)
        ensures
            valid == self.valid(),
    {
        -8_334_601_228_800 <= self.secs && self.secs <= 8_210_266_876_799 && self.nanos
            < 2_000_000_000
    }

    /// Returns whether the instant keeps a day's distance from the ends of the range of the date
    /// library.
    pub fn is_inland(self) -> (inland: bool)
        ensures
            inland == self.inland(),
    {
        -8_334_601_142_400 <= self.secs && self.secs <= 8_210_266_790_399 && self.nanos
            < 2_000_000_000
    }

    /// The second of the day.
    pub open spec fn day_second(self) -> int {
        self.secs as int % 86_400
    }

    /// The day number of the UTC date.
    pub open spec fn utc_day(self) -> int {
        self.secs as int / 86_400 + EPOCH_DAY
    }

    /// Whether this instant is no later than `other`.
    pub open spec fn not_after(self, other: UtcInstant) -> bool {
        self.secs < other.secs || (self.secs == other.secs && self.nanos <= other.nanos)
    }
}

/// The nanoseconds from `then` to `now`; a leap second between the two counts when their times of
/// day show that it passed.
pub open spec fn nanos_since(now: UtcInstant, then: UtcInstant) -> int {
    let leap = if now.day_second() > then.day_second() && then.nanos >= NANOS_PER_SEC {
        1
    } else if now.day_second() < then.day_second() && now.nanos >= NANOS_PER_SEC {
        -1int
    } else {
        0
    };
    (now.secs - then.secs + leap) * NANOS_PER_SEC + now.nanos - then.nanos
}

/// The whole seconds from `then` to `now`, when `then` is not in the future.
pub open spec fn age_secs(now: UtcInstant, then: UtcInstant) -> Option<int> {
    if nanos_since(now, then) < 0 {
        None
    } else {
        Some(nanos_since(now, then) / NANOS_PER_SEC as int)
    }
}

/// Returns the quotient rounded down.
pub fn floor_div(a: i64, b: i64) -> (q: i64)
    requires
        b > 0,
    ensures
        q == a as int / b as int,
{
    proof {
        assert(i64::MIN <= a as int / b as int <= i64::MAX) by (nonlinear_arith)
            requires
                b > 0,
                i64::MIN <= a <= i64::MAX,
        ;
    }
    a.checked_div_euclid(b).unwrap()
}

/// Returns the remainder of the quotient rounded down.
pub fn floor_mod(a: i64, b: i64) -> (r: i64)
    requires
        b > 0,
    ensures
        r == a as int % b as int,
{
    a.checked_rem_euclid(b).unwrap()
}

/// Returns the nanoseconds from `then` to `now`.
pub fn elapsed_nanos(now: UtcInstant, then: UtcInstant) -> (nanos: i128)
    ensures
        nanos == nanos_since(now, then),
{
    let now_second: i64 = floor_mod(now.secs, 86_400);
    let then_second: i64 = floor_mod(then.secs, 86_400);
    let leap: i128 = if now_second > then_second && then.nanos as i128 >= NANOS_PER_SEC {
        1
    } else if now_second < then_second && now.nanos as i128 >= NANOS_PER_SEC {
        -1
    } else {
        0
    };
    (now.secs as i128 - then.secs as i128 + leap) * NANOS_PER_SEC + now.nanos as i128
        - then.nanos as i128
}

/// Returns the whole seconds from `then` to `now`, when `then` is not in the future.
pub fn elapsed_secs(now: UtcInstant, then: UtcInstant) -> (secs: Option<u64>)
    requires
        now.valid(),
        then.valid(),
    ensures
        match secs {
            Some(age) => age_secs(now, then) == Some(age as int),
            None => age_secs(now, then) is None,
        },
{
    let nanos: i128 = elapsed_nanos(now, then);
    if nanos < 0 {
        None
    } else {
        let secs: i128 = nanos / NANOS_PER_SEC;
        Some(secs as u64)
    }
}

/// Returns the whole hours from `then` to `now`, zero when `then` is in the future.
pub fn elapsed_hours(now: UtcInstant, then: UtcInstant) -> (hours: u64)
    requires
        now.valid(),
        then.valid(),
    ensures
        hours == age_hours(now, then),
{
    match elapsed_secs(now, then) {
        Some(secs) => secs / 3600,
        None => 0,
    }
}

/// The whole hours from `then` to `now`, zero when `then` is in the future.
pub open spec fn age_hours(now: UtcInstant, then: UtcInstant) -> int {
    match age_secs(now, then) {
        Some(secs) => secs / 3600,
        None => 0,
    }
}

/// Returns the day number of the UTC date of an instant.
pub fn utc_day_of(now: UtcInstant) -> (day: i64)
    ensures
        day == now.utc_day(),
{
    floor_div(now.secs, 86_400) + EPOCH_DAY
}

/// The first instant of a date.
pub open spec fn midnight(date: CalendarDate) -> UtcInstant {
    UtcInstant { secs: ((date.day_number() - EPOCH_DAY) * 86_400) as i64, nanos: 0 }
}

/// The day number of a date lies between those of the first and the last date that the date library
/// holds.
proof fn day_number_bounds(date: CalendarDate)
    requires
        date.valid(),
    ensures
        -95_746_129 <= date.day_number() <= 95_745_399,
{
    let year = date.year as int;
    let before = year - 1;
    assert(-262_144 <= before <= 262_141);
    reveal_with_fuel(days_before_month, 13);
    let month = date.month as int;
    assert(0 <= days_before_month(year, month));
    assert(days_before_month(year, month) + date.day <= 366);
    assert(!is_leap_year(year) ==> days_before_month(year, month) + date.day <= 365);
}

/// Returns the first instant of a date.
pub fn midnight_of(date: CalendarDate) -> (instant: Option<UtcInstant>)
    ensures
        match instant {
            Some(found) => date.valid() && found == midnight(date) && found.valid(),
            None => !date.valid(),
        },
{
    match day_of(date) {
        Some(day) => {
            proof {
                day_number_bounds(date);
            }
            Some(UtcInstant { secs: (day as i64 - EPOCH_DAY) * 86_400, nanos: 0 })
        },
        None => None,
    }
}

/// Returns the UTC date of a timestamp in nanoseconds since 1970.
pub fn date_of_nanos(nanos: u64) -> (date: CalendarDate)
    ensures
        date.valid(),
        date.day_number() == nanos as int / 86_400_000_000_000 + EPOCH_DAY,
{
    let days: u64 = nanos / 86_400_000_000_000;
    let day: i32 = (days as i64 + EPOCH_DAY) as i32;
    match date_of(day) {
        Some(date) => date,
        None => CalendarDate { year: 1970, month: 1, day: 1 },
    }
}

/// The instant some nanoseconds after 1970-01-01T00:00:00Z.
pub open spec fn instant_at(nanos: u64) -> UtcInstant {
    UtcInstant { secs: (nanos / 1_000_000_000) as i64, nanos: (nanos % 1_000_000_000) as u32 }
}

/// Returns the instant some nanoseconds after 1970-01-01T00:00:00Z.
pub fn instant_of_nanos(nanos: u64) -> (instant: UtcInstant)
    ensures
        instant == instant_at(nanos),
        instant.valid(),
{
    UtcInstant { secs: (nanos / 1_000_000_000) as i64, nanos: (nanos % 1_000_000_000) as u32 }
}

/// Returns the UTC date of an instant.
pub fn utc_date(now: UtcInstant) -> (date: CalendarDate)
    requires
        now.valid(),
    ensures
        date.valid(),
        date.day_number() == now.utc_day(),
{
    let day: i32 = utc_day_of(now) as i32;
    match date_of(day) {
        Some(date) => date,
        None => CalendarDate { year: 1970, month: 1, day: 1 },
    }
}

/// Whether a date lies some days before another; none where the date library ends.
pub open spec fn lies_before(earlier: Option<CalendarDate>, date: CalendarDate, days: int) -> bool {
    match earlier {
        Some(found) => found.valid() && found.day_number() == date.day_number() - days,
        None => date.day_number() - days < -95_746_129,
    }
}

/// Returns the date some days before a date.
pub fn date_before(date: CalendarDate, days: i64) -> (earlier: Option<CalendarDate>)
    requires
        date.valid(),
        days >= 0,
    ensures
        lies_before(earlier, date, days as int),
{
    proof {
        day_number_bounds(date);
    }
    match day_of(date) {
        Some(day) => if days > 200_000_000 {
            None
        } else {
            date_of((day as i64 - days) as i32)
        },
        None => None,
    }
}

/// What `chrono::DateTime::parse_from_rfc3339` reads from a text, as seconds since 1970-01-01 UTC
/// and nanoseconds past that second.
pub uninterp spec fn rfc3339_reading(text: Seq<char>) -> Option<(i64, u32)>;

/// Reads an RFC 3339 timestamp and converts it to UTC.
///
/// Calls `chrono::DateTime::parse_from_rfc3339`. Which texts it takes is left to that parser; an
/// instant that it gives lies in the range of the date library.
#[verifier::external_body]
pub(crate) fn parse_instant(text: &str) -> (instant: Option<UtcInstant>)
    ensures
        match instant {
            Some(found) => rfc3339_reading(text@) == Some((found.secs, found.nanos)) && found.valid(),
            None => rfc3339_reading(text@) is None,
        },
{
    let moment = chrono::DateTime::parse_from_rfc3339(text).ok()?;
    Some(UtcInstant { secs: moment.timestamp(), nanos: moment.timestamp_subsec_nanos() })
}

/// The instant that a text reads as, if any.
pub open spec fn instant_in(text: Seq<char>) -> Option<UtcInstant> {
    match rfc3339_reading(text) {
        Some((secs, nanos)) => Some(UtcInstant { secs, nanos }),
        None => None,
    }
}

/// The text that `chrono::DateTime::to_rfc3339` writes for an instant in UTC.
pub uninterp spec fn rfc3339_writing(secs: i64, nanos: u32) -> Option<Seq<char>>;

/// Writes an instant as an RFC 3339 timestamp in UTC.
///
/// Calls `chrono::DateTime::from_timestamp`, which gives no moment for seconds outside its range or
/// for a leap second inside a minute, and `to_rfc3339`.
#[verifier::external_body]
pub(crate) fn instant_text(instant: UtcInstant) -> (text: Option<String>)
    ensures
        match text {
            Some(written) => rfc3339_writing(instant.secs, instant.nanos) == Some(written@),
            None => rfc3339_writing(instant.secs, instant.nanos) is None,
        },
{
    let moment = chrono::DateTime::from_timestamp(instant.secs, instant.nanos)?;
    Some(moment.to_rfc3339())
}

/// The instant that `chrono::DateTime::checked_sub_signed` gives some days before an instant.
pub uninterp spec fn days_before(secs: i64, nanos: u32, days: i64) -> Option<(i64, u32)>;

/// Returns the instant some days before an instant.
///
/// Calls `chrono::DateTime::from_timestamp` and `checked_sub_signed`, which takes the seconds of the
/// days off and gives nothing outside the range of the date library. From a leap second it leaves
/// the leap second first; the contract says nothing more of that case.
#[verifier::external_body]
pub(crate) fn minus_days(instant: UtcInstant, days: i64) -> (earlier: Option<UtcInstant>)
    requires
        0 <= days <= 1000,
    ensures
        match earlier {
            Some(found) => days_before(instant.secs, instant.nanos, days) == Some(
                (found.secs, found.nanos),
            ) && found.valid(),
            None => days_before(instant.secs, instant.nanos, days) is None,
        },
        instant.valid() && instant.nanos < NANOS_PER_SEC && instant.secs - days * 86_400
            >= -8_334_601_228_800 ==> earlier == Some(
            UtcInstant { secs: (instant.secs - days * 86_400) as i64, nanos: instant.nanos },
        ),
{
    let moment = chrono::DateTime::from_timestamp(instant.secs, instant.nanos)?;
    let earlier = moment.checked_sub_signed(chrono::Duration::days(days))?;
    Some(UtcInstant { secs: earlier.timestamp(), nanos: earlier.timestamp_subsec_nanos() })
}

/// The instant some days before an instant.
pub open spec fn earlier_by(instant: UtcInstant, days: i64) -> Option<UtcInstant> {
    match days_before(instant.secs, instant.nanos, days) {
        Some((secs, nanos)) => Some(UtcInstant { secs, nanos }),
        None => None,
    }
}

/// The age in whole seconds of a timestamp text; none for a text that is no timestamp and for a
/// timestamp in the future.
pub open spec fn text_age_secs(text: Seq<char>, now: UtcInstant) -> Option<int> {
    match instant_in(text) {
        Some(then) => age_secs(now, then),
        None => None,
    }
}

/// Returns the age in whole seconds of an RFC 3339 timestamp.
pub fn age_secs_from_rfc3339(text: &str, now: UtcInstant) -> (age: Option<u64>)
    requires
        now.valid(),
    ensures
        match age {
            Some(secs) => text_age_secs(text@, now) == Some(secs as int),
            None => text_age_secs(text@, now) is None,
        },
{
    match parse_instant(text) {
        Some(then) => elapsed_secs(now, then),
        None => None,
    }
}

/// Whether a timestamp text reads as an instant that is at least `lookback` seconds before `now`
/// or later.
pub open spec fn is_recent(text: Seq<char>, now: UtcInstant, lookback: int) -> bool {
    match instant_in(text) {
        Some(then) => then.secs > now.secs - lookback || (then.secs == now.secs - lookback
            && then.nanos >= now.nanos),
        None => false,
    }
}

/// Returns whether a timestamp text lies within `lookback` seconds before `now` or later.
pub fn recent(text: &str, now: UtcInstant, lookback: i64) -> (yes: bool)
    ensures
        yes == is_recent(text@, now, lookback as int),
{
    match parse_instant(text) {
        Some(then) => {
            let cutoff: i128 = now.secs as i128 - lookback as i128;
            then.secs as i128 > cutoff || (then.secs as i128 == cutoff && then.nanos >= now.nanos)
        },
        None => false,
    }
}

// ---------------------------------------------------------------------------------------------
// Market clocks
// ---------------------------------------------------------------------------------------------

/// A time of day.
#[derive(Clone, Copy, Debug, PartialEq, Eq, Structural)]
pub struct TimeOfDay {
    /// Seconds since midnight.
    pub secs: u32,
    /// Nanoseconds past that second.
    pub nanos: u32,
}

impl TimeOfDay {
    /// Whether this time is no later than `other`.
    pub open spec fn not_after(self, other: TimeOfDay) -> bool {
        self.secs < other.secs || (self.secs == other.secs && self.nanos <= other.nanos)
    }

    /// Returns whether this time is no later than `other`.
    pub fn is_not_after(self, other: TimeOfDay) -> (yes: bool)
        ensures
            yes == self.not_after(other),
    {
        self.secs < other.secs || (self.secs == other.secs && self.nanos <= other.nanos)
    }

    /// The time at an hour and minute.
    pub open spec fn hm(hour: int, minute: int) -> TimeOfDay {
        TimeOfDay { secs: (hour * 3600 + minute * 60) as u32, nanos: 0 }
    }
}

/// The text that `chrono::NaiveTime` writes for a time of day, given as seconds since midnight and
/// nanoseconds.
pub uninterp spec fn time_writing(secs: u32, nanos: u32) -> Option<Seq<char>>;

/// Hours, minutes and seconds in two digits each.
pub open spec fn clock_chars(secs: int) -> Seq<char> {
    two_digits((secs / 3600) as nat) + ":"@ + two_digits((secs / 60 % 60) as nat) + ":"@ + two_digits(
        (secs % 60) as nat,
    )
}

/// Writes a time of day.
///
/// Calls `chrono::NaiveTime::from_num_seconds_from_midnight_opt`, which gives no time past the end of
/// the day, and `to_string`. A time on a whole second is written as hours, minutes and seconds in two
/// digits each.
#[verifier::external_body]
pub(crate) fn time_text(time: TimeOfDay) -> (text: Option<String>)
    ensures
        opt_text(text) == time_writing(time.secs, time.nanos),
        time.secs < 86_400 && time.nanos == 0 ==> opt_text(text) == Some(
            clock_chars(time.secs as int),
        ),
{
    let time = chrono::NaiveTime::from_num_seconds_from_midnight_opt(time.secs, time.nanos)?;
    Some(time.to_string())
}

/// The time of day that `chrono_tz` gives in a named zone for an instant, as seconds since midnight
/// and nanoseconds.
pub uninterp spec fn zone_clock(secs: i64, nanos: u32, zone: Seq<char>) -> Option<(u32, u32)>;

/// Reads the time of day in a time zone.
///
/// Calls `chrono_tz::Tz::from_str`, which knows the zones of the IANA database by name,
/// `chrono::DateTime::from_timestamp` and `with_timezone`. There is no reading for an unknown zone
/// or for seconds outside the range of the date library.
#[verifier::external_body]
pub(crate) fn local_time(instant: UtcInstant, zone: &str) -> (reading: Option<TimeOfDay>)
    ensures
        match reading {
            Some(found) => zone_clock(instant.secs, instant.nanos, zone@) == Some((found.secs, found.nanos)),
            None => zone_clock(instant.secs, instant.nanos, zone@) is None,
        },
{
    let zone = zone.parse::<chrono_tz::Tz>().ok()?;
    let moment = chrono::DateTime::from_timestamp(instant.secs, instant.nanos)?;
    let time = moment.with_timezone(&zone).time();
    Some(TimeOfDay { secs: time.num_seconds_from_midnight(), nanos: time.nanosecond() })
}

/// The time of day in a zone, if the zone is known.
pub open spec fn clock_in(instant: UtcInstant, zone: Seq<char>) -> Option<TimeOfDay> {
    match zone_clock(instant.secs, instant.nanos, zone) {
        Some((secs, nanos)) => Some(TimeOfDay { secs, nanos }),
        None => None,
    }
}

/// The date that `chrono_tz` gives in a named zone for an instant, as year, month and day.
pub uninterp spec fn zone_date(secs: i64, nanos: u32, zone: Seq<char>) -> Option<(i32, u32, u32)>;

/// Reads the calendar date in a time zone.
///
/// Calls `chrono_tz::Tz::from_str`, `chrono::DateTime::from_timestamp`, `with_timezone` and
/// `date_naive`. The seconds keep a day's distance from the ends of the range of the date library,
/// where a zone offset could leave it.
#[verifier::external_body]
pub(crate) fn local_date(instant: UtcInstant, zone: &str) -> (reading: Option<CalendarDate>)
    requires
        instant.inland(),
    ensures
        match reading {
            Some(found) => zone_date(instant.secs, instant.nanos, zone@) == Some(
                (found.year, found.month, found.day),
            ),
            None => zone_date(instant.secs, instant.nanos, zone@) is None,
        },
{
    let zone = zone.parse::<chrono_tz::Tz>().ok()?;
    let moment = chrono::DateTime::from_timestamp(instant.secs, instant.nanos)?;
    let date = moment.with_timezone(&zone).date_naive();
    Some(CalendarDate { year: date.year(), month: date.month(), day: date.day() })
}

/// The date in a zone, if the zone is known.
pub open spec fn date_in_zone(instant: UtcInstant, zone: Seq<char>) -> Option<CalendarDate> {
    match zone_date(instant.secs, instant.nanos, zone) {
        Some((year, month, day)) => Some(CalendarDate { year, month, day }),
        None => None,
    }
}

/// A daily window of a market, in the time of its zone.
#[derive(Clone, Debug)]
pub struct MarketWindow {
    /// First time of day inside the window.
    pub start: TimeOfDay,
    /// Last time of day inside the window.
    pub end: TimeOfDay,
    /// IANA name of the time zone.
    pub zone: String,
}

impl MarketWindow {
    /// Whether the clock of the zone stands inside the window; a zone without a clock never does.
    pub open spec fn open_at(self, now: UtcInstant) -> bool {
        match clock_in(now, self.zone@) {
            Some(time) => self.start.not_after(time) && time.not_after(self.end),
            None => false,
        }
    }

    /// Returns whether the clock of the zone stands inside the window.
    pub fn is_open_at(&self, now: UtcInstant) -> (open: bool)
        ensures
            open == self.open_at(now),
    {
        match local_time(now, self.zone.as_str()) {
            Some(time) => self.contains_time(time),
            None => false,
        }
    }

    /// Returns whether a time of day lies inside the window.
    pub fn contains_time(&self, time: TimeOfDay) -> (inside: bool)
        ensures
            inside == (self.start.not_after(time) && time.not_after(self.end)),
    {
        self.start.is_not_after(time) && time.is_not_after(self.end)
    }
}

} // verus!
