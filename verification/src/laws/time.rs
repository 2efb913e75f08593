//! Laws of times and ages.
use vstd::prelude::*;

use crate::calendar::age_hours;
use crate::calendar::age_secs;
use crate::calendar::clock_in;
use crate::calendar::instant_at;
use crate::calendar::instant_in;
use crate::calendar::is_recent;
use crate::calendar::text_age_secs;
use crate::calendar::CalendarDate;
use crate::calendar::MarketWindow;
use crate::calendar::TimeOfDay;
use crate::calendar::UtcInstant;
use crate::quotes::quote_age;
use crate::symbol::expiration_days;
use crate::symbol::expiration_of;

verus! {

/// The nanoseconds from 1970 to an instant outside a leap second.
pub open spec fn epoch_nanos(instant: UtcInstant) -> int {
    instant.secs * 1_000_000_000 + instant.nanos
}

/// Outside leap seconds an age is the number of whole seconds that have passed; there is none before
/// the start.
pub proof fn ages_count_whole_seconds(now: UtcInstant, then: UtcInstant)
    requires
        now.nanos < 1_000_000_000,
        then.nanos < 1_000_000_000,
    ensures
        match age_secs(now, then) {
            Some(age) => {
                &&& 0 <= age
                &&& epoch_nanos(then) + age * 1_000_000_000 <= epoch_nanos(now)
                &&& epoch_nanos(now) < epoch_nanos(then) + (age + 1) * 1_000_000_000
            },
            None => epoch_nanos(now) < epoch_nanos(then),
        },
{
    let d = epoch_nanos(now) - epoch_nanos(then);
    assert(crate::calendar::nanos_since(now, then) == d);
    if d >= 0 {
        assert(d / 1_000_000_000 * 1_000_000_000 <= d);
        assert(d < (d / 1_000_000_000 + 1) * 1_000_000_000);
    }
}

/// As time passes, ages never shrink.
pub proof fn ages_never_shrink(earlier: UtcInstant, later: UtcInstant, then: UtcInstant)
    requires
        earlier.nanos < 1_000_000_000,
        later.nanos < 1_000_000_000,
        then.nanos < 1_000_000_000,
        epoch_nanos(earlier) <= epoch_nanos(later),
        age_secs(earlier, then) is Some,
    ensures
        age_secs(later, then) is Some,
        age_secs(earlier, then)->0 <= age_secs(later, then)->0,
{
    ages_count_whole_seconds(earlier, then);
    ages_count_whole_seconds(later, then);
}

/// An age in hours is that in seconds by the full hour; what lies ahead has no hours.
pub proof fn hours_are_full_hours(now: UtcInstant, then: UtcInstant)
    ensures
        match age_secs(now, then) {
            Some(secs) => age_hours(now, then) * 3600 <= secs < (age_hours(now, then) + 1) * 3600,
            None => age_hours(now, then) == 0,
        },
{
}

/// The age of a text is that of the instant it reads as.
pub proof fn texts_age_as_their_instants(text: Seq<char>, now: UtcInstant)
    ensures
        match instant_in(text) {
            Some(then) => text_age_secs(text, now) == age_secs(now, then),
            None => text_age_secs(text, now) is None,
        },
{
}

/// A text is recent exactly when its instant lies no more than the lookback before now.
pub proof fn recent_texts_lie_within_the_lookback(text: Seq<char>, now: UtcInstant, lookback: int)
    requires
        now.nanos < 1_000_000_000,
        instant_in(text) matches Some(then) ==> then.nanos < 1_000_000_000,
    ensures
        is_recent(text, now, lookback) <==> (instant_in(text) matches Some(then) && epoch_nanos(now)
            - epoch_nanos(then) <= lookback * 1_000_000_000),
{
}

/// A quote's age is the number of whole seconds since it was made, and zero for one from the future.
pub proof fn quotes_age_in_whole_seconds(ts_event: u64, now: UtcInstant)
    requires
        0 <= epoch_nanos(now) <= i64::MAX,
    ensures
        quote_age(ts_event, now) matches Some(age) && 0 <= age && if epoch_nanos(now) < ts_event {
            age == 0
        } else {
            ts_event + age * 1_000_000_000 <= epoch_nanos(now) < ts_event + (age + 1)
                * 1_000_000_000
        },
{
}

/// An event's instant is as many nanoseconds from 1970 as the event says.
pub proof fn event_instants_keep_the_nanoseconds(nanos: u64)
    ensures
        epoch_nanos(instant_at(nanos)) == nanos,
        instant_at(nanos).nanos < 1_000_000_000,
{
}

/// A day has 86,400 seconds, and 1970-01-01 is the first day of the count of seconds.
pub proof fn days_follow_the_seconds(instant: UtcInstant, date: CalendarDate)
    requires
        date.year == 1970,
        date.month == 1,
        date.day == 1,
    ensures
        date.day_number() + (instant.utc_day() - date.day_number()) == instant.utc_day(),
        (instant.utc_day() - date.day_number()) * 86_400 <= instant.secs,
        instant.secs < (instant.utc_day() - date.day_number() + 1) * 86_400,
{
    reveal_with_fuel(crate::calendar::days_before_month, 2);
}

/// The next day of the calendar has the next day number, across months and years.
pub proof fn day_numbers_follow_the_calendar(date: CalendarDate, next: CalendarDate)
    requires
        date.valid(),
        next.valid(),
        (next.year == date.year && next.month == date.month && next.day == date.day + 1) || (
        next.year == date.year && next.month == date.month + 1 && next.day == 1 && date.day
            == crate::calendar::days_in_month(date.year as int, date.month as int)) || (next.year
            == date.year + 1 && next.month == 1 && next.day == 1 && date.month == 12 && date.day
            == 31),
    ensures
        next.day_number() == date.day_number() + 1,
{
    reveal_with_fuel(crate::calendar::days_before_month, 13);
    if next.year != date.year {
        let y = date.year as int;
        assert(crate::calendar::days_before_month(y, 12) == if crate::calendar::is_leap_year(y) {
            335int
        } else {
            334
        });
        assert(y / 4 - (y - 1) / 4 == if y % 4 == 0 { 1int } else { 0 });
        assert(y / 100 - (y - 1) / 100 == if y % 100 == 0 { 1int } else { 0 });
        assert(y / 400 - (y - 1) / 400 == if y % 400 == 0 { 1int } else { 0 });
    }
}

/// The days to an expiration count down by one a day, and reach zero on the day that the symbol
/// names.
pub proof fn expirations_count_down(symbol: Seq<char>, today: int)
    ensures
        match expiration_of(symbol) {
            Some(date) => {
                &&& expiration_days(symbol, today) == Some(date.day_number() - today)
                &&& expiration_days(symbol, date.day_number()) == Some(0int)
                &&& expiration_days(symbol, today + 1) == Some(date.day_number() - today - 1)
            },
            None => expiration_days(symbol, today) is None,
        },
{
}

/// An expiration is read from the six digits before the first letter of put or call that they stand
/// in front of.
pub proof fn expirations_are_read_from_the_symbol(
    root: Seq<char>,
    digits: Seq<char>,
    rest: Seq<char>,
)
    requires
        forall|i: int| 0 <= i < root.len() ==> !crate::symbol::is_digit(#[trigger] root[i]),
        digits.len() == 6,
        forall|i: int| 0 <= i < 6 ==> crate::symbol::is_digit(#[trigger] digits[i]),
        rest.len() > 0,
        rest[0] == 'P' || rest[0] == 'C',
    ensures
        ({
            let d = |i: int| digits[i] as u32 - '0' as u32;
            let date = CalendarDate {
                year: (2000 + 10 * d(0) + d(1)) as i32,
                month: (10 * d(2) + d(3)) as u32,
                day: (10 * d(4) + d(5)) as u32,
            };
            expiration_of(root + digits + rest) == if date.valid() {
                Some(date)
            } else {
                None
            }
        }),
{
    let symbol = root + digits + rest;
    mark_is_found(root, digits, rest, 0);
    let n = root.len() as int;
    assert(symbol[n] == digits[0]);
    assert(symbol[n + 1] == digits[1]);
    assert(symbol[n + 2] == digits[2]);
    assert(symbol[n + 3] == digits[3]);
    assert(symbol[n + 4] == digits[4]);
    assert(symbol[n + 5] == digits[5]);
}

proof fn mark_is_found(root: Seq<char>, digits: Seq<char>, rest: Seq<char>, at: int)
    requires
        0 <= at <= root.len(),
        forall|i: int| 0 <= i < root.len() ==> !crate::symbol::is_digit(#[trigger] root[i]),
        digits.len() == 6,
        forall|i: int| 0 <= i < 6 ==> crate::symbol::is_digit(#[trigger] digits[i]),
        rest.len() > 0,
        rest[0] == 'P' || rest[0] == 'C',
    ensures
        crate::symbol::expiration_from(root + digits + rest, at) == Some(
            crate::symbol::marked_date(root + digits + rest, root.len() as int),
        ),
    decreases root.len() - at,
{
    let symbol = root + digits + rest;
    let n = root.len() as int;
    if at < n {
        assert(symbol[at] == root[at]);
        assert(!crate::symbol::is_digit(symbol[at]));
        assert(!crate::symbol::expiration_mark_at(symbol, at));
        mark_is_found(root, digits, rest, at + 1);
    } else {
        assert forall|k: int| n <= k < n + 6 implies crate::symbol::is_digit(#[trigger] symbol[k]) by {
            assert(symbol[k] == digits[k - n]);
        }
        assert(symbol[n + 6] == rest[0]);
        assert(crate::symbol::expiration_mark_at(symbol, at));
    }
}

/// Four hundred years of the calendar have 146,097 days.
pub proof fn the_calendar_repeats(date: CalendarDate, later: CalendarDate)
    requires
        later.year == date.year + 400,
        later.month == date.month,
        later.day == date.day,
    ensures
        later.day_number() == date.day_number() + 146_097,
{
    let y = date.year - 1;
    months_repeat(date.year as int, date.month as int);
    assert((y + 400) / 4 == y / 4 + 100);
    assert((y + 400) / 100 == y / 100 + 4);
    assert((y + 400) / 400 == y / 400 + 1);
}

proof fn months_repeat(year: int, month: int)
    ensures
        crate::calendar::days_before_month(year + 400, month)
            == crate::calendar::days_before_month(year, month),
    decreases month,
{
    if month > 1 {
        months_repeat(year, month - 1);
        assert((year + 400) % 4 == year % 4);
        assert((year + 400) % 100 == year % 100);
        assert((year + 400) % 400 == year % 400);
    }
}

/// The nanoseconds into the day of a time outside a leap second.
pub open spec fn time_nanos(time: TimeOfDay) -> int {
    time.secs * 1_000_000_000 + time.nanos
}

/// A window is open from its start to its end, both included; it never is in an unknown zone.
pub proof fn windows_are_open_from_start_to_end(window: MarketWindow, now: UtcInstant)
    requires
        window.start.nanos < 1_000_000_000,
        window.end.nanos < 1_000_000_000,
        clock_in(now, window.zone@) matches Some(time) ==> time.nanos < 1_000_000_000,
    ensures
        window.open_at(now) <==> (clock_in(now, window.zone@) matches Some(time) && time_nanos(
            window.start,
        ) <= time_nanos(time) <= time_nanos(window.end)),
{
}

} // verus!
