//! Option symbols and instrument identifiers.
use std::str::FromStr;

use vstd::prelude::*;

use crate::calendar::day_of;
use crate::calendar::CalendarDate;
use crate::text::chars_of;
use crate::text::is_space;

verus! {

/// Whether a character is a decimal digit.
pub open spec fn is_digit(c: char) -> bool {
    '0' <= c <= '9'
}

/// The value of a decimal digit.
pub open spec fn digit_value(c: char) -> int {
    c as u32 - '0' as u32
}

/// Whether six digits and a put or call mark stand at a position.
pub open spec fn expiration_mark_at(symbol: Seq<char>, at: int) -> bool {
    &&& 0 <= at
    &&& at + 7 <= symbol.len()
    &&& forall|k: int| at <= k < at + 6 ==> is_digit(#[trigger] symbol[k])
    &&& (symbol[at + 6] == 'P' || symbol[at + 6] == 'C')
}

/// The date that six digits at a position write as `YYMMDD`.
pub open spec fn marked_date(symbol: Seq<char>, at: int) -> CalendarDate {
    CalendarDate {
        year: (2000 + 10 * digit_value(symbol[at]) + digit_value(symbol[at + 1])) as i32,
        month: (10 * digit_value(symbol[at + 2]) + digit_value(symbol[at + 3])) as u32,
        day: (10 * digit_value(symbol[at + 4]) + digit_value(symbol[at + 5])) as u32,
    }
}

/// The date at the first expiration mark from a position on.
pub open spec fn expiration_from(symbol: Seq<char>, at: int) -> Option<CalendarDate>
    decreases symbol.len() - at,
{
    if at < 0 || at + 7 > symbol.len() {
        None
    } else if expiration_mark_at(symbol, at) {
        Some(marked_date(symbol, at))
    } else {
        expiration_from(symbol, at + 1)
    }
}

/// The expiration that an option symbol states, if it is a date of the calendar.
pub open spec fn expiration_of(symbol: Seq<char>) -> Option<CalendarDate> {
    match expiration_from(symbol, 0) {
        Some(date) => if date.valid() {
            Some(date)
        } else {
            None
        },
        None => None,
    }
}

/// The calendar days from a day to the expiration that an option symbol states.
pub open spec fn expiration_days(symbol: Seq<char>, today: int) -> Option<int> {
    match expiration_of(symbol) {
        Some(date) => Some(date.day_number() - today),
        None => None,
    }
}

fn value_of(c: char) -> (value: u32)
    requires
        is_digit(c),
    ensures
        value == digit_value(c),
        value <= 9,
{
    c as u32 - '0' as u32
}

fn mark_at(chars: &Vec<char>, at: usize) -> (found: bool)
    requires
        at + 7 <= chars@.len(),
    ensures
        found == expiration_mark_at(chars@, at as int),
{
    let _n: usize = chars.len();
    let mut k: usize = at;
    while k < at + 6
        invariant
            at <= k <= at + 6,
            at + 7 <= chars@.len() <= usize::MAX,
            forall|j: int| at <= j < k ==> is_digit(#[trigger] chars@[j]),
        decreases at + 6 - k,
    {
        let c = chars[k];
        if !('0' <= c && c <= '9') {
            assert(!is_digit(chars@[k as int]));
            return false;
        }
        k += 1;
    }
    chars[at + 6] == 'P' || chars[at + 6] == 'C'
}

/// Parses an Alpaca option symbol and returns the calendar days from `today`, a day number, to
/// its expiration.
pub fn days_to_expiration(symbol: &str, today: i64) -> (days: Option<i64>)
    requires
        -0x1000_0000_0000_0000 <= today <= 0x1000_0000_0000_0000,
    ensures
        match days {
            Some(n) => expiration_days(symbol@, today as int) == Some(n as int),
            None => expiration_days(symbol@, today as int) is None,
        },
{
    let chars = chars_of(symbol);
    let n: usize = chars.len();
    let mut at: usize = 0;
    while n >= 7 && at <= n - 7
        invariant
            chars@ == symbol@,
            n == chars@.len() <= usize::MAX,
            n >= 7 ==> at <= n - 6,
            n < 7 ==> at == 0,
            expiration_from(symbol@, 0) == expiration_from(symbol@, at as int),
            -0x1000_0000_0000_0000 <= today <= 0x1000_0000_0000_0000,
        decreases n - at,
    {
        if mark_at(&chars, at) {
            proof {
                assert(is_digit(symbol@[at as int]));
                assert(is_digit(symbol@[at + 1]));
                assert(is_digit(symbol@[at + 2]));
                assert(is_digit(symbol@[at + 3]));
                assert(is_digit(symbol@[at + 4]));
                assert(is_digit(symbol@[at + 5]));
            }
            let date = CalendarDate {
                year: 2000 + 10 * (value_of(chars[at]) as i32) + value_of(chars[at + 1]) as i32,
                month: 10 * value_of(chars[at + 2]) + value_of(chars[at + 3]),
                day: 10 * value_of(chars[at + 4]) + value_of(chars[at + 5]),
            };
            return match day_of(date) {
                Some(day) => Some(day as i64 - today),
                None => None,
            };
        }
        at += 1;
    }
    None
}

// ---------------------------------------------------------------------------------------------
// Instrument identifiers
// ---------------------------------------------------------------------------------------------

/// Whether a text holds a character that is no white space.
pub open spec fn is_visible(text: Seq<char>) -> bool {
    exists|i: int| 0 <= i < text.len() && !is_space(#[trigger] text[i])
}

/// Whether a text is a visible symbol, a dot at a position, and a visible ASCII venue without a dot.
pub open spec fn splits_at(text: Seq<char>, dot: int) -> bool {
    &&& 0 <= dot < text.len()
    &&& text[dot] == '.'
    &&& forall|k: int| dot < k < text.len() ==> #[trigger] text[k] != '.' && text[k] as u32 <= 127
    &&& is_visible(text.take(dot))
    &&& is_visible(text.skip(dot + 1))
}

/// Whether a text is a visible symbol, a dot and a visible ASCII venue without a dot.
pub open spec fn is_instrument_text(text: Seq<char>) -> bool {
    exists|dot: int| splits_at(text, dot)
}

/// Checks the text of an instrument identifier.
///
/// Calls `nautilus_model::identifiers::InstrumentId::from_str`, which is built without the `defi`
/// feature: it splits the text at its last dot into symbol and venue, refuses a part without a visible
/// character and a venue that is not ASCII, and writes an identifier that it took back as the same
/// text.
#[verifier::external_body]
fn parse_instrument_id(text: &str) -> (id: Option<String>)
    ensures
        id is Some <==> is_instrument_text(text@),
        id matches Some(written) ==> written@ == text@,
{
    let id = nautilus_model::identifiers::InstrumentId::from_str(text).ok()?;
    Some(id.to_string())
}

/// The identifier of an option on the Alpaca venue.
pub open spec fn instrument_chars(symbol: Seq<char>) -> Seq<char> {
    symbol + ".ALPACA"@
}

/// The identifier of a symbol is well formed exactly when the symbol is visible.
proof fn instrument_text_needs_a_visible_symbol(symbol: Seq<char>)
    ensures
        is_instrument_text(instrument_chars(symbol)) <==> is_visible(symbol),
{
    let venue = ".ALPACA"@;
    let whole = instrument_chars(symbol);
    let dot = symbol.len() as int;
    assert(venue.len() == 7 && venue[0] == '.' && forall|k: int|
        0 < k < 7 ==> #[trigger] venue[k] != '.' && venue[k] as u32 <= 127 && !is_space(venue[k]))
        by {
        reveal_strlit(".ALPACA");
    }
    assert(whole.take(dot) =~= symbol);
    assert(whole.skip(dot + 1) =~= venue.skip(1));
    assert(venue.skip(1)[0] == venue[1]);
    assert(is_visible(venue.skip(1)));
    assert(forall|k: int| dot < k < whole.len() ==> #[trigger] whole[k] == venue[k - dot]);
    if is_visible(symbol) {
        assert(splits_at(whole, dot));
    }
    if is_instrument_text(whole) {
        let at = choose|at: int| splits_at(whole, at);
        assert(whole[dot] == '.');
        assert(at == dot);
    }
}

/// Builds an Alpaca option instrument ID from a symbol; a symbol without a visible character has
/// none.
pub fn alpaca_instrument_id(symbol: &str) -> (id: Option<String>)
    ensures
        id is Some <==> is_visible(symbol@),
        id matches Some(text) ==> text@ == instrument_chars(symbol@),
{
    let text = symbol.to_owned().concat(".ALPACA");
    proof {
        instrument_text_needs_a_visible_symbol(symbol@);
    }
    parse_instrument_id(text.as_str())
}

} // verus!
