//! Laws of scanner reports, evidence and the spread preview.
use vstd::prelude::*;

use crate::broker::AlpacaActivity;
use crate::broker::AlpacaOrder;
use crate::broker::AlpacaPosition;
use crate::calendar::instant_in;
use crate::calendar::nanos_since;
use crate::calendar::UtcInstant;
use crate::evidence::last_where;
use crate::evidence::passing;
use crate::evidence::recent_of_type;
use crate::evidence::Evidence;
use crate::json::Json;
use crate::orders::OptionSpreadLeg;
use crate::preview::covers;
use crate::preview::match_label;
use crate::preview::names_option;
use crate::preview::option_position;
use crate::preview::represented;
use crate::preview::shows_leg;
use crate::preview::touches;
use crate::preview::unknown_mapping;
use crate::preview::BrokerSymbols;
use crate::preview::ExpectedSpread;
use crate::preview::SpreadLegPreview;
use crate::scanner_report::first_seen;
use crate::scanner_report::found;
use crate::scanner_report::key_chars;
use crate::scanner_report::lookback_days;
use crate::scanner_report::missed_for;
use crate::scanner_report::number_of;
use crate::scanner_report::number_total;
use crate::scanner_report::ranked_total;
use crate::scanner_report::rejected_for;
use crate::scanner_report::rejection_total;
use crate::scanner_report::scans_named;
use crate::scanner_report::scans_with;
use crate::scanner_report::windowed;
use crate::scanner_report::ScanItem;
use crate::state::StrategyStateEntry;
use crate::status::broker_event_tree;
use crate::status::shows_entry;
use crate::status::ActiveEntryStatus;
use crate::text::opt_text;
use crate::text::texts;
use crate::text::trimmed;
use crate::text_set::filter_has;
use crate::text_set::TextSet;

verus! {

// ---------------------------------------------------------------------------------------------
// Scanner reports
// ---------------------------------------------------------------------------------------------

/// The number under a name, and zero where there is none that fits.
pub open spec fn count_in(scan: Json, name: Seq<char>) -> int {
    match scan.number_field(name) {
        Some(n) => if n <= usize::MAX {
            n as int
        } else {
            0
        },
        None => 0,
    }
}

/// Whether a scan says that it found a candidate, or counts one.
pub open spec fn says_found(scan: Json) -> bool {
    scan.text_field("outcome"@) == Some("candidate"@) || count_in(scan, "candidate_count"@) > 0
}

/// The reason that a scan without a candidate gives.
pub open spec fn says_why(scan: Json) -> Seq<char> {
    match scan.text_field("reason"@) {
        Some(reason) => reason,
        None => "no_candidate"@,
    }
}

/// One more scan is counted once: as one with a candidate or as one without, there under its reason, and
/// with its own numbers.
pub proof fn scans_are_counted_once(
    items: Seq<ScanItem>,
    item: ScanItem,
    name: Seq<char>,
    reason: Seq<char>,
)
    ensures
        scans_with(items.push(item), true).len() == scans_with(items, true).len()
            + super::operator::one_if(says_found(item.scan)),
        scans_with(items.push(item), false).len() == scans_with(items, false).len()
            + super::operator::one_if(!says_found(item.scan)),
        missed_for(items.push(item), reason).len() == missed_for(items, reason).len()
            + super::operator::one_if(!says_found(item.scan) && says_why(item.scan) == reason),
        number_total(items.push(item), name) == number_total(items, name) + count_in(
            item.scan,
            name,
        ),
        number_total(Seq::empty(), name) == 0,
        scans_with(Seq::empty(), true).len() == 0,
        scans_with(Seq::empty(), false).len() == 0,
{
    let all = items.push(item);
    reveal(Seq::filter);
    assert(all.drop_last() =~= items);
    assert(all.last() == item);
    assert(found(item.scan) == says_found(item.scan));
    assert(crate::scanner_report::reason_of(item.scan) == says_why(item.scan));
    assert(number_of(item.scan, name) == count_in(item.scan, name));
}

/// The rejections of a scan are counted by their reason.
pub proof fn rejections_count_by_reason(
    items: Seq<ScanItem>,
    item: ScanItem,
    fields: Seq<(String, Json)>,
    field: (String, Json),
    reason: Seq<char>,
)
    ensures
        rejected_for(items.push(item), reason) == rejected_for(items, reason) + rejection_total(
            crate::scanner_report::rejections_of(item.scan),
            reason,
        ),
        field.0@ != reason ==> rejection_total(fields.push(field), reason) == rejection_total(
            fields,
            reason,
        ),
        field.0@ == reason ==> (field.1 matches Json::Number(crate::json::JsonNumber::Natural(n)) ==> (
        n <= usize::MAX ==> rejection_total(fields.push(field), reason) == rejection_total(
            fields,
            reason,
        ) + n)),
        rejection_total(Seq::empty(), reason) == 0,
{
    assert(items.push(item).drop_last() =~= items);
    assert(fields.push(field).drop_last() =~= fields);
}

/// The scans of a name are those that say so.
pub proof fn scans_are_grouped_by_their_name(
    items: Seq<ScanItem>,
    key: Seq<char>,
    name: Seq<char>,
    item: ScanItem,
)
    ensures
        scans_named(items, key, name).contains(item) <==> items.contains(item) && (
        match item.scan.text_field(key) {
            Some(text) => text == name,
            None => name == "unknown"@,
        }),
{
    filter_has(
        items,
        |i: ScanItem| crate::scanner_report::name_of(i.scan, key) == name,
        item,
    );
}

/// Evidence counts exactly when it is of its kind and, where there is a lookback, not older than that;
/// evidence without a time that can be read counts always.
pub proof fn evidence_counts_within_the_lookback(
    events: Seq<Evidence>,
    kind: Seq<char>,
    now: UtcInstant,
    since_secs: i64,
    value: Json,
)
    ensures
        windowed(events, kind, now, since_secs).contains(value) <==> {
            &&& exists|i: int| 0 <= i < events.len() && (#[trigger] events[i]).value == value
            &&& value.text_field("type"@) == Some(kind)
            &&& since_secs == 0 || !(value.text_field("ts_utc"@) matches Some(text) && instant_in(
                text,
            ) matches Some(then) && nanos_since(now, then) > since_secs * 1_000_000_000)
        },
    decreases events.len(),
{
    if events.len() > 0 {
        let rest = events.drop_last();
        evidence_counts_within_the_lookback(rest, kind, now, since_secs, value);
        let before = windowed(rest, kind, now, since_secs);
        let all = windowed(events, kind, now, since_secs);
        let last = events.last().value;
        assert(events[events.len() - 1].value == last);
        if before.contains(value) {
            let i = choose|i: int| 0 <= i < rest.len() && (#[trigger] rest[i]).value == value;
            assert(events[i].value == value);
            assert(all[before.index_of(value)] == value);
        }
        if all.len() > before.len() {
            assert(all[before.len() as int] == last);
        }
        if all.contains(value) {
            let k = all.index_of(value);
            if k < before.len() {
                assert(before[k] == value);
            }
        }
        if exists|i: int| 0 <= i < events.len() && (#[trigger] events[i]).value == value {
            let i = choose|i: int| 0 <= i < events.len() && (#[trigger] events[i]).value == value;
            if i < rest.len() {
                assert(rest[i].value == value);
            }
        }
    }
}

/// Of evidence with the same kind, time, series and underlying only the first counts, and all other
/// evidence counts.
pub proof fn only_the_first_of_its_key_counts(values: Seq<Json>, value: Json)
    ensures
        ({
            let repeated = exists|i: int|
                0 <= i < values.len() && key_chars(#[trigger] values[i]) == key_chars(value);
            &&& repeated ==> first_seen(values.push(value)) == first_seen(values)
            &&& !repeated ==> first_seen(values.push(value)) == first_seen(values).push(value)
        }),
        first_seen(Seq::empty()).len() == 0,
{
    assert(values.push(value).drop_last() =~= values);
}

/// The key of evidence is its kind, its time, its series and its underlying.
pub proof fn evidence_is_keyed_by_what_it_is(a: Json, b: Json)
    requires
        a.text_field("type"@) == b.text_field("type"@),
        a.text_field("ts_utc"@) == b.text_field("ts_utc"@),
        a.text_field("series_id"@) == b.text_field("series_id"@),
        a.text_field("underlying"@) == b.text_field("underlying"@),
    ensures
        key_chars(a) == key_chars(b),
        ({
            let part = |name: Seq<char>|
                match a.text_field(name) {
                    Some(text) => text,
                    None => "unknown"@,
                };
            key_chars(a) == part("type"@) + "|"@ + part("ts_utc"@) + "|"@ + part("series_id"@) + "|"@
                + part("underlying"@)
        }),
{
}

/// The entries that were ranked are summed over all evidence.
pub proof fn ranked_entries_are_summed(values: Seq<Json>, value: Json)
    ensures
        ranked_total(values.push(value)) == ranked_total(values) + count_in(
            value,
            "ranked_entries"@,
        ),
        ranked_total(Seq::empty()) == 0,
{
    assert(values.push(value).drop_last() =~= values);
}

/// The days of a lookback cover it, and one day less does not.
pub proof fn lookback_days_cover_the_lookback(since_secs: int)
    ensures
        since_secs > 0 ==> lookback_days(since_secs) * 86_400 >= since_secs && (lookback_days(
            since_secs,
        ) - 1) * 86_400 < since_secs,
        since_secs <= 0 ==> lookback_days(since_secs) == 1,
{
}

// ---------------------------------------------------------------------------------------------
// Evidence
// ---------------------------------------------------------------------------------------------

/// The latest evidence that passes is the last one: none after it does.
pub proof fn the_latest_evidence_is_the_last(events: Seq<Evidence>, pass: spec_fn(Json) -> bool)
    ensures
        match last_where(events, pass) {
            Some(at) => 0 <= at < events.len() && pass(events[at].value) && (forall|i: int|
                at < i < events.len() ==> !pass((#[trigger] events[i]).value)),
            None => forall|i: int| 0 <= i < events.len() ==> !pass((#[trigger] events[i]).value),
        },
    decreases events.len(),
{
    if events.len() > 0 && !pass(events.last().value) {
        let rest = events.drop_last();
        the_latest_evidence_is_the_last(rest, pass);
        assert forall|i: int|
            (match last_where(events, pass) {
                Some(at) => at,
                None => -1,
            }) < i < events.len() && i >= 0 implies !pass((#[trigger] events[i]).value) by {
            if i < rest.len() {
                assert(rest[i] == events[i]);
            }
        }
    }
}

/// Evidence is recent of a type exactly when it has the type and a time within the lookback.
pub proof fn recent_evidence_has_type_and_time(
    value: Json,
    kind: Seq<char>,
    now: UtcInstant,
    lookback: int,
)
    ensures
        recent_of_type(value, kind, now, lookback) <==> {
            &&& value.text_field("type"@) == Some(kind)
            &&& value.text_field("ts_utc"@) matches Some(text) && crate::calendar::is_recent(
                text,
                now,
                lookback,
            )
        },
{
}

/// What passes is counted once for each piece of evidence.
pub proof fn passing_evidence_is_counted(
    events: Seq<Evidence>,
    event: Evidence,
    pass: spec_fn(Json) -> bool,
)
    ensures
        passing(events.push(event), pass).len() == passing(events, pass).len()
            + super::operator::one_if(pass(event.value)),
        passing(Seq::empty(), pass).len() == 0,
{
    reveal(Seq::filter);
    assert(events.push(event).drop_last() =~= events);
}

/// The latest sign of the broker is its first activity, and its first order only where there is none.
pub proof fn activities_come_before_orders(
    orders: Seq<AlpacaOrder>,
    activities: Seq<AlpacaActivity>,
)
    ensures
        ({
            let sign = broker_event_tree(orders, activities);
            &&& sign is None <==> orders.len() == 0 && activities.len() == 0
            &&& activities.len() > 0 ==> sign == broker_event_tree(Seq::empty(), activities.take(1))
            &&& activities.len() == 0 && orders.len() > 0 ==> sign == broker_event_tree(
                orders.take(1),
                activities,
            )
        }),
{
}

/// An active entry is shown with its own figures.
pub proof fn entries_are_shown_as_they_are(
    status: ActiveEntryStatus,
    entry: StrategyStateEntry,
)
    requires
        shows_entry(status, entry),
    ensures
        status.underlying == entry.underlying,
        status.strategy == entry.strategy,
        texts(status.symbols@) == entry.leg_symbols(),
        status.credit == entry.credit,
        status.debit == entry.debit,
        status.score == entry.score,
        status.close_attempts == entry.close_attempts,
        status.close_reason == entry.close_reason,
        status.close_order_list_id == entry.close_order_list_id,
        status.recorded_at_utc == entry.recorded_at_utc,
        status.last_close_submitted_at_utc == entry.last_close_submitted_at_utc,
        super::closing::named_debit(entry) ==> status.net_premium_kind@ == "debit"@,
        !super::closing::named_debit(entry) ==> status.net_premium_kind@ == "credit"@,
{
}

// ---------------------------------------------------------------------------------------------
// Nested orders
// ---------------------------------------------------------------------------------------------

/// An order mentions a symbol exactly when it is its own or one of its legs mentions it.
pub proof fn orders_mention_their_legs(order: AlpacaOrder, symbol: Seq<char>)
    ensures
        order.mentions(symbol) <==> opt_text(order.symbol) == Some(symbol) || (order.legs matches Some(
            legs,
        ) && exists|i: int| 0 <= i < legs@.len() && (#[trigger] legs@[i]).mentions(symbol)),
{
    if order.legs is Some {
        legs_are_mentioned(order.legs->0@, symbol, order.legs->0@.len());
    }
}

proof fn legs_are_mentioned(legs: Seq<AlpacaOrder>, symbol: Seq<char>, n: nat)
    requires
        n <= legs.len(),
    ensures
        crate::broker::legs_mention(legs, symbol, n) <==> exists|i: int|
            0 <= i < n && (#[trigger] legs[i]).mentions(symbol),
    decreases n,
{
    if n > 0 {
        legs_are_mentioned(legs, symbol, (n - 1) as nat);
        assert(legs[n - 1].mentions(symbol) ==> exists|i: int|
            0 <= i < n && (#[trigger] legs[i]).mentions(symbol));
    }
}

/// An order names an option exactly when it is an option of its own or one of its legs names it.
pub proof fn orders_name_the_options_of_their_legs(order: AlpacaOrder, symbol: Seq<char>)
    ensures
        names_option(order, symbol) <==> (opt_text(order.asset_class) == Some("us_option"@) && (
        order.symbol matches Some(text) && trimmed(text@) == symbol && symbol.len() > 0)) || (
        order.legs matches Some(legs) && exists|i: int|
            0 <= i < legs@.len() && names_option(#[trigger] legs@[i], symbol)),
{
    if order.legs is Some {
        legs_are_named(order.legs->0@, symbol, order.legs->0@.len());
    }
}

proof fn legs_are_named(legs: Seq<AlpacaOrder>, symbol: Seq<char>, n: nat)
    requires
        n <= legs.len(),
    ensures
        crate::preview::legs_name_option(legs, symbol, n) <==> exists|i: int|
            0 <= i < n && names_option(#[trigger] legs[i], symbol),
    decreases n,
{
    if n > 0 {
        legs_are_named(legs, symbol, (n - 1) as nat);
        assert(names_option(legs[n - 1], symbol) ==> exists|i: int|
            0 <= i < n && names_option(#[trigger] legs[i], symbol));
    }
}

/// A position is one of options exactly when its class says so and its symbol is more than space.
pub proof fn option_positions_have_a_symbol(position: AlpacaPosition)
    ensures
        option_position(position) is Some <==> opt_text(position.asset_class) == Some("us_option"@)
            && (position.symbol matches Some(text) && trimmed(text@).len() > 0),
        option_position(position) matches Some(symbol) ==> symbol == trimmed(position.symbol->0@),
{
}

// ---------------------------------------------------------------------------------------------
// Spread preview
// ---------------------------------------------------------------------------------------------

/// A spread is missing when nothing of it is there, matched when all of it is, and partial otherwise.
pub proof fn spreads_are_matched_in_whole_or_part(matched: int, expected: int)
    requires
        0 <= matched <= expected,
    ensures
        matched == 0 ==> match_label(matched, expected) == "missing"@,
        0 < matched < expected ==> match_label(matched, expected) == "partial"@,
        0 < matched == expected ==> match_label(matched, expected) == "matched"@,
{
}

/// A leg is represented exactly when the broker holds it or has it on order.
pub proof fn legs_are_represented_by_positions_and_orders(
    expected: TextSet,
    broker: BrokerSymbols,
    symbol: Seq<char>,
)
    ensures
        represented(expected, broker).contains(symbol) <==> expected.has(symbol) && (
        broker.positions.has(symbol) || broker.open_orders.has(symbol)),
{
    filter_has(
        expected@,
        |s: Seq<char>| broker.positions.has(s) || broker.open_orders.has(s),
        symbol,
    );
}

/// A leg is shown with what the broker has of it.
pub proof fn legs_are_shown_with_what_is_there(
    shown: SpreadLegPreview,
    leg: OptionSpreadLeg,
    broker: BrokerSymbols,
)
    requires
        shows_leg(shown, leg, broker),
    ensures
        shown.symbol == leg.symbol,
        shown.ratio == leg.ratio,
        shown.instrument_id == leg.instrument_id,
        shown.position_present <==> broker.positions.has(leg.symbol@),
        shown.open_order_present <==> broker.open_orders.has(leg.symbol@),
        shown.recent_activity_seen <==> broker.activities.has(leg.symbol@),
{
}

/// The number of spreads that an order covers exactly.
pub open spec fn exactly_covered(order: AlpacaOrder, spreads: Seq<ExpectedSpread>) -> int
    decreases spreads.len(),
{
    if spreads.len() == 0 {
        0
    } else {
        exactly_covered(order, spreads.drop_last()) + super::operator::one_if(
            covers(order, spreads.last().symbols),
        )
    }
}

proof fn exact_ids_are_counted(order: AlpacaOrder, spreads: Seq<ExpectedSpread>)
    ensures
        crate::preview::exact_ids(order, spreads).len() == exactly_covered(order, spreads),
    decreases spreads.len(),
{
    reveal(Seq::filter);
    if spreads.len() > 0 {
        exact_ids_are_counted(order, spreads.drop_last());
    }
}

proof fn partial_ids_tell(order: AlpacaOrder, spreads: Seq<ExpectedSpread>)
    ensures
        crate::preview::partial_ids(order, spreads).len() > 0 <==> exists|i: int|
            0 <= i < spreads.len() && touches(order, (#[trigger] spreads[i]).symbols),
{
    let kept = spreads.filter(|spread: ExpectedSpread| touches(order, spread.symbols));
    assert forall|s: ExpectedSpread| #[trigger] kept.contains(s) <==> spreads.contains(s)
        && touches(order, s.symbols) by {
        filter_has(spreads, |spread: ExpectedSpread| touches(order, spread.symbols), s);
    }
    if kept.len() > 0 {
        assert(kept.contains(kept[0]));
        assert(spreads[spreads.index_of(kept[0])] == kept[0]);
    }
    if exists|i: int| 0 <= i < spreads.len() && touches(order, (#[trigger] spreads[i]).symbols) {
        let i = choose|i: int|
            0 <= i < spreads.len() && touches(order, (#[trigger] spreads[i]).symbols);
        assert(spreads.contains(spreads[i]));
        assert(kept.contains(spreads[i]));
    }
}

/// An order that names options is clear exactly when it covers one spread, or when it is a plain order on
/// no leg of any spread. One that covers several is ambiguous, one that touches spreads without covering
/// any is partial, and a multi-leg one that touches none is unmanaged.
pub proof fn orders_are_mapped_to_spreads(
    order: AlpacaOrder,
    spreads: Seq<ExpectedSpread>,
    symbol: Seq<char>,
)
    requires
        names_option(order, symbol),
    ensures
        ({
            let mapping = unknown_mapping(order, spreads);
            let covered = exactly_covered(order, spreads);
            let touched = exists|i: int|
                0 <= i < spreads.len() && touches(order, (#[trigger] spreads[i]).symbols);
            let multi = opt_text(order.order_class) == Some("mleg"@);
            &&& covered == 1 ==> mapping is None
            &&& covered > 1 ==> mapping is Some && (mapping->0).0 == "ambiguous_spread_identity"@
            &&& covered == 0 && touched ==> mapping is Some && (mapping->0).0 == "partial_spread_leg_mapping"@
            &&& covered == 0 && !touched && multi ==> mapping is Some && (mapping->0).0 == "unmanaged_mleg_parent"@
            &&& covered == 0 && !touched && !multi ==> mapping is None
        }),
{
    exact_ids_are_counted(order, spreads);
    partial_ids_tell(order, spreads);
}

/// An order that names no option is told exactly when it is a multi-leg one.
pub proof fn orders_without_options_are_told(order: AlpacaOrder, spreads: Seq<ExpectedSpread>)
    requires
        forall|symbol: Seq<char>| !#[trigger] names_option(order, symbol),
    ensures
        unknown_mapping(order, spreads) is Some <==> opt_text(order.order_class) == Some("mleg"@),
        unknown_mapping(order, spreads) matches Some(found) ==> found.0 == "missing_leg_symbols"@,
{
}

} // verus!
