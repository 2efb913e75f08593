//! Laws of recorded entries and of counting them.
use vstd::prelude::*;

use crate::admission::unestimated;
use crate::state::active_entries;
use crate::state::active_in_sector;
use crate::state::active_on;
use crate::state::close_position;
use crate::state::counted_on;
use crate::state::entry_position;
use crate::state::recorded_entry;
use crate::state::StrategyStateEntry;
use crate::state::StrategyStateEntryDraft;
use crate::text::lower;
use crate::text::opt_text;
use crate::text::upper;
use crate::text_map::TextMap;

verus! {

/// Whether an entry was submitted and is neither closed nor canceled.
pub open spec fn open_entry(entry: StrategyStateEntry) -> bool {
    entry.submitted && !(entry.closed || entry.canceled)
}

/// The symbols of an entry are those of its legs that have one, each leg with one once.
pub proof fn symbols_are_those_of_the_legs(entry: StrategyStateEntry, symbol: Seq<char>)
    ensures
        entry.leg_symbols().contains(symbol) <==> symbol.len() > 0 && (entry.short_symbol@ == symbol
            || entry.long_symbol@ == symbol || opt_text(entry.short_call_symbol) == Some(symbol)
            || opt_text(entry.long_call_symbol) == Some(symbol)),
        entry.leg_symbols().len() == (if entry.short_symbol@.len() > 0 {
            1int
        } else {
            0
        }) + (if entry.long_symbol@.len() > 0 {
            1int
        } else {
            0
        }) + (if opt_text(entry.short_call_symbol) matches Some(text) && text.len() > 0 {
            1int
        } else {
            0
        }) + (if opt_text(entry.long_call_symbol) matches Some(text) && text.len() > 0 {
            1int
        } else {
            0
        }),
{
    let a = crate::state::symbol_list(entry.short_symbol@);
    let b = crate::state::symbol_list(entry.long_symbol@);
    let c = crate::state::opt_symbol_list(entry.short_call_symbol);
    let d = crate::state::opt_symbol_list(entry.long_call_symbol);
    let all = entry.leg_symbols();
    assert(all == a + b + c + d);
    if symbol.len() > 0 {
        if entry.short_symbol@ == symbol {
            assert(all[0] == symbol);
        }
        if entry.long_symbol@ == symbol {
            assert(all[a.len() as int] == symbol);
        }
        if opt_text(entry.short_call_symbol) == Some(symbol) {
            assert(all[(a.len() + b.len()) as int] == symbol);
        }
        if opt_text(entry.long_call_symbol) == Some(symbol) {
            assert(all[(a.len() + b.len() + c.len()) as int] == symbol);
        }
    }
}

/// An entry is active while it is open, and counts as a submission until it is canceled.
pub proof fn entries_are_active_while_open(entry: StrategyStateEntry)
    ensures
        entry.active() <==> open_entry(entry),
        entry.risk_counted() <==> entry.submitted && !entry.canceled,
        entry.active() ==> entry.risk_counted(),
{
}

/// A closed entry is over but still counts as a submission, and keeps all else that it was.
pub proof fn closing_ends_an_entry(
    entry: StrategyStateEntry,
    parent_order_id: Option<String>,
    now: String,
)
    ensures
        ({
            let after = entry.after_close(parent_order_id, now);
            &&& !open_entry(after)
            &&& after.closed
            &&& after.closed_at_utc == Some(now)
            &&& after.close_parent_order_id == if parent_order_id is None {
                entry.close_parent_order_id
            } else {
                parent_order_id
            }
            &&& after.submitted == entry.submitted && after.canceled == entry.canceled
            &&& after.order_list_id == entry.order_list_id
            &&& after.strategy == entry.strategy && after.underlying == entry.underlying
            &&& after.trade_date == entry.trade_date && after.quantity == entry.quantity
            &&& after.leg_symbols() == entry.leg_symbols()
            &&& after.credit == entry.credit && after.debit == entry.debit
            &&& after.risk_capital_usd == entry.risk_capital_usd
            &&& after.close_order_list_id == entry.close_order_list_id
            &&& after.close_reason == entry.close_reason
            &&& after.close_order_mode == entry.close_order_mode
            &&& after.close_attempts == entry.close_attempts
            &&& after.last_close_submitted_at_utc == entry.last_close_submitted_at_utc
            &&& after.recorded_at_utc == entry.recorded_at_utc
        }),
{
}

/// A canceled entry is over and no longer counts as a submission; nothing else about it changes.
pub proof fn canceling_takes_an_entry_back(entry: StrategyStateEntry)
    ensures
        !open_entry(entry.after_cancel()),
        entry.after_cancel().canceled,
        entry.after_cancel().closed == entry.closed,
        entry.after_cancel().closed_at_utc == entry.closed_at_utc,
        entry.after_cancel().submitted == entry.submitted,
        entry.after_cancel().order_list_id == entry.order_list_id,
        entry.after_cancel().close_order_list_id == entry.close_order_list_id,
        entry.after_cancel().close_reason == entry.close_reason,
        entry.after_cancel().close_attempts == entry.close_attempts,
        entry.after_cancel().leg_symbols() == entry.leg_symbols(),
        entry.after_cancel().strategy == entry.strategy,
        entry.after_cancel().quantity == entry.quantity,
{
}

/// A close that is forgotten leaves the entry as open as it was, with its attempts and the time of
/// the last one still on record.
pub proof fn clearing_keeps_the_attempts(entry: StrategyStateEntry)
    ensures
        open_entry(entry.after_clear()) == open_entry(entry),
        entry.after_clear().close_order_list_id is None,
        entry.after_clear().close_parent_order_id is None,
        entry.after_clear().close_reason is None,
        entry.after_clear().close_order_mode is None,
        entry.after_clear().close_attempts == entry.close_attempts,
        entry.after_clear().last_close_submitted_at_utc == entry.last_close_submitted_at_utc,
        entry.after_clear().order_list_id == entry.order_list_id,
        entry.after_clear().leg_symbols() == entry.leg_symbols(),
        entry.after_clear().quantity == entry.quantity,
        entry.after_clear().closed == entry.closed,
        entry.after_clear().canceled == entry.canceled,
{
}

/// A close that the broker took is on record with its reason, its mode and its time, and counts as an
/// attempt; forgetting it undoes all but the count and the time.
pub proof fn submitted_closes_are_on_record(
    entry: StrategyStateEntry,
    close_order_list_id: String,
    parent_order_id: Option<String>,
    reason: String,
    mode: String,
    now: String,
)
    ensures
        ({
            let after = entry.after_close_submission(
                close_order_list_id,
                parent_order_id,
                reason,
                mode,
                now,
            );
            &&& after.close_order_list_id == Some(close_order_list_id)
            &&& after.close_parent_order_id == parent_order_id
            &&& after.close_reason == Some(reason)
            &&& after.close_order_mode == Some(mode)
            &&& after.last_close_submitted_at_utc == Some(now)
            &&& entry.close_attempts < u32::MAX ==> after.close_attempts == entry.close_attempts + 1
            &&& entry.close_attempts == u32::MAX ==> after.close_attempts == u32::MAX
            &&& open_entry(after) == open_entry(entry)
            &&& after.closed == entry.closed && after.canceled == entry.canceled
            &&& after.order_list_id == entry.order_list_id
            &&& after.leg_symbols() == entry.leg_symbols()
            &&& after.quantity == entry.quantity
            &&& after.after_clear() == (StrategyStateEntry {
                close_attempts: after.close_attempts,
                last_close_submitted_at_utc: Some(now),
                ..entry.after_clear()
            })
        }),
{
}

/// A draft is recorded as an open entry with its own figures and without a close.
pub proof fn drafts_are_recorded_as_they_are(draft: StrategyStateEntryDraft, now: String)
    ensures
        ({
            let entry = recorded_entry(draft, now);
            &&& open_entry(entry)
            &&& entry.recorded_at_utc == now
            &&& entry.close_attempts == 0 && entry.close_order_list_id is None
            &&& entry.last_close_submitted_at_utc is None && entry.closed_at_utc is None
            &&& entry.close_reason is None && entry.close_parent_order_id is None
            &&& entry.trade_date == draft.trade_date
            &&& entry.underlying == draft.underlying
            &&& entry.strategy == draft.strategy
            &&& entry.order_list_id == draft.order_list_id
            &&& entry.short_symbol == draft.short_symbol
            &&& entry.long_symbol == draft.long_symbol
            &&& entry.short_call_symbol == draft.short_call_symbol
            &&& entry.long_call_symbol == draft.long_call_symbol
            &&& entry.quantity == draft.quantity
            &&& entry.credit == draft.credit && entry.debit == draft.debit
            &&& entry.risk_capital_usd == draft.risk_capital_usd
            &&& entry.score == draft.score
            &&& entry.parent_order_id == draft.parent_order_id
            &&& entry.submitted_at_utc == draft.submitted_at_utc
        }),
{
}

/// One more entry raises each count by one exactly where it belongs: active entries by an open one,
/// the submissions of a date by one of that date that was not canceled, the entries on an underlying
/// or in a sector by an open one there, whatever the case of its letters, and the unestimated ones by
/// an open one without an estimate.
pub proof fn counts_grow_with_each_entry(
    entries: Seq<StrategyStateEntry>,
    entry: StrategyStateEntry,
    trade_date: Seq<char>,
    underlying: Seq<char>,
    sectors: TextMap<String>,
    sector: Seq<char>,
)
    ensures
        active_entries(entries.push(entry)).len() == active_entries(entries).len() + (if open_entry(
            entry,
        ) {
            1int
        } else {
            0
        }),
        counted_on(entries.push(entry), trade_date).len() == counted_on(entries, trade_date).len() + (
        if entry.submitted && !entry.canceled && entry.trade_date@ == trade_date {
            1int
        } else {
            0
        }),
        active_on(entries.push(entry), underlying).len() == active_on(entries, underlying).len() + (
        if open_entry(entry) && lower(entry.underlying@) == lower(underlying) {
            1int
        } else {
            0
        }),
        active_in_sector(entries.push(entry), sectors, sector).len() == active_in_sector(
            entries,
            sectors,
            sector,
        ).len() + (if open_entry(entry) && opt_text(sectors.at(upper(entry.underlying@))) == Some(
            sector,
        ) {
            1int
        } else {
            0
        }),
        unestimated(entries.push(entry)).len() == unestimated(entries).len() + (if open_entry(entry)
            && entry.risk_capital_usd is None {
            1int
        } else {
            0
        }),
{
    reveal(Seq::filter);
    assert(entries.push(entry).drop_last() =~= entries);
}

/// Where there are no entries, every count is zero.
pub proof fn counts_start_at_zero(
    trade_date: Seq<char>,
    underlying: Seq<char>,
    sectors: TextMap<String>,
    sector: Seq<char>,
)
    ensures
        active_entries(Seq::empty()).len() == 0,
        counted_on(Seq::empty(), trade_date).len() == 0,
        active_on(Seq::empty(), underlying).len() == 0,
        active_in_sector(Seq::empty(), sectors, sector).len() == 0,
        unestimated(Seq::empty()).len() == 0,
{
    reveal(Seq::filter);
}

/// An entry is found by its order-list ID: it is the first with that ID, and none is found exactly
/// when none has it.
pub proof fn entries_are_found_by_their_list(
    entries: Seq<StrategyStateEntry>,
    order_list_id: Seq<char>,
)
    ensures
        ({
            let at = entry_position(entries, order_list_id);
            &&& 0 <= at <= entries.len()
            &&& at < entries.len() ==> entries[at].order_list_id@ == order_list_id
            &&& forall|i: int|
                0 <= i < at ==> (#[trigger] entries[i]).order_list_id@ != order_list_id
        }),
    decreases entries.len(),
{
    if entries.len() > 0 && entries[0].order_list_id@ != order_list_id {
        let rest = entries.drop_first();
        entries_are_found_by_their_list(rest, order_list_id);
        assert forall|i: int| 0 <= i < entry_position(entries, order_list_id) implies (
        #[trigger] entries[i]).order_list_id@ != order_list_id by {
            if i > 0 {
                assert(rest[i - 1] == entries[i]);
            }
        }
    }
}

/// The entry of a close is the first that has the close's order-list ID on record.
pub proof fn closes_are_found_by_their_list(entries: Seq<StrategyStateEntry>, close_id: Seq<char>)
    ensures
        ({
            let at = close_position(entries, close_id);
            &&& 0 <= at <= entries.len()
            &&& at < entries.len() ==> opt_text(entries[at].close_order_list_id) == Some(close_id)
            &&& forall|i: int|
                0 <= i < at ==> opt_text((#[trigger] entries[i]).close_order_list_id) != Some(
                    close_id,
                )
        }),
    decreases entries.len(),
{
    if entries.len() > 0 && opt_text(entries[0].close_order_list_id) != Some(close_id) {
        let rest = entries.drop_first();
        closes_are_found_by_their_list(rest, close_id);
        assert forall|i: int| 0 <= i < close_position(entries, close_id) implies opt_text(
            (#[trigger] entries[i]).close_order_list_id,
        ) != Some(close_id) by {
            if i > 0 {
                assert(rest[i - 1] == entries[i]);
            }
        }
    }
}

/// Two records tell of the same spread exactly when their instrument, symbol, legs and pricing agree.
pub proof fn spreads_agree_in_every_part(
    a: crate::state::SpreadRecord,
    b: crate::state::SpreadRecord,
)
    ensures
        a.same_spread(b) <==> a.instrument_id == b.instrument_id && a.raw_symbol == b.raw_symbol
            && a.legs@ == b.legs@ && a.entry_pricing_source == b.entry_pricing_source,
{
}

} // verus!
