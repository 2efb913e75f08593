//! Laws of the changes to the entries and of what is told of them.
use vstd::prelude::*;

use crate::account_strategy::cancels_entry;
use crate::account_strategy::clears_close;
use crate::account_strategy::closes_entry;
use crate::account_strategy::entries_after_close_acceptance;
use crate::amount::Amount;
use crate::calendar::date_in;
use crate::calendar::instant_at;
use crate::calendar::UtcInstant;
use crate::entry_strategy::goes_out_as;
use crate::entry_strategy::is_best_preparation;
use crate::entry_strategy::is_prepared;
use crate::entry_strategy::PreparedSubmission;
use crate::json::JsonNumber;
use crate::json::JsonTree;
use crate::mutation::close_accepted;
use crate::mutation::close_cleared;
use crate::mutation::entry_accepted;
use crate::mutation::entry_canceled;
use crate::mutation::entry_closed;
use crate::mutation::StrategyStateMutation;
use crate::orders::OrderSubmission;
use crate::payloads::close_accepted_tree;
use crate::payloads::close_cleared_tree;
use crate::payloads::draft_tree;
use crate::payloads::entry_accepted_tree;
use crate::payloads::entry_canceled_tree;
use crate::payloads::entry_closed_tree;
use crate::payloads::entry_pricing;
use crate::payloads::entry_tree;
use crate::payloads::is_close_pricing;
use crate::payloads::OrderAcceptance;
use crate::pending::PendingCloseSubmission;
use crate::state::StrategyStateEntry;
use crate::state::StrategyStateEntryDraft;
use crate::text::opt_text;

verus! {

/// Whether a value tells something under a name.
pub open spec fn tells(value: JsonTree, name: Seq<char>, what: JsonTree) -> bool {
    value matches JsonTree::Object(fields) && fields.contains((name, what))
}

/// Whether a value tells a text under a name, and `null` where there is no text.
pub open spec fn tells_text(value: JsonTree, name: Seq<char>, text: Option<Seq<char>>) -> bool {
    match text {
        Some(found) => tells(value, name, JsonTree::Text(found)),
        None => tells(value, name, JsonTree::Null),
    }
}

/// Whether a value tells a number under a name.
pub open spec fn tells_number(value: JsonTree, name: Seq<char>, number: u64) -> bool {
    tells(value, name, JsonTree::Number(JsonNumber::Natural(number)))
}

proof fn told_at(value: JsonTree, at: int, name: Seq<char>, what: JsonTree)
    requires
        value matches JsonTree::Object(fields) && 0 <= at < fields.len() && fields[at] == (
            name,
            what,
        ),
    ensures
        tells(value, name, what),
{
    let fields = value->Object_0;
    assert(fields[at] == (name, what));
}

// ---------------------------------------------------------------------------------------------
// Changes to the entries
// ---------------------------------------------------------------------------------------------

/// Whether two lists of entries differ in the first entry of a list alone, or not at all.
pub open spec fn only_that_entry(
    before: Seq<StrategyStateEntry>,
    after: Seq<StrategyStateEntry>,
    order_list_id: Seq<char>,
) -> bool {
    &&& after.len() == before.len()
    &&& forall|i: int|
        0 <= i < before.len() && (before[i].order_list_id@ != order_list_id || exists|j: int|
            0 <= j < i && (#[trigger] before[j]).order_list_id@ == order_list_id)
            ==> #[trigger] after[i] == before[i]
}

/// Closing an entry closes it, and a change is told exactly when there was an open one to close.
pub proof fn closing_changes_one_entry(
    before: Seq<StrategyStateEntry>,
    after: Seq<StrategyStateEntry>,
    mutation: Option<StrategyStateMutation>,
    entry_order_list_id: Seq<char>,
    close_order_list_id: Seq<char>,
    close_parent_order_id: Option<String>,
    now: String,
    ts_event: UtcInstant,
    at: int,
)
    requires
        closes_entry(
            before,
            after,
            mutation,
            entry_order_list_id,
            close_order_list_id,
            close_parent_order_id,
            now,
            ts_event,
        ),
        0 <= at < before.len(),
        before[at].order_list_id@ == entry_order_list_id,
        forall|i: int| 0 <= i < at ==> (#[trigger] before[i]).order_list_id@ != entry_order_list_id,
    ensures
        only_that_entry(before, after, entry_order_list_id),
        after[at].closed,
        before[at].closed ==> after[at] == before[at] && mutation is None,
        !before[at].closed ==> after[at].closed_at_utc == Some(now) && mutation is Some,
        mutation matches Some(change) ==> change@.event_type == "entry_closed"@
            && change@.order_list_id == close_order_list_id && change@.ts_event == ts_event,
{
    super::state::entries_are_found_by_their_list(before, entry_order_list_id);
}

/// Canceling an entry cancels it, and a change is told exactly when it was not canceled yet.
pub proof fn canceling_changes_one_entry(
    before: Seq<StrategyStateEntry>,
    after: Seq<StrategyStateEntry>,
    mutation: Option<StrategyStateMutation>,
    entry_order_list_id: Seq<char>,
    reason: Seq<char>,
    ts_event: UtcInstant,
    at: int,
)
    requires
        cancels_entry(before, after, mutation, entry_order_list_id, reason, ts_event),
        0 <= at < before.len(),
        before[at].order_list_id@ == entry_order_list_id,
        forall|i: int| 0 <= i < at ==> (#[trigger] before[i]).order_list_id@ != entry_order_list_id,
    ensures
        only_that_entry(before, after, entry_order_list_id),
        after[at].canceled,
        after[at].closed == before[at].closed,
        mutation is Some <==> !before[at].canceled,
        mutation matches Some(change) ==> change@.event_type == "entry_canceled"@
            && change@.order_list_id == entry_order_list_id && change@.ts_event == ts_event
            && tells_text(change@.payload, "reason"@, Some(reason)),
{
    super::state::entries_are_found_by_their_list(before, entry_order_list_id);
    if mutation is Some {
        changes_are_told(before[at].after_cancel(), entry_order_list_id, None, None, reason, ts_event);
    }
}

/// Clearing a close leaves the entry open to another close, and is always told.
pub proof fn clearing_changes_one_entry(
    before: Seq<StrategyStateEntry>,
    after: Seq<StrategyStateEntry>,
    mutation: Option<StrategyStateMutation>,
    entry_order_list_id: Seq<char>,
    reason: Seq<char>,
    ts_event: UtcInstant,
    at: int,
)
    requires
        clears_close(before, after, mutation, entry_order_list_id, reason, ts_event),
        0 <= at < before.len(),
        before[at].order_list_id@ == entry_order_list_id,
        forall|i: int| 0 <= i < at ==> (#[trigger] before[i]).order_list_id@ != entry_order_list_id,
    ensures
        only_that_entry(before, after, entry_order_list_id),
        after[at].close_order_list_id is None,
        after[at].closed == before[at].closed && after[at].canceled == before[at].canceled,
        after[at].close_attempts == before[at].close_attempts,
        mutation matches Some(change) && change@.event_type == "close_cleared"@ && change@.ts_event
            == ts_event && tells_text(change@.payload, "reason"@, Some(reason)),
        before[at].close_order_list_id matches Some(list) ==> (mutation matches Some(change)
            && change@.order_list_id == list@),
{
    super::state::entries_are_found_by_their_list(before, entry_order_list_id);
    changes_are_told(
        before[at].after_clear(),
        entry_order_list_id,
        None,
        opt_text(before[at].close_order_list_id),
        reason,
        ts_event,
    );
}

/// Where no entry has the list, nothing changes and nothing is told.
pub proof fn unknown_lists_change_nothing(
    before: Seq<StrategyStateEntry>,
    after: Seq<StrategyStateEntry>,
    mutation: Option<StrategyStateMutation>,
    list: Seq<char>,
    other: Seq<char>,
    parent: Option<String>,
    now: String,
    ts_event: UtcInstant,
)
    requires
        forall|i: int| 0 <= i < before.len() ==> (#[trigger] before[i]).order_list_id@ != list,
        closes_entry(before, after, mutation, list, other, parent, now, ts_event) || cancels_entry(
            before,
            after,
            mutation,
            list,
            other,
            ts_event,
        ) || clears_close(before, after, mutation, list, other, ts_event),
    ensures
        after == before,
        mutation is None,
{
    super::state::entries_are_found_by_their_list(before, list);
}

/// The first acceptance of a close puts it on record at its entry, and the others change nothing.
pub proof fn accepted_closes_are_recorded_once(
    entries: Seq<StrategyStateEntry>,
    p: PendingCloseSubmission,
    venue_order_id: String,
    now: String,
    at: int,
)
    requires
        0 <= at < entries.len(),
        entries[at].order_list_id@ == p.entry_order_list_id@,
        forall|i: int|
            0 <= i < at ==> (#[trigger] entries[i]).order_list_id@ != p.entry_order_list_id@,
    ensures
        ({
            let after = entries_after_close_acceptance(entries, p, venue_order_id, now);
            &&& only_that_entry(entries, after, p.entry_order_list_id@)
            &&& p.recorded ==> after == entries
            &&& !p.recorded ==> {
                &&& after[at].close_order_list_id == Some(p.close_order_list_id)
                &&& after[at].close_parent_order_id == Some(venue_order_id)
                &&& after[at].close_reason == Some(p.close_reason)
                &&& after[at].close_order_mode == Some(p.close_order_mode)
                &&& after[at].last_close_submitted_at_utc == Some(now)
                &&& after[at].close_attempts == entries[at].close_attempts + 1
                    || entries[at].close_attempts == u32::MAX && after[at].close_attempts
                    == u32::MAX
                &&& after[at].active() == entries[at].active()
            }
        }),
{
    super::state::entries_are_found_by_their_list(entries, p.entry_order_list_id@);
}

// ---------------------------------------------------------------------------------------------
// What is told of a change
// ---------------------------------------------------------------------------------------------

/// Every change to an entry names its strategy, underlying and trade date, and tells the entry as it stands.
pub proof fn changes_are_told(
    entry: StrategyStateEntry,
    close_order_list_id: Seq<char>,
    parent: Option<Seq<char>>,
    cleared: Option<Seq<char>>,
    reason: Seq<char>,
    ts_event: UtcInstant,
)
    ensures
        ({
            let closed = entry_closed(entry, close_order_list_id, parent, ts_event);
            let canceled = entry_canceled(entry, reason, ts_event);
            let freed = close_cleared(entry, cleared, reason, ts_event);
            &&& closed.strategy == entry.strategy@ && canceled.strategy == entry.strategy@
                && freed.strategy == entry.strategy@
            &&& closed.underlying == entry.underlying@ && canceled.underlying == entry.underlying@
                && freed.underlying == entry.underlying@
            &&& closed.trade_date == date_in(entry.trade_date@) && canceled.trade_date == date_in(
                entry.trade_date@,
            ) && freed.trade_date == date_in(entry.trade_date@)
            &&& closed.ts_event == ts_event && canceled.ts_event == ts_event && freed.ts_event
                == ts_event
            &&& closed.venue_order_id == parent
            &&& tells(closed.payload, "entry"@, entry_tree(entry)) && tells(
                canceled.payload,
                "entry"@,
                entry_tree(entry),
            ) && tells(freed.payload, "entry"@, entry_tree(entry))
            &&& tells_text(closed.payload, "order_list_id"@, Some(entry.order_list_id@))
            &&& tells_text(canceled.payload, "order_list_id"@, Some(entry.order_list_id@))
            &&& tells_text(freed.payload, "order_list_id"@, Some(entry.order_list_id@))
            &&& tells_text(closed.payload, "close_order_list_id"@, Some(close_order_list_id))
            &&& tells_text(closed.payload, "close_parent_order_id"@, parent)
            &&& tells_text(freed.payload, "close_order_list_id"@, cleared)
            &&& tells_text(canceled.payload, "reason"@, Some(reason))
            &&& tells_text(freed.payload, "reason"@, Some(reason))
        }),
{
    let closed = entry_closed_tree(entry, close_order_list_id, parent);
    let canceled = entry_canceled_tree(entry, reason);
    let freed = close_cleared_tree(entry, cleared, reason);
    told_at(closed, 0, "order_list_id"@, JsonTree::Text(entry.order_list_id@));
    told_at(closed, 1, "close_order_list_id"@, JsonTree::Text(close_order_list_id));
    told_at(closed, 2, "close_parent_order_id"@, crate::fields::text_or_null(parent));
    told_at(closed, 3, "entry"@, entry_tree(entry));
    told_at(canceled, 0, "order_list_id"@, JsonTree::Text(entry.order_list_id@));
    told_at(canceled, 1, "reason"@, JsonTree::Text(reason));
    told_at(canceled, 2, "entry"@, entry_tree(entry));
    told_at(freed, 0, "order_list_id"@, JsonTree::Text(entry.order_list_id@));
    told_at(freed, 1, "close_order_list_id"@, crate::fields::text_or_null(cleared));
    told_at(freed, 2, "reason"@, JsonTree::Text(reason));
    told_at(freed, 3, "entry"@, entry_tree(entry));
}

/// An acceptance is told under its own event, with the broker's order and the draft or entry it is about.
pub proof fn acceptances_are_told(
    event: OrderAcceptance,
    order_list_id: Seq<char>,
    draft: StrategyStateEntryDraft,
    entry: StrategyStateEntry,
    close_order_list_id: Seq<char>,
    parent: Option<Seq<char>>,
    reason: Seq<char>,
    mode: Seq<char>,
)
    ensures
        ({
            let opened = entry_accepted(event, order_list_id, draft);
            let closing = close_accepted(event, entry, close_order_list_id, parent, reason, mode);
            &&& opened.event_id == Some(event.event_id@) && closing.event_id == Some(event.event_id@)
            &&& opened.client_order_id == Some(event.client_order_id@) && closing.client_order_id
                == Some(event.client_order_id@)
            &&& opened.venue_order_id == Some(event.venue_order_id@) && closing.venue_order_id
                == Some(event.venue_order_id@)
            &&& opened.ts_event == instant_at(event.ts_event) && closing.ts_event == instant_at(
                event.ts_event,
            )
            &&& opened.event_type == "entry_accepted"@ && closing.event_type == "close_accepted"@
            &&& opened.order_list_id == order_list_id && closing.order_list_id
                == close_order_list_id
            &&& opened.strategy == draft.strategy@ && closing.strategy == entry.strategy@
            &&& opened.underlying == draft.underlying@ && closing.underlying == entry.underlying@
            &&& tells(opened.payload, "entry"@, draft_tree(draft))
            &&& tells_text(opened.payload, "venue_order_id"@, Some(event.venue_order_id@))
            &&& tells_text(opened.payload, "client_order_id"@, Some(event.client_order_id@))
            &&& tells_text(opened.payload, "order_list_id"@, Some(order_list_id))
            &&& tells(closing.payload, "entry"@, entry_tree(entry))
            &&& tells_text(closing.payload, "close_order_list_id"@, Some(close_order_list_id))
            &&& tells_text(closing.payload, "close_parent_order_id"@, parent)
            &&& tells_text(closing.payload, "close_reason"@, Some(reason))
            &&& tells_text(closing.payload, "close_order_mode"@, Some(mode))
            &&& tells_text(closing.payload, "venue_order_id"@, Some(event.venue_order_id@))
            &&& tells_text(closing.payload, "order_list_id"@, Some(entry.order_list_id@))
        }),
{
    let opened = entry_accepted_tree(order_list_id, event, draft);
    let closing = close_accepted_tree(event, entry, close_order_list_id, parent, reason, mode);
    told_at(opened, 0, "order_list_id"@, JsonTree::Text(order_list_id));
    told_at(opened, 1, "client_order_id"@, JsonTree::Text(event.client_order_id@));
    told_at(opened, 2, "venue_order_id"@, JsonTree::Text(event.venue_order_id@));
    told_at(opened, 6, "entry"@, draft_tree(draft));
    told_at(closing, 0, "order_list_id"@, JsonTree::Text(entry.order_list_id@));
    told_at(closing, 1, "close_order_list_id"@, JsonTree::Text(close_order_list_id));
    told_at(closing, 2, "close_parent_order_id"@, crate::fields::text_or_null(parent));
    told_at(closing, 4, "venue_order_id"@, JsonTree::Text(event.venue_order_id@));
    told_at(closing, 8, "close_reason"@, JsonTree::Text(reason));
    told_at(closing, 9, "close_order_mode"@, JsonTree::Text(mode));
    told_at(closing, 10, "entry"@, entry_tree(entry));
}

/// An entry is told with its own contracts, quantity and standing.
pub proof fn entries_are_told_as_they_stand(entry: StrategyStateEntry)
    ensures
        tells_text(entry_tree(entry), "trade_date"@, Some(entry.trade_date@)),
        tells_text(entry_tree(entry), "underlying"@, Some(entry.underlying@)),
        tells_text(entry_tree(entry), "strategy"@, Some(entry.strategy@)),
        tells_text(entry_tree(entry), "order_list_id"@, Some(entry.order_list_id@)),
        tells_text(entry_tree(entry), "short_symbol"@, Some(entry.short_symbol@)),
        tells_text(entry_tree(entry), "long_symbol"@, Some(entry.long_symbol@)),
        tells_text(entry_tree(entry), "short_call_symbol"@, opt_text(entry.short_call_symbol)),
        tells_text(entry_tree(entry), "long_call_symbol"@, opt_text(entry.long_call_symbol)),
        tells_number(entry_tree(entry), "quantity"@, entry.quantity),
        tells_text(entry_tree(entry), "close_order_list_id"@, opt_text(entry.close_order_list_id)),
        tells_text(entry_tree(entry), "close_reason"@, opt_text(entry.close_reason)),
        tells_number(entry_tree(entry), "close_attempts"@, entry.close_attempts as u64),
        tells(entry_tree(entry), "submitted"@, JsonTree::Bool(entry.submitted)),
        tells(entry_tree(entry), "canceled"@, JsonTree::Bool(entry.canceled)),
        tells(entry_tree(entry), "closed"@, JsonTree::Bool(entry.closed)),
        tells_text(entry_tree(entry), "recorded_at_utc"@, Some(entry.recorded_at_utc@)),
        tells_text(entry_tree(entry), "closed_at_utc"@, opt_text(entry.closed_at_utc)),
{
    let told = entry_tree(entry);
    told_at(told, 0, "trade_date"@, JsonTree::Text(entry.trade_date@));
    told_at(told, 1, "underlying"@, JsonTree::Text(entry.underlying@));
    told_at(told, 2, "strategy"@, JsonTree::Text(entry.strategy@));
    told_at(told, 3, "order_list_id"@, JsonTree::Text(entry.order_list_id@));
    told_at(told, 4, "short_symbol"@, JsonTree::Text(entry.short_symbol@));
    told_at(told, 5, "long_symbol"@, JsonTree::Text(entry.long_symbol@));
    told_at(
        told,
        6,
        "short_call_symbol"@,
        crate::fields::text_or_null(opt_text(entry.short_call_symbol)),
    );
    told_at(
        told,
        7,
        "long_call_symbol"@,
        crate::fields::text_or_null(opt_text(entry.long_call_symbol)),
    );
    told_at(told, 8, "quantity"@, crate::fields::natural(entry.quantity));
    told_at(
        told,
        19,
        "close_order_list_id"@,
        crate::fields::text_or_null(opt_text(entry.close_order_list_id)),
    );
    told_at(told, 21, "close_reason"@, crate::fields::text_or_null(opt_text(entry.close_reason)));
    told_at(told, 23, "close_attempts"@, crate::fields::natural(entry.close_attempts as u64));
    told_at(told, 25, "submitted"@, JsonTree::Bool(entry.submitted));
    told_at(told, 26, "canceled"@, JsonTree::Bool(entry.canceled));
    told_at(told, 27, "closed"@, JsonTree::Bool(entry.closed));
    told_at(told, 28, "recorded_at_utc"@, JsonTree::Text(entry.recorded_at_utc@));
    told_at(told, 29, "closed_at_utc"@, crate::fields::text_or_null(opt_text(entry.closed_at_utc)));
}

/// A draft is told with its own contracts and quantity.
pub proof fn drafts_are_told_as_they_stand(draft: StrategyStateEntryDraft)
    ensures
        tells_text(draft_tree(draft), "trade_date"@, Some(draft.trade_date@)),
        tells_text(draft_tree(draft), "underlying"@, Some(draft.underlying@)),
        tells_text(draft_tree(draft), "strategy"@, Some(draft.strategy@)),
        tells_text(draft_tree(draft), "order_list_id"@, Some(draft.order_list_id@)),
        tells_text(draft_tree(draft), "short_symbol"@, Some(draft.short_symbol@)),
        tells_text(draft_tree(draft), "long_symbol"@, Some(draft.long_symbol@)),
        tells_text(draft_tree(draft), "short_call_symbol"@, opt_text(draft.short_call_symbol)),
        tells_text(draft_tree(draft), "long_call_symbol"@, opt_text(draft.long_call_symbol)),
        tells_number(draft_tree(draft), "quantity"@, draft.quantity),
{
    let told = draft_tree(draft);
    told_at(told, 0, "trade_date"@, JsonTree::Text(draft.trade_date@));
    told_at(told, 1, "underlying"@, JsonTree::Text(draft.underlying@));
    told_at(told, 2, "strategy"@, JsonTree::Text(draft.strategy@));
    told_at(told, 3, "order_list_id"@, JsonTree::Text(draft.order_list_id@));
    told_at(told, 4, "short_symbol"@, JsonTree::Text(draft.short_symbol@));
    told_at(told, 5, "long_symbol"@, JsonTree::Text(draft.long_symbol@));
    told_at(
        told,
        6,
        "short_call_symbol"@,
        crate::fields::text_or_null(opt_text(draft.short_call_symbol)),
    );
    told_at(
        told,
        7,
        "long_call_symbol"@,
        crate::fields::text_or_null(opt_text(draft.long_call_symbol)),
    );
    told_at(told, 8, "quantity"@, crate::fields::natural(draft.quantity));
}

// ---------------------------------------------------------------------------------------------
// Orders that go out
// ---------------------------------------------------------------------------------------------

/// A single order goes out on its own and every other number of orders as a list that keeps each of them.
pub proof fn orders_go_out_together(
    submission: OrderSubmission,
    orders: Seq<crate::orders::PlannedOrder>,
    order_list_id: Seq<char>,
)
    requires
        goes_out_as(submission, orders, order_list_id),
    ensures
        submission is Single <==> orders.len() == 1,
        submission matches OrderSubmission::Single(order) ==> orders =~= seq![order],
        submission matches OrderSubmission::List(list) ==> list@.len() == orders.len(),
{
}

/// A prepared submission has an order for each leg of its own entry, under its own list.
pub proof fn submissions_are_prepared_for_their_entry(
    prepared: PreparedSubmission,
    entry: crate::entry::SelectedOptionsEntry,
    order_list_id: Seq<char>,
    quantity: u64,
)
    requires
        is_prepared(prepared, entry, order_list_id, quantity),
    ensures
        prepared.submission.entry == entry,
        prepared.submission.order_list_id@ == order_list_id,
        prepared.submission.order_count == crate::orders::entry_legs(entry).len(),
        prepared.orders is Single <==> prepared.submission.order_count == 1,
        prepared.orders matches OrderSubmission::List(list) ==> list@.len()
            == prepared.submission.order_count,
{
}

/// The best candidate is the one that is prepared, and nothing is where there is none.
pub proof fn the_best_candidate_is_prepared(
    result: Result<Option<PreparedSubmission>, crate::orders::OrderError>,
    candidates: crate::candidate_set::OptionsCandidateSet,
    order_list_id: Seq<char>,
    quantity: u64,
)
    requires
        is_best_preparation(result, candidates, order_list_id, quantity),
    ensures
        result matches Ok(None) <==> candidates.selected() is None,
        result matches Ok(Some(prepared)) ==> prepared.submission.entry
            == candidates.selected()->0.entry,
{
}

// ---------------------------------------------------------------------------------------------
// Pricing
// ---------------------------------------------------------------------------------------------

/// A spread is entered at the ask that was observed, and at the scanner's price where no ask was or it is
/// zero.
pub proof fn spreads_are_entered_at_the_observed_ask(
    plan: crate::orders::OptionSpreadPlan,
    observed: Option<crate::payloads::ObservedQuote>,
)
    ensures
        ({
            let pricing = entry_pricing(plan, observed);
            &&& pricing.quote is Some ==> pricing.quote == observed && pricing.signed_limit_price
                == observed->0.quote.ask
            &&& pricing.quote is None <==> observed is None || !observed->0.quote.ask.is_nan()
                && observed->0.quote.ask.rank() == 0
            &&& pricing.quote is None ==> pricing.signed_limit_price
                == crate::orders::signed_scanner_price(plan)
        }),
{
}

/// A spread is closed at the bid less the cushion exactly when nothing makes its quote unavailable.
pub proof fn spreads_are_closed_when_quoted(
    pricing: crate::payloads::SpreadCloseOrderPricing,
    observed: Option<crate::payloads::ObservedQuote>,
    bid_less_cushion: Amount,
    cushion: Amount,
    stale_limit_secs: u64,
    now: UtcInstant,
)
    requires
        is_close_pricing(pricing, observed, bid_less_cushion, cushion, stale_limit_secs, now),
    ensures
        pricing.signed_limit_price is Some <==> pricing.unavailable_reason is None,
        pricing.signed_limit_price matches Some(price) ==> price == bid_less_cushion,
        observed is None ==> pricing.signed_limit_price is None && pricing.quote_age_secs is None,
        pricing.quote == observed,
        pricing.close_price_cushion == cushion,
        pricing.quote_stale_limit_secs == stale_limit_secs,
{
}

} // verus!
