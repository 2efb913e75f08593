//! Changes of strategy state, as they are persisted.
use vstd::prelude::*;

use crate::calendar::date_in;
use crate::calendar::instant_at;
use crate::calendar::instant_of_nanos;
use crate::calendar::parse_date;
use crate::calendar::CalendarDate;
use crate::calendar::UtcInstant;
use crate::json::Json;
use crate::json::JsonTree;
use crate::payloads::close_accepted_payload;
use crate::payloads::close_accepted_tree;
use crate::payloads::close_cleared_payload;
use crate::payloads::close_cleared_tree;
use crate::payloads::entry_accepted_payload;
use crate::payloads::entry_accepted_tree;
use crate::payloads::entry_canceled_payload;
use crate::payloads::entry_canceled_tree;
use crate::payloads::entry_closed_payload;
use crate::payloads::entry_closed_tree;
use crate::payloads::entry_rejected_payload;
use crate::payloads::entry_rejected_tree;
use crate::payloads::OrderAcceptance;
use crate::payloads::OrderRefusal;
use crate::state::StrategyStateEntry;
use crate::state::StrategyStateEntryDraft;
use crate::text::opt_text;

verus! {

/// A change of strategy state.
#[derive(Debug)]
pub struct StrategyStateMutation {
    /// ID of the event that made the change; a change without one gets an ID of its own.
    pub event_id: Option<String>,
    /// Label of the change.
    pub event_type: &'static str,
    /// Payload.
    pub payload: Json,
    /// Strategy name.
    pub strategy: String,
    /// Underlying symbol.
    pub underlying: String,
    /// Market trade date, when the entry states one.
    pub trade_date: Option<CalendarDate>,
    /// Order-list ID.
    pub order_list_id: String,
    /// Client order ID.
    pub client_order_id: Option<String>,
    /// Broker order ID.
    pub venue_order_id: Option<String>,
    /// Time of the event.
    pub ts_event: UtcInstant,
}

/// What a change of strategy state says.
pub struct MutationView {
    /// ID of the event that made the change.
    pub event_id: Option<Seq<char>>,
    /// Label of the change.
    pub event_type: Seq<char>,
    /// Payload.
    pub payload: JsonTree,
    /// Strategy name.
    pub strategy: Seq<char>,
    /// Underlying symbol.
    pub underlying: Seq<char>,
    /// Market trade date.
    pub trade_date: Option<CalendarDate>,
    /// Order-list ID.
    pub order_list_id: Seq<char>,
    /// Client order ID.
    pub client_order_id: Option<Seq<char>>,
    /// Broker order ID.
    pub venue_order_id: Option<Seq<char>>,
    /// Time of the event.
    pub ts_event: UtcInstant,
}

impl View for StrategyStateMutation {
    type V = MutationView;

    open spec fn view(&self) -> MutationView {
        MutationView {
            event_id: opt_text(self.event_id),
            event_type: self.event_type@,
            payload: self.payload@,
            strategy: self.strategy@,
            underlying: self.underlying@,
            trade_date: self.trade_date,
            order_list_id: self.order_list_id@,
            client_order_id: opt_text(self.client_order_id),
            venue_order_id: opt_text(self.venue_order_id),
            ts_event: self.ts_event,
        }
    }
}

/// The acceptance of an entry.
pub open spec fn entry_accepted(
    event: OrderAcceptance,
    order_list_id: Seq<char>,
    draft: StrategyStateEntryDraft,
) -> MutationView {
    MutationView {
        event_id: Some(event.event_id@),
        event_type: "entry_accepted"@,
        payload: entry_accepted_tree(order_list_id, event, draft),
        strategy: draft.strategy@,
        underlying: draft.underlying@,
        trade_date: date_in(draft.trade_date@),
        order_list_id,
        client_order_id: Some(event.client_order_id@),
        venue_order_id: Some(event.venue_order_id@),
        ts_event: instant_at(event.ts_event),
    }
}

/// Returns the acceptance of an entry.
pub fn accepted_state_mutation(
    event: &OrderAcceptance,
    order_list_id: &str,
    draft: &StrategyStateEntryDraft,
) -> (mutation: StrategyStateMutation)
    ensures
        mutation@ == entry_accepted(*event, order_list_id@, *draft),
{
    StrategyStateMutation {
        event_id: Some(event.event_id.clone()),
        event_type: "entry_accepted",
        payload: entry_accepted_payload(order_list_id, event, draft),
        strategy: draft.strategy.clone(),
        underlying: draft.underlying.clone(),
        trade_date: parse_date(draft.trade_date.as_str()),
        order_list_id: order_list_id.to_owned(),
        client_order_id: Some(event.client_order_id.clone()),
        venue_order_id: Some(event.venue_order_id.clone()),
        ts_event: instant_of_nanos(event.ts_event),
    }
}

/// The outright refusal of an entry.
pub open spec fn entry_rejected(
    event: OrderRefusal,
    order_list_id: Seq<char>,
    draft: StrategyStateEntryDraft,
    close_reason: Seq<char>,
) -> MutationView {
    MutationView {
        event_id: Some(event.event_id@),
        event_type: event.event_type@,
        payload: entry_rejected_tree(order_list_id, event, draft, close_reason),
        strategy: draft.strategy@,
        underlying: draft.underlying@,
        trade_date: date_in(draft.trade_date@),
        order_list_id,
        client_order_id: Some(event.client_order_id@),
        venue_order_id: None,
        ts_event: instant_at(event.ts_event),
    }
}

/// Returns the outright refusal of an entry.
pub fn rejected_state_mutation(
    event: &OrderRefusal,
    order_list_id: &str,
    draft: &StrategyStateEntryDraft,
    close_reason: &str,
) -> (mutation: StrategyStateMutation)
    ensures
        mutation@ == entry_rejected(*event, order_list_id@, *draft, close_reason@),
{
    StrategyStateMutation {
        event_id: Some(event.event_id.clone()),
        event_type: event.event_type,
        payload: entry_rejected_payload(order_list_id, event, draft, close_reason),
        strategy: draft.strategy.clone(),
        underlying: draft.underlying.clone(),
        trade_date: parse_date(draft.trade_date.as_str()),
        order_list_id: order_list_id.to_owned(),
        client_order_id: Some(event.client_order_id.clone()),
        venue_order_id: None,
        ts_event: instant_of_nanos(event.ts_event),
    }
}

/// The acceptance of a close.
pub open spec fn close_accepted(
    event: OrderAcceptance,
    entry: StrategyStateEntry,
    close_order_list_id: Seq<char>,
    close_parent_order_id: Option<Seq<char>>,
    close_reason: Seq<char>,
    close_order_mode: Seq<char>,
) -> MutationView {
    MutationView {
        event_id: Some(event.event_id@),
        event_type: "close_accepted"@,
        payload: close_accepted_tree(
            event,
            entry,
            close_order_list_id,
            close_parent_order_id,
            close_reason,
            close_order_mode,
        ),
        strategy: entry.strategy@,
        underlying: entry.underlying@,
        trade_date: date_in(entry.trade_date@),
        order_list_id: close_order_list_id,
        client_order_id: Some(event.client_order_id@),
        venue_order_id: Some(event.venue_order_id@),
        ts_event: instant_at(event.ts_event),
    }
}

/// Returns the acceptance of a close.
pub fn close_accepted_state_mutation(
    event: &OrderAcceptance,
    entry: &StrategyStateEntry,
    close_order_list_id: &str,
    close_parent_order_id: &Option<String>,
    close_reason: &str,
    close_order_mode: &str,
) -> (mutation: StrategyStateMutation)
    ensures
        mutation@ == close_accepted(
            *event,
            *entry,
            close_order_list_id@,
            opt_text(*close_parent_order_id),
            close_reason@,
            close_order_mode@,
        ),
{
    StrategyStateMutation {
        event_id: Some(event.event_id.clone()),
        event_type: "close_accepted",
        payload: close_accepted_payload(
            event,
            entry,
            close_order_list_id,
            close_parent_order_id,
            close_reason,
            close_order_mode,
        ),
        strategy: entry.strategy.clone(),
        underlying: entry.underlying.clone(),
        trade_date: parse_date(entry.trade_date.as_str()),
        order_list_id: close_order_list_id.to_owned(),
        client_order_id: Some(event.client_order_id.clone()),
        venue_order_id: Some(event.venue_order_id.clone()),
        ts_event: instant_of_nanos(event.ts_event),
    }
}

/// A change of a recorded entry that no event of an order made.
pub open spec fn entry_changed(
    event_type: Seq<char>,
    entry: StrategyStateEntry,
    payload: JsonTree,
    order_list_id: Seq<char>,
    venue_order_id: Option<Seq<char>>,
    ts_event: UtcInstant,
) -> MutationView {
    MutationView {
        event_id: None,
        event_type,
        payload,
        strategy: entry.strategy@,
        underlying: entry.underlying@,
        trade_date: date_in(entry.trade_date@),
        order_list_id,
        client_order_id: None,
        venue_order_id,
        ts_event,
    }
}

fn entry_mutation(
    event_type: &'static str,
    entry: &StrategyStateEntry,
    payload: Json,
    order_list_id: String,
    venue_order_id: Option<String>,
    ts_event: UtcInstant,
) -> (mutation: StrategyStateMutation)
    ensures
        mutation@ == entry_changed(
            event_type@,
            *entry,
            payload@,
            order_list_id@,
            opt_text(venue_order_id),
            ts_event,
        ),
{
    StrategyStateMutation {
        event_id: None,
        event_type,
        payload,
        strategy: entry.strategy.clone(),
        underlying: entry.underlying.clone(),
        trade_date: parse_date(entry.trade_date.as_str()),
        order_list_id,
        client_order_id: None,
        venue_order_id,
        ts_event,
    }
}

/// The fill of a close.
pub open spec fn entry_closed(
    entry: StrategyStateEntry,
    close_order_list_id: Seq<char>,
    close_parent_order_id: Option<Seq<char>>,
    ts_event: UtcInstant,
) -> MutationView {
    entry_changed(
        "entry_closed"@,
        entry,
        entry_closed_tree(entry, close_order_list_id, close_parent_order_id),
        close_order_list_id,
        close_parent_order_id,
        ts_event,
    )
}

/// Returns the fill of a close.
pub fn entry_closed_state_mutation(
    entry: &StrategyStateEntry,
    close_order_list_id: &str,
    close_parent_order_id: Option<String>,
    ts_event: UtcInstant,
) -> (mutation: StrategyStateMutation)
    ensures
        mutation@ == entry_closed(
            *entry,
            close_order_list_id@,
            opt_text(close_parent_order_id),
            ts_event,
        ),
{
    let payload = entry_closed_payload(entry, close_order_list_id, &close_parent_order_id);
    entry_mutation(
        "entry_closed",
        entry,
        payload,
        close_order_list_id.to_owned(),
        close_parent_order_id,
        ts_event,
    )
}

/// The cancellation of an entry.
pub open spec fn entry_canceled(
    entry: StrategyStateEntry,
    reason: Seq<char>,
    ts_event: UtcInstant,
) -> MutationView {
    entry_changed(
        "entry_canceled"@,
        entry,
        entry_canceled_tree(entry, reason),
        entry.order_list_id@,
        None,
        ts_event,
    )
}

/// Returns the cancellation of an entry.
pub fn entry_canceled_state_mutation(
    entry: &StrategyStateEntry,
    reason: &str,
    ts_event: UtcInstant,
) -> (mutation: StrategyStateMutation)
    ensures
        mutation@ == entry_canceled(*entry, reason@, ts_event),
{
    entry_mutation(
        "entry_canceled",
        entry,
        entry_canceled_payload(entry, reason),
        entry.order_list_id.clone(),
        None,
        ts_event,
    )
}

/// The end of a close without a fill, filed under the close or else under the entry.
pub open spec fn close_cleared(
    entry: StrategyStateEntry,
    close_order_list_id: Option<Seq<char>>,
    reason: Seq<char>,
    ts_event: UtcInstant,
) -> MutationView {
    entry_changed(
        "close_cleared"@,
        entry,
        close_cleared_tree(entry, close_order_list_id, reason),
        match close_order_list_id {
            Some(id) => id,
            None => entry.order_list_id@,
        },
        None,
        ts_event,
    )
}

/// Returns the end of a close without a fill.
pub fn close_cleared_state_mutation(
    entry: &StrategyStateEntry,
    close_order_list_id: &Option<String>,
    reason: &str,
    ts_event: UtcInstant,
) -> (mutation: StrategyStateMutation)
    ensures
        mutation@ == close_cleared(*entry, opt_text(*close_order_list_id), reason@, ts_event),
{
    let order_list_id: String = match close_order_list_id {
        Some(id) => id.clone(),
        None => entry.order_list_id.clone(),
    };
    entry_mutation(
        "close_cleared",
        entry,
        close_cleared_payload(entry, close_order_list_id, reason),
        order_list_id,
        None,
        ts_event,
    )
}

} // verus!
