//! Decisions on active entries over cached orders and quotes.
use vstd::prelude::*;

use crate::amount::Amount;
use crate::calendar::age_secs_from_rfc3339;
use crate::calendar::text_age_secs;
use crate::calendar::UtcInstant;
use crate::management::attempts_used_up;
use crate::management::close_attempts_exhausted;
use crate::management::close_reason;
use crate::management::close_reprice_cooldown_remaining_secs;
use crate::management::close_trigger;
use crate::management::cooldown_left;
use crate::management::AlpacaOptionsManagementConfig;
use crate::management::CloseOrderMode;
use crate::management::CloseQuote;
use crate::management::CloseThresholds;
use crate::quotes::quote_age;
use crate::quotes::quote_age_secs;
use crate::state::StrategyStateEntry;
use crate::text::begins_with;
use crate::text::opt_slice;
use crate::text::opt_text;
use crate::text::same_text;
use crate::text::starts_with;

verus! {

/// A cached order, by what its status says.
#[derive(Clone, Copy, Debug, PartialEq, Eq, Structural)]
pub struct CachedOrder {
    /// Whether the order is filled.
    pub filled: bool,
    /// Whether the order is open or on its way to the broker.
    pub working: bool,
    /// Whether the order is closed.
    pub closed: bool,
}

/// Status of an order list.
#[derive(Clone, Copy, Debug, PartialEq, Eq, Structural)]
pub enum OrderListRuntimeStatus {
    /// No order is cached.
    Missing,
    /// An order is working.
    Working,
    /// Every order is filled.
    Filled,
    /// Every order is closed, not every one filled.
    TerminalWithoutFill,
    /// Anything else.
    Partial,
}

/// The status of an order list.
pub open spec fn list_status(orders: Seq<CachedOrder>) -> OrderListRuntimeStatus {
    if orders.len() == 0 {
        OrderListRuntimeStatus::Missing
    } else if forall|i: int| 0 <= i < orders.len() ==> (#[trigger] orders[i]).filled {
        OrderListRuntimeStatus::Filled
    } else if exists|i: int| 0 <= i < orders.len() && (#[trigger] orders[i]).working {
        OrderListRuntimeStatus::Working
    } else if forall|i: int| 0 <= i < orders.len() ==> (#[trigger] orders[i]).closed {
        OrderListRuntimeStatus::TerminalWithoutFill
    } else {
        OrderListRuntimeStatus::Partial
    }
}

/// Returns the status of an order list.
pub fn order_list_status(orders: &Vec<CachedOrder>) -> (status: OrderListRuntimeStatus)
    ensures
        status == list_status(orders@),
{
    let n: usize = orders.len();
    if n == 0 {
        return OrderListRuntimeStatus::Missing;
    }
    let mut all_filled: bool = true;
    let mut any_working: bool = false;
    let mut all_closed: bool = true;
    for i in 0..n
        invariant
            n == orders@.len(),
            all_filled == (forall|k: int| 0 <= k < i ==> (#[trigger] orders@[k]).filled),
            any_working == (exists|k: int| 0 <= k < i && (#[trigger] orders@[k]).working),
            all_closed == (forall|k: int| 0 <= k < i ==> (#[trigger] orders@[k]).closed),
    {
        let order = orders[i];
        all_filled = all_filled && order.filled;
        any_working = any_working || order.working;
        all_closed = all_closed && order.closed;
        proof {
            assert(orders@[i as int] == order);
        }
    }
    if all_filled {
        OrderListRuntimeStatus::Filled
    } else if any_working {
        OrderListRuntimeStatus::Working
    } else if all_closed {
        OrderListRuntimeStatus::TerminalWithoutFill
    } else {
        OrderListRuntimeStatus::Partial
    }
}

/// Whether an order belongs to an order list: by its order-list ID, or by a client order ID that is
/// the order-list ID or that ID with a label.
pub open spec fn belongs(
    order_list_id: Option<Seq<char>>,
    client_order_id: Seq<char>,
    list: Seq<char>,
) -> bool {
    ||| order_list_id == Some(list)
    ||| client_order_id == list
    ||| begins_with(client_order_id, list + "-"@)
}

/// Returns whether an order belongs to an order list.
pub fn order_belongs_to_list(
    order_list_id: &Option<String>,
    client_order_id: &str,
    list: &str,
) -> (yes: bool)
    ensures
        yes == belongs(opt_text(*order_list_id), client_order_id@, list@),
{
    crate::text::is_text(order_list_id, list) || same_text(client_order_id, list) || starts_with(
        client_order_id,
        list.to_owned().concat("-").as_str(),
    )
}

/// The orders of an entry are found under its order-list ID: each labelled order of the list belongs
/// to it, and so does an unlabelled one.
pub proof fn leg_orders_belong_to_their_list(list: Seq<char>, label: Option<Seq<char>>)
    ensures
        belongs(None, crate::orders::leg_id(list, label), list),
{
    match label {
        Some(text) => {
            let id = crate::orders::leg_id(list, label);
            let prefix = list + "-"@;
            assert(id.subrange(0, prefix.len() as int) =~= prefix);
            assert(crate::text::stands_at(id, prefix, 0));
        },
        None => {},
    }
}

/// What to do about an active entry.
#[derive(Clone, Copy, Debug, PartialEq, Eq, Structural)]
pub enum ActiveEntryDecision {
    /// The close was filled: the entry is closed.
    MarkClosed,
    /// The close ended without a fill: it is forgotten.
    ClearClose,
    /// The close is stale: its orders are canceled.
    CancelClose {
        /// Age of the close.
        age_secs: u64,
    },
    /// The opening orders ended without a fill: the entry is canceled.
    MarkCanceled,
    /// The opening orders are stale: they are canceled.
    CancelEntry {
        /// Age of the opening orders.
        age_secs: u64,
    },
    /// The orders are left to work.
    Wait,
    /// The close orders are not cached.
    CloseMissing,
    /// The close orders are in no settled state.
    ClosePartial,
    /// The opening orders are not cached.
    EntryMissing,
    /// The opening orders are in no settled state.
    EntryPartial,
    /// A leg has a stale quote.
    QuoteStale,
    /// The close cannot be priced.
    QuoteUnavailable,
    /// There is no reason to close.
    Hold,
    /// Close orders are disabled.
    CloseOrdersDisabled,
    /// The close attempts are used up.
    MaxCloseAttempts,
    /// A close was submitted a moment ago.
    RepriceCooldown {
        /// Seconds until a close may be submitted again.
        remaining_secs: u64,
    },
    /// The market is outside its close window.
    OutsideCloseWindow,
    /// The close is submitted leg by leg.
    SubmitLegs,
    /// The close is submitted as a spread order.
    SubmitSpread,
}

impl ActiveEntryDecision {
    /// The reason that the operator is told.
    pub open spec fn block_reason(self) -> Option<Seq<char>> {
        match self {
            ActiveEntryDecision::MarkCanceled => Some("entry_terminal_without_fill"@),
            ActiveEntryDecision::ClearClose => Some("close_terminal_without_fill"@),
            ActiveEntryDecision::CloseMissing => Some("close_order_missing_from_cache"@),
            ActiveEntryDecision::ClosePartial => Some("partial_close_state"@),
            ActiveEntryDecision::EntryMissing => Some("entry_order_missing_from_cache"@),
            ActiveEntryDecision::EntryPartial => Some("partial_entry_state"@),
            ActiveEntryDecision::QuoteStale => Some("active_risk_quote_stale"@),
            ActiveEntryDecision::QuoteUnavailable => Some("close_quote_unavailable"@),
            ActiveEntryDecision::CloseOrdersDisabled => Some("close_orders_disabled"@),
            ActiveEntryDecision::MaxCloseAttempts => Some("max_close_attempts"@),
            ActiveEntryDecision::RepriceCooldown { .. } => Some("close_reprice_cooldown"@),
            ActiveEntryDecision::OutsideCloseWindow => Some("outside_close_window"@),
            _ => None,
        }
    }

    /// Returns the reason that the operator is told.
    pub fn reason(self) -> (reason: Option<&'static str>)
        ensures
            opt_slice(reason) == self.block_reason(),
    {
        match self {
            ActiveEntryDecision::MarkCanceled => Some("entry_terminal_without_fill"),
            ActiveEntryDecision::ClearClose => Some("close_terminal_without_fill"),
            ActiveEntryDecision::CloseMissing => Some("close_order_missing_from_cache"),
            ActiveEntryDecision::ClosePartial => Some("partial_close_state"),
            ActiveEntryDecision::EntryMissing => Some("entry_order_missing_from_cache"),
            ActiveEntryDecision::EntryPartial => Some("partial_entry_state"),
            ActiveEntryDecision::QuoteStale => Some("active_risk_quote_stale"),
            ActiveEntryDecision::QuoteUnavailable => Some("close_quote_unavailable"),
            ActiveEntryDecision::CloseOrdersDisabled => Some("close_orders_disabled"),
            ActiveEntryDecision::MaxCloseAttempts => Some("max_close_attempts"),
            ActiveEntryDecision::RepriceCooldown { .. } => Some("close_reprice_cooldown"),
            ActiveEntryDecision::OutsideCloseWindow => Some("outside_close_window"),
            _ => None,
        }
    }
}

/// The age of orders that are to be canceled: enabled, known, and at least the limit; a limit of
/// zero is none.
pub open spec fn stale_age(
    enabled: bool,
    limit: u64,
    since: Option<Seq<char>>,
    now: UtcInstant,
) -> Option<int> {
    if !enabled || limit == 0 {
        None
    } else {
        match since {
            Some(text) => match text_age_secs(text, now) {
                Some(age) => if age < limit {
                    None
                } else {
                    Some(age)
                },
                None => None,
            },
            None => None,
        }
    }
}

fn stale_age_secs(enabled: bool, limit: u64, since: Option<&str>, now: UtcInstant) -> (age: Option<u64>)
    requires
        now.valid(),
    ensures
        match age {
            Some(secs) => stale_age(enabled, limit, opt_slice(since), now) == Some(secs as int),
            None => stale_age(enabled, limit, opt_slice(since), now) is None,
        },
{
    if !enabled || limit == 0 {
        return None;
    }
    match since {
        Some(text) => match age_secs_from_rfc3339(text, now) {
            Some(age) => {
                if age < limit {
                    None
                } else {
                    Some(age)
                }
            },
            None => None,
        },
        None => None,
    }
}

/// The decision on working opening orders.
pub open spec fn working_entry_decision(
    config: AlpacaOptionsManagementConfig,
    entry: StrategyStateEntry,
    now: UtcInstant,
) -> ActiveEntryDecision {
    match stale_age(
        config.close_orders_enabled,
        config.stale_entry_secs,
        Some(entry.recorded_at_utc@),
        now,
    ) {
        Some(age) => ActiveEntryDecision::CancelEntry { age_secs: age as u64 },
        None => ActiveEntryDecision::Wait,
    }
}

/// The decision on a working close.
pub open spec fn working_close_decision(
    config: AlpacaOptionsManagementConfig,
    entry: StrategyStateEntry,
    now: UtcInstant,
) -> ActiveEntryDecision {
    match stale_age(
        config.close_orders_enabled,
        config.stale_close_secs,
        opt_text(entry.last_close_submitted_at_utc),
        now,
    ) {
        Some(age) => ActiveEntryDecision::CancelClose { age_secs: age as u64 },
        None => ActiveEntryDecision::Wait,
    }
}

/// The decision on an entry that has a close, by the status of the close.
pub open spec fn existing_close_decision(
    config: AlpacaOptionsManagementConfig,
    entry: StrategyStateEntry,
    status: OrderListRuntimeStatus,
    now: UtcInstant,
) -> ActiveEntryDecision {
    match status {
        OrderListRuntimeStatus::Filled => ActiveEntryDecision::MarkClosed,
        OrderListRuntimeStatus::Working => working_close_decision(config, entry, now),
        OrderListRuntimeStatus::TerminalWithoutFill => ActiveEntryDecision::ClearClose,
        OrderListRuntimeStatus::Missing => ActiveEntryDecision::CloseMissing,
        OrderListRuntimeStatus::Partial => ActiveEntryDecision::ClosePartial,
    }
}

/// The decision on closing an entry that holds a position.
pub open spec fn position_decision(
    config: AlpacaOptionsManagementConfig,
    entry: StrategyStateEntry,
    has_stale_quote: bool,
    quote: Option<CloseQuote>,
    thresholds: CloseThresholds,
    now: UtcInstant,
) -> ActiveEntryDecision {
    if has_stale_quote {
        ActiveEntryDecision::QuoteStale
    } else if quote is None {
        ActiveEntryDecision::QuoteUnavailable
    } else if close_trigger(config, entry, quote->0.debit, thresholds, now) is None {
        ActiveEntryDecision::Hold
    } else if !config.close_orders_enabled {
        ActiveEntryDecision::CloseOrdersDisabled
    } else if attempts_used_up(config, entry) {
        ActiveEntryDecision::MaxCloseAttempts
    } else if cooldown_left(config, entry, now) is Some {
        ActiveEntryDecision::RepriceCooldown {
            remaining_secs: cooldown_left(config, entry, now)->0 as u64,
        }
    } else if !config.close_allowed(now) {
        ActiveEntryDecision::OutsideCloseWindow
    } else if config.close_order_mode is OptionSpread {
        ActiveEntryDecision::SubmitSpread
    } else {
        ActiveEntryDecision::SubmitLegs
    }
}

/// What is known of an active entry when it is managed.
#[derive(Clone, Copy, Debug)]
pub struct EntryObservation {
    /// Status of the close orders, or of the opening orders when there is no close.
    pub status: OrderListRuntimeStatus,
    /// Whether a leg has a stale quote.
    pub has_stale_quote: bool,
    /// Close quote, if the close can be priced.
    pub quote: Option<CloseQuote>,
    /// Prices at which the entry is closed.
    pub thresholds: CloseThresholds,
}

/// The decision on an active entry.
pub open spec fn entry_decision(
    config: AlpacaOptionsManagementConfig,
    entry: StrategyStateEntry,
    seen: EntryObservation,
    now: UtcInstant,
) -> ActiveEntryDecision {
    if entry.close_order_list_id is Some {
        existing_close_decision(config, entry, seen.status, now)
    } else {
        match seen.status {
            OrderListRuntimeStatus::Filled => position_decision(
                config,
                entry,
                seen.has_stale_quote,
                seen.quote,
                seen.thresholds,
                now,
            ),
            OrderListRuntimeStatus::Working => working_entry_decision(config, entry, now),
            OrderListRuntimeStatus::TerminalWithoutFill => ActiveEntryDecision::MarkCanceled,
            OrderListRuntimeStatus::Missing => ActiveEntryDecision::EntryMissing,
            OrderListRuntimeStatus::Partial => ActiveEntryDecision::EntryPartial,
        }
    }
}

/// The reason to close an entry, as far as it is evaluated.
pub open spec fn evaluated_trigger(
    config: AlpacaOptionsManagementConfig,
    entry: StrategyStateEntry,
    seen: EntryObservation,
    now: UtcInstant,
) -> Option<Seq<char>> {
    if entry.close_order_list_id is None && seen.status is Filled && !seen.has_stale_quote
        && seen.quote is Some {
        close_trigger(config, entry, seen.quote->0.debit, seen.thresholds, now)
    } else {
        None
    }
}

/// Decides on working opening orders.
pub fn manage_working_entry_order(
    config: &AlpacaOptionsManagementConfig,
    entry: &StrategyStateEntry,
    now: UtcInstant,
) -> (decision: ActiveEntryDecision)
    requires
        now.valid(),
    ensures
        decision == working_entry_decision(*config, *entry, now),
{
    match stale_age_secs(
        config.close_orders_enabled,
        config.stale_entry_secs,
        Some(entry.recorded_at_utc.as_str()),
        now,
    ) {
        Some(age_secs) => ActiveEntryDecision::CancelEntry { age_secs },
        None => ActiveEntryDecision::Wait,
    }
}

/// Decides on a working close.
pub fn manage_working_close_order(
    config: &AlpacaOptionsManagementConfig,
    entry: &StrategyStateEntry,
    now: UtcInstant,
) -> (decision: ActiveEntryDecision)
    requires
        now.valid(),
    ensures
        decision == working_close_decision(*config, *entry, now),
{
    match stale_age_secs(
        config.close_orders_enabled,
        config.stale_close_secs,
        crate::text::as_slice(&entry.last_close_submitted_at_utc),
        now,
    ) {
        Some(age_secs) => ActiveEntryDecision::CancelClose { age_secs },
        None => ActiveEntryDecision::Wait,
    }
}

/// Decides on an entry that has a close.
pub fn manage_existing_close_order(
    config: &AlpacaOptionsManagementConfig,
    entry: &StrategyStateEntry,
    status: OrderListRuntimeStatus,
    now: UtcInstant,
) -> (decision: ActiveEntryDecision)
    requires
        now.valid(),
    ensures
        decision == existing_close_decision(*config, *entry, status, now),
{
    match status {
        OrderListRuntimeStatus::Filled => ActiveEntryDecision::MarkClosed,
        OrderListRuntimeStatus::Working => manage_working_close_order(config, entry, now),
        OrderListRuntimeStatus::TerminalWithoutFill => ActiveEntryDecision::ClearClose,
        OrderListRuntimeStatus::Missing => ActiveEntryDecision::CloseMissing,
        OrderListRuntimeStatus::Partial => ActiveEntryDecision::ClosePartial,
    }
}

fn decide_position(
    config: &AlpacaOptionsManagementConfig,
    entry: &StrategyStateEntry,
    seen: &EntryObservation,
    now: UtcInstant,
) -> (outcome: (ActiveEntryDecision, Option<String>))
    requires
        now.valid(),
    ensures
        outcome.0 == position_decision(
            *config,
            *entry,
            seen.has_stale_quote,
            seen.quote,
            seen.thresholds,
            now,
        ),
        opt_text(outcome.1) == if !seen.has_stale_quote && seen.quote is Some {
            close_trigger(*config, *entry, seen.quote->0.debit, seen.thresholds, now)
        } else {
            None
        },
{
    if seen.has_stale_quote {
        return (ActiveEntryDecision::QuoteStale, None);
    }
    let debit: Amount = match seen.quote {
        Some(quote) => quote.debit,
        None => {
            return (ActiveEntryDecision::QuoteUnavailable, None);
        },
    };
    let trigger = close_reason(config, entry, debit, &seen.thresholds, now);
    if trigger.is_none() {
        return (ActiveEntryDecision::Hold, trigger);
    }
    if !config.close_orders_enabled {
        return (ActiveEntryDecision::CloseOrdersDisabled, trigger);
    }
    if close_attempts_exhausted(config, entry) {
        return (ActiveEntryDecision::MaxCloseAttempts, trigger);
    }
    match close_reprice_cooldown_remaining_secs(config, entry, now) {
        Some(remaining_secs) => {
            return (ActiveEntryDecision::RepriceCooldown { remaining_secs }, trigger);
        },
        None => {},
    }
    if !config.inside_close_window(now) {
        return (ActiveEntryDecision::OutsideCloseWindow, trigger);
    }
    if config.close_order_mode == CloseOrderMode::OptionSpread {
        (ActiveEntryDecision::SubmitSpread, trigger)
    } else {
        (ActiveEntryDecision::SubmitLegs, trigger)
    }
}

/// Decides on an active entry; returns the decision and the reason to close, if there is one.
pub fn manage_active_entry(
    config: &AlpacaOptionsManagementConfig,
    entry: &StrategyStateEntry,
    seen: &EntryObservation,
    now: UtcInstant,
) -> (outcome: (ActiveEntryDecision, Option<String>))
    requires
        now.valid(),
    ensures
        outcome.0 == entry_decision(*config, *entry, *seen, now),
        opt_text(outcome.1) == evaluated_trigger(*config, *entry, *seen, now),
{
    if entry.close_order_list_id.is_some() {
        return (manage_existing_close_order(config, entry, seen.status, now), None);
    }
    match seen.status {
        OrderListRuntimeStatus::Filled => decide_position(config, entry, seen, now),
        OrderListRuntimeStatus::Working => (manage_working_entry_order(config, entry, now), None),
        OrderListRuntimeStatus::TerminalWithoutFill => (ActiveEntryDecision::MarkCanceled, None),
        OrderListRuntimeStatus::Missing => (ActiveEntryDecision::EntryMissing, None),
        OrderListRuntimeStatus::Partial => (ActiveEntryDecision::EntryPartial, None),
    }
}

/// A close is submitted only for a filled entry without a working close, with fresh quotes, a price
/// and a reason, while close orders are enabled, attempts are left, no cooldown runs and the close
/// window is open.
pub proof fn submitted_closes_pass_every_gate(
    config: AlpacaOptionsManagementConfig,
    entry: StrategyStateEntry,
    seen: EntryObservation,
    now: UtcInstant,
)
    requires
        entry_decision(config, entry, seen, now) is SubmitLegs || entry_decision(
            config,
            entry,
            seen,
            now,
        ) is SubmitSpread,
    ensures
        entry.close_order_list_id is None,
        seen.status is Filled,
        !seen.has_stale_quote,
        seen.quote is Some,
        evaluated_trigger(config, entry, seen, now) is Some,
        config.close_orders_enabled,
        !attempts_used_up(config, entry),
        cooldown_left(config, entry, now) is None,
        config.close_allowed(now),
        entry_decision(config, entry, seen, now) is SubmitSpread <==> config.close_order_mode is OptionSpread,
{
}

// ---------------------------------------------------------------------------------------------
// Spread prices
// ---------------------------------------------------------------------------------------------

/// A quote on a spread instrument.
#[derive(Clone, Copy, Debug)]
pub struct SpreadQuote {
    /// Bid.
    pub bid: Amount,
    /// Ask.
    pub ask: Amount,
    /// Time of the quote in nanoseconds.
    pub ts_event: u64,
}

/// Why a spread cannot be closed at a price.
pub open spec fn spread_close_unavailable(
    quote: Option<SpreadQuote>,
    stale_limit_secs: u64,
    now: UtcInstant,
) -> Option<Seq<char>> {
    match quote {
        None => Some("spread_quote_missing"@),
        Some(found) => if stale_limit_secs > 0 && (quote_age(found.ts_event, now) matches Some(age)
            && age > stale_limit_secs) {
            Some("spread_quote_stale"@)
        } else if !found.bid.is_nan() && found.bid.rank() == 0 {
            Some("spread_quote_zero_bid"@)
        } else {
            None
        },
    }
}

/// Returns why a spread cannot be closed at a price. Where nothing stands against it, the limit is the
/// bid less the close cushion.
pub fn spread_close_order_pricing(
    quote: &Option<SpreadQuote>,
    stale_limit_secs: u64,
    now: UtcInstant,
) -> (unavailable_reason: Option<&'static str>)
    ensures
        opt_slice(unavailable_reason) == spread_close_unavailable(*quote, stale_limit_secs, now),
{
    match quote {
        None => Some("spread_quote_missing"),
        Some(found) => {
            let stale: bool = stale_limit_secs > 0 && match quote_age_secs(found.ts_event, now) {
                Some(age) => age > stale_limit_secs,
                None => false,
            };
            if stale {
                Some("spread_quote_stale")
            } else if found.bid.is_zero() {
                Some("spread_quote_zero_bid")
            } else {
                None
            }
        },
    }
}

/// Where the limit of a spread entry comes from.
#[derive(Clone, Copy, Debug, PartialEq, Eq, Structural)]
pub enum SpreadPricingSource {
    /// The ask of the spread quote.
    SpreadQuote,
    /// The signed scanner premium.
    ScannerSnapshot,
}

impl SpreadPricingSource {
    /// The label in operator evidence.
    pub open spec fn label(self) -> Seq<char> {
        match self {
            SpreadPricingSource::SpreadQuote => "nautilus_spread_quote"@,
            SpreadPricingSource::ScannerSnapshot => "scanner_snapshot_fallback"@,
        }
    }

    /// Returns the label in operator evidence.
    pub fn as_str(self) -> (label: &'static str)
        ensures
            label@ == self.label(),
    {
        match self {
            SpreadPricingSource::SpreadQuote => "nautilus_spread_quote",
            SpreadPricingSource::ScannerSnapshot => "scanner_snapshot_fallback",
        }
    }
}

/// Returns the limit of a spread entry: the ask of the spread quote unless it is zero, else the signed
/// scanner price.
pub fn spread_entry_order_pricing(
    plan: &crate::orders::OptionSpreadPlan,
    quote: &Option<SpreadQuote>,
) -> (pricing: (SpreadPricingSource, Amount))
    ensures
        match *quote {
            Some(found) => if found.ask.is_nan() || found.ask.rank() != 0 {
                pricing == (SpreadPricingSource::SpreadQuote, found.ask)
            } else {
                pricing == (
                    SpreadPricingSource::ScannerSnapshot,
                    crate::orders::signed_scanner_price(*plan),
                )
            },
            None => pricing == (
                SpreadPricingSource::ScannerSnapshot,
                crate::orders::signed_scanner_price(*plan),
            ),
        },
{
    match quote {
        Some(found) => {
            if !found.ask.is_zero() {
                return (SpreadPricingSource::SpreadQuote, found.ask);
            }
        },
        None => {},
    }
    (SpreadPricingSource::ScannerSnapshot, crate::orders::signed_scanner_spread_price(plan))
}

} // verus!
