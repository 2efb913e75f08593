//! Laws of managing and closing entries.
use vstd::prelude::*;

use crate::active_entry::entry_decision;
use crate::active_entry::list_status;
use crate::active_entry::CachedOrder;
use crate::active_entry::EntryObservation;
use crate::amount::Amount;
use crate::broker::AlpacaOrder;
use crate::calendar::text_age_secs;
use crate::calendar::UtcInstant;
use crate::engine::after_close_step;
use crate::engine::after_entry_step;
use crate::engine::close_decision;
use crate::engine::close_order_step;
use crate::engine::entry_order_step;
use crate::engine::CloseDecision;
use crate::engine::CloseOrderStep;
use crate::engine::EngineManagementConfig;
use crate::engine::EntryOrderStep;
use crate::management::attempts_used_up;
use crate::management::close_trigger;
use crate::management::cooldown_left;
use crate::management::quote_of;
use crate::management::AlpacaOptionsManagementConfig;
use crate::management::CloseQuote;
use crate::management::CloseThresholds;
use crate::management::CloseTicks;
use crate::management::NetPrices;
use crate::management::RaisedPrices;
use crate::state::StrategyStateEntry;
use crate::symbol::expiration_days;

verus! {

// ---------------------------------------------------------------------------------------------
// Close reasons
// ---------------------------------------------------------------------------------------------

/// Whether an entry is recorded under the name of a debit spread.
pub open spec fn named_debit(entry: StrategyStateEntry) -> bool {
    entry.strategy@ == "put_debit"@ || entry.strategy@ == "call_debit"@
}

/// Whether an entry is recorded under the name of a naked option.
pub open spec fn named_naked(entry: StrategyStateEntry) -> bool {
    ||| entry.strategy@ == "naked_put"@
    ||| entry.strategy@ == "naked_call"@
    ||| entry.strategy@ == "naked_put_1_3dte"@
    ||| entry.strategy@ == "naked_call_1_3dte"@
}

/// Whether an entry was recorded at least a limit ago, where there is a limit.
pub open spec fn aged(entry: StrategyStateEntry, limit: u64, now: UtcInstant) -> bool {
    limit > 0 && (text_age_secs(entry.recorded_at_utc@, now) matches Some(age) && age >= limit)
}

/// Whether a symbol expires within a number of days, where that is not negative.
pub open spec fn expires(symbol: Seq<char>, limit: i64, now: UtcInstant) -> bool {
    limit >= 0 && (expiration_days(symbol, now.utc_day()) matches Some(days) && days <= limit)
}

/// Whether a debit entry's expiration is within the limit: that of the short leg, or of the long leg
/// where the short leg's symbol names none.
pub open spec fn debit_expires(entry: StrategyStateEntry, limit: i64, now: UtcInstant) -> bool {
    if expiration_days(entry.short_symbol@, now.utc_day()) is Some {
        expires(entry.short_symbol@, limit, now)
    } else {
        expires(entry.long_symbol@, limit, now)
    }
}

proof fn close_reasons_differ()
    ensures
        "manual_flatten"@.len() == 14,
        "profit_target"@.len() == 13,
        "stop_loss"@.len() == 9,
        "max_hold"@.len() == 8,
        "expiration_risk"@.len() == 15,
{
    reveal_strlit("manual_flatten");
    reveal_strlit("profit_target");
    reveal_strlit("stop_loss");
    reveal_strlit("max_hold");
    reveal_strlit("expiration_risk");
}

/// A debit spread that can be closed only for a credit at or below the stop-loss price, and not at
/// the profit target, is stopped out.
pub proof fn losing_debit_spreads_are_stopped_out(
    config: AlpacaOptionsManagementConfig,
    entry: StrategyStateEntry,
    close_debit: Amount,
    thresholds: CloseThresholds,
    now: UtcInstant,
)
    requires
        named_debit(entry),
        entry.debit is Some,
        !config.force_flatten,
        config.stop_loss_close_multiple.above_zero(),
        close_debit.negated_spec().below(thresholds.profit_target),
        close_debit.negated_spec().at_most(thresholds.stop_loss),
    ensures
        close_trigger(config, entry, close_debit, thresholds, now) == Some("stop_loss"@),
{
}

/// Once a credit stops a debit spread out, every lower credit does: a higher close debit never turns
/// a stop loss into anything else.
pub proof fn worse_credits_stop_debit_spreads_out(
    config: AlpacaOptionsManagementConfig,
    entry: StrategyStateEntry,
    close_debit: Amount,
    worse: Amount,
    thresholds: CloseThresholds,
    now: UtcInstant,
    later: UtcInstant,
)
    requires
        named_debit(entry),
        !thresholds.profit_target.is_nan(),
        close_trigger(config, entry, close_debit, thresholds, now) == Some("stop_loss"@),
        close_debit.at_most(worse),
    ensures
        close_trigger(config, entry, worse, thresholds, later) == Some("stop_loss"@),
{
    close_reasons_differ();
}

/// Once a credit meets the profit target of a debit spread, every higher credit does.
pub proof fn better_credits_keep_the_debit_target(
    config: AlpacaOptionsManagementConfig,
    entry: StrategyStateEntry,
    close_debit: Amount,
    better: Amount,
    thresholds: CloseThresholds,
    now: UtcInstant,
    later: UtcInstant,
)
    requires
        named_debit(entry),
        close_trigger(config, entry, close_debit, thresholds, now) == Some("profit_target"@),
        better.at_most(close_debit),
    ensures
        close_trigger(config, entry, better, thresholds, later) == Some("profit_target"@),
{
    close_reasons_differ();
}

/// Once a debit meets the profit target of a credit entry, every lower debit does.
pub proof fn better_debits_keep_the_credit_target(
    config: AlpacaOptionsManagementConfig,
    entry: StrategyStateEntry,
    close_debit: Amount,
    better: Amount,
    thresholds: CloseThresholds,
    now: UtcInstant,
    later: UtcInstant,
)
    requires
        !named_debit(entry),
        close_trigger(config, entry, close_debit, thresholds, now) == Some("profit_target"@),
        better.at_most(close_debit),
    ensures
        close_trigger(config, entry, better, thresholds, later) == Some("profit_target"@),
{
    close_reasons_differ();
}

/// Once a debit stops a credit entry out, every higher debit does.
pub proof fn worse_debits_stop_credit_entries_out(
    config: AlpacaOptionsManagementConfig,
    entry: StrategyStateEntry,
    close_debit: Amount,
    worse: Amount,
    thresholds: CloseThresholds,
    now: UtcInstant,
    later: UtcInstant,
)
    requires
        !named_debit(entry),
        !thresholds.profit_target.is_nan(),
        close_trigger(config, entry, close_debit, thresholds, now) == Some("stop_loss"@),
        close_debit.at_most(worse),
    ensures
        close_trigger(config, entry, worse, thresholds, later) == Some("stop_loss"@),
{
    close_reasons_differ();
}

/// A debit spread with a recorded debit is closed exactly when its credit is at the profit target,
/// when stops are on and its credit is down to the stop-loss price, when it has been held for its
/// time, or when it is about to expire; the first of these that applies is the reason.
pub proof fn debit_spreads_close_for_a_reason(
    config: AlpacaOptionsManagementConfig,
    entry: StrategyStateEntry,
    close_debit: Amount,
    thresholds: CloseThresholds,
    now: UtcInstant,
)
    requires
        named_debit(entry),
        entry.debit is Some,
        !config.force_flatten,
    ensures
        ({
            let reason = close_trigger(config, entry, close_debit, thresholds, now);
            let credit = close_debit.negated_spec();
            let target = thresholds.profit_target.at_most(credit);
            let stop = config.stop_loss_close_multiple.above_zero() && credit.at_most(
                thresholds.stop_loss,
            );
            let hold = aged(entry, config.max_hold_secs, now);
            let expiring = debit_expires(entry, config.expiration_exit_days, now);
            &&& reason is Some <==> target || stop || hold || expiring
            &&& reason == Some("profit_target"@) <==> target
            &&& reason == Some("stop_loss"@) <==> stop && !target
            &&& reason == Some("max_hold"@) <==> hold && !target && !stop
            &&& reason == Some("expiration_risk"@) <==> expiring && !target && !stop && !hold
        }),
{
    close_reasons_differ();
}

/// A debit spread without a recorded debit is closed by a forced flatten alone.
pub proof fn unpriced_debit_spreads_are_held(
    config: AlpacaOptionsManagementConfig,
    entry: StrategyStateEntry,
    close_debit: Amount,
    thresholds: CloseThresholds,
    now: UtcInstant,
)
    requires
        named_debit(entry),
        entry.debit is None,
    ensures
        close_trigger(config, entry, close_debit, thresholds, now) is Some <==> config.force_flatten,
{
}

/// An entry for a credit is closed exactly when its debit is down to the profit target, when its debit
/// is at the stop-loss price, when it has been held for its time, or when its short leg is about to
/// expire; the first of these that applies is the reason.
pub proof fn credit_entries_close_for_a_reason(
    config: AlpacaOptionsManagementConfig,
    entry: StrategyStateEntry,
    close_debit: Amount,
    thresholds: CloseThresholds,
    now: UtcInstant,
)
    requires
        !named_debit(entry),
        !config.force_flatten,
    ensures
        ({
            let reason = close_trigger(config, entry, close_debit, thresholds, now);
            let target = close_debit.at_most(thresholds.profit_target);
            let stop = thresholds.stop_loss.at_most(close_debit);
            let hold = aged(entry, config.max_hold_secs, now);
            let expiring = expires(entry.short_symbol@, config.expiration_exit_days, now);
            &&& reason is Some <==> target || stop || hold || expiring
            &&& reason == Some("profit_target"@) <==> target
            &&& reason == Some("stop_loss"@) <==> stop && !target
            &&& reason == Some("max_hold"@) <==> hold && !target && !stop
            &&& reason == Some("expiration_risk"@) <==> expiring && !target && !stop && !hold
        }),
{
    close_reasons_differ();
}

/// Every entry closes on a forced flatten, and on nothing else under that name.
pub proof fn flattening_is_forced(
    config: AlpacaOptionsManagementConfig,
    entry: StrategyStateEntry,
    close_debit: Amount,
    thresholds: CloseThresholds,
    now: UtcInstant,
)
    ensures
        close_trigger(config, entry, close_debit, thresholds, now) == Some("manual_flatten"@)
            <==> config.force_flatten,
{
    close_reasons_differ();
}

/// Whatever the prices do between its target and its stop, an entry that was held for its time is
/// closed then and at every later age.
pub proof fn held_entries_stay_due(
    config: AlpacaOptionsManagementConfig,
    entry: StrategyStateEntry,
    close_debit: Amount,
    thresholds: CloseThresholds,
    now: UtcInstant,
    later: UtcInstant,
)
    requires
        named_debit(entry) ==> entry.debit is Some,
        config.max_hold_secs > 0,
        text_age_secs(entry.recorded_at_utc@, now) matches Some(age) && age >= config.max_hold_secs,
        text_age_secs(entry.recorded_at_utc@, later) is Some,
        text_age_secs(entry.recorded_at_utc@, now)->0 <= text_age_secs(
            entry.recorded_at_utc@,
            later,
        )->0,
    ensures
        close_trigger(config, entry, close_debit, thresholds, now) is Some,
        close_trigger(config, entry, close_debit, thresholds, later) is Some,
{
}

// ---------------------------------------------------------------------------------------------
// Close gates
// ---------------------------------------------------------------------------------------------

/// The seconds left of a cooldown and those since the last close make up the whole cooldown; there are
/// none left without a close to wait for, after the cooldown, or on a forced flatten.
pub proof fn cooldowns_run_out(
    config: AlpacaOptionsManagementConfig,
    entry: StrategyStateEntry,
    now: UtcInstant,
)
    ensures
        match cooldown_left(config, entry, now) {
            Some(left) => {
                &&& !config.force_flatten
                &&& entry.last_close_submitted_at_utc matches Some(text) && text_age_secs(text@, now)
                    == Some(config.close_reprice_cooldown_secs - left)
                &&& left > 0
            },
            None => config.force_flatten || !(entry.last_close_submitted_at_utc matches Some(text)
                && text_age_secs(text@, now) matches Some(age) && age
                < config.close_reprice_cooldown_secs) || config.close_reprice_cooldown_secs == 0,
        },
{
}

/// Attempts run out exactly when there is a limit, it is reached, and no flatten is forced.
pub proof fn attempts_run_out_at_their_limit(
    config: AlpacaOptionsManagementConfig,
    entry: StrategyStateEntry,
)
    ensures
        attempts_used_up(config, entry) <==> 0 < config.max_close_attempts <= entry.close_attempts
            && !config.force_flatten,
{
}

/// Closes are confined to the close window exactly when that is asked for and no flatten is forced.
pub proof fn close_windows_bind(config: AlpacaOptionsManagementConfig, now: UtcInstant)
    ensures
        !config.close_allowed(now) <==> config.close_regular_hours_only && !config.force_flatten
            && !config.close_window.open_at(now),
{
}

/// Whether every close gate of the settings lets an entry through.
pub open spec fn passes_gates(
    config: AlpacaOptionsManagementConfig,
    entry: StrategyStateEntry,
    now: UtcInstant,
) -> bool {
    config.force_flatten || {
        &&& config.max_close_attempts == 0 || entry.close_attempts < config.max_close_attempts
        &&& entry.last_close_submitted_at_utc matches Some(text) ==> (text_age_secs(text@, now)
            matches Some(age) ==> age >= config.close_reprice_cooldown_secs)
        &&& config.close_regular_hours_only ==> config.close_window.open_at(now)
    }
}

/// The runtime submits a close exactly when the entry is priced, there is a reason to close it,
/// managing and closing are enabled, and every gate lets it through.
pub proof fn closes_are_submitted_when_due(
    config: EngineManagementConfig,
    entry: StrategyStateEntry,
    quote: Option<CloseQuote>,
    thresholds: CloseThresholds,
    now: UtcInstant,
)
    requires
        entry.last_close_submitted_at_utc matches Some(text) ==> (text_age_secs(text@, now) matches Some(
            age,
        ) ==> age >= 0),
    ensures
        close_decision(config, entry, quote, thresholds, now) is Submit <==> {
            &&& quote is Some
            &&& close_trigger(config.management, entry, quote->0.debit, thresholds, now) is Some
            &&& config.manage_enabled
            &&& config.close_enabled
            &&& passes_gates(config.management, entry, now)
        },
{
}

/// What keeps the runtime from closing is named: no price, no reason, a switch that is off, attempts
/// that are used up, a cooldown, or the hour.
pub proof fn withheld_closes_name_the_obstacle(
    config: EngineManagementConfig,
    entry: StrategyStateEntry,
    quote: Option<CloseQuote>,
    thresholds: CloseThresholds,
    now: UtcInstant,
)
    ensures
        match close_decision(config, entry, quote, thresholds, now) {
            CloseDecision::QuoteUnavailable => quote is None,
            CloseDecision::Hold => quote is Some && close_trigger(
                config.management,
                entry,
                quote->0.debit,
                thresholds,
                now,
            ) is None,
            CloseDecision::ManagementDisabled => quote is Some && !config.manage_enabled,
            CloseDecision::CloseDisabled => quote is Some && config.manage_enabled
                && !config.close_enabled,
            CloseDecision::MaxCloseAttempts => config.manage_enabled && config.close_enabled && 0
                < config.management.max_close_attempts <= entry.close_attempts
                && !config.management.force_flatten,
            CloseDecision::RepriceCooldown { remaining_secs } => config.manage_enabled
                && config.close_enabled && !config.management.force_flatten && (
            entry.last_close_submitted_at_utc matches Some(text) && text_age_secs(text@, now) matches Some(
                age,
            ) && age < config.management.close_reprice_cooldown_secs && (0 <= age ==> remaining_secs
                == config.management.close_reprice_cooldown_secs - age)),
            CloseDecision::OutsideCloseWindow => config.manage_enabled && config.close_enabled
                && config.management.close_regular_hours_only && !config.management.force_flatten
                && !config.management.close_window.open_at(now),
            CloseDecision::Submit => true,
        },
{
}

/// Without a price, the runtime says so whatever else stands in the way; without a reason to close, it
/// holds.
pub proof fn prices_and_reasons_come_first(
    config: EngineManagementConfig,
    entry: StrategyStateEntry,
    quote: CloseQuote,
    thresholds: CloseThresholds,
    now: UtcInstant,
)
    ensures
        close_decision(config, entry, None, thresholds, now) is QuoteUnavailable,
        close_trigger(config.management, entry, quote.debit, thresholds, now) is None
            <==> close_decision(config, entry, Some(quote), thresholds, now) is Hold,
{
}

// ---------------------------------------------------------------------------------------------
// Orders of an entry
// ---------------------------------------------------------------------------------------------

/// Whether an order was submitted, or else made, at least a limit ago, where there is a limit.
pub open spec fn order_aged(order: AlpacaOrder, limit: u64, now: UtcInstant) -> bool {
    let since = if order.submitted_at is Some {
        order.submitted_at
    } else {
        order.created_at
    };
    limit > 0 && (since matches Some(text) && text_age_secs(text@, now) matches Some(age) && age
        >= limit)
}

/// Whether an order ended without a fill.
pub open spec fn ended(order: AlpacaOrder) -> bool {
    order.status matches Some(text) && (text@ == "canceled"@ || text@ == "expired"@ || text@
        == "rejected"@)
}

/// Whether an order is filled.
pub open spec fn filled(order: AlpacaOrder) -> bool {
    order.status matches Some(text) && text@ == "filled"@
}

/// A close order that is filled closes the entry; one that works is canceled exactly once it is stale
/// and the runtime may act; one that ended without a fill, and one that the broker does not know, is
/// forgotten.
pub proof fn close_orders_are_followed(
    config: EngineManagementConfig,
    order: AlpacaOrder,
    now: UtcInstant,
)
    ensures
        ({
            let step = close_order_step(config, Some(order), now);
            let stale = order_aged(order, config.management.stale_close_secs, now);
            let acts = config.manage_enabled && config.close_enabled;
            &&& step is Filled <==> filled(order)
            &&& step is StaleCancel <==> !filled(order) && order.working && stale && acts
            &&& step is StaleReported <==> !filled(order) && order.working && stale && !acts
            &&& step is Terminal <==> !order.working && ended(order)
            &&& step is Waiting <==> !filled(order) && (if order.working {
                !stale
            } else {
                !ended(order)
            })
            &&& !(step is Missing)
        }),
        close_order_step(config, None, now) is Missing,
{
    reveal_strlit("filled");
    reveal_strlit("canceled");
    reveal_strlit("expired");
    reveal_strlit("rejected");
    assert("filled"@.len() == 6);
    assert("canceled"@.len() == 8);
    assert("expired"@.len() == 7);
    assert("rejected"@.len() == 8);
}

/// An opening order that works is canceled exactly once it is stale and the runtime may act; one that
/// ended without a fill cancels the entry; the position behind any other is evaluated.
pub proof fn opening_orders_are_followed(
    config: EngineManagementConfig,
    order: AlpacaOrder,
    now: UtcInstant,
)
    ensures
        ({
            let step = entry_order_step(config, Some(order), now);
            let stale = order_aged(order, config.management.stale_entry_secs, now);
            &&& step is Working <==> order.working && !stale
            &&& step is StaleCancel <==> order.working && stale && config.manage_enabled
            &&& step is StaleReported <==> order.working && stale && !config.manage_enabled
            &&& step is Terminal <==> !order.working && ended(order)
            &&& step is Evaluate <==> !order.working && !ended(order)
            &&& !(step is Missing)
        }),
        entry_order_step(config, None, now) is Missing,
{
}

/// A close leaves the entry when it is filled, ends, goes stale or is missing, and stays otherwise. A
/// filled close ends the entry; no other step does.
pub proof fn closes_leave_the_entry(
    entry: StrategyStateEntry,
    step: CloseOrderStep,
    order_id: Option<String>,
    now: String,
)
    ensures
        ({
            let after = after_close_step(entry, step, order_id, now);
            let forgotten = step is StaleCancel || step is Terminal || step is Missing;
            &&& forgotten ==> after.close_order_list_id is None && after.close_reason is None
                && after.close_parent_order_id is None && after.close_order_mode is None
            &&& !forgotten ==> after.close_order_list_id == entry.close_order_list_id
                && after.close_reason == entry.close_reason
            &&& step is Waiting || step is StaleReported ==> after == entry
            &&& step is Filled ==> after.closed && after.closed_at_utc == Some(now) && (order_id is Some
                ==> after.close_parent_order_id == order_id)
            &&& !(step is Filled) ==> after.closed == entry.closed && after.closed_at_utc
                == entry.closed_at_utc
            &&& after.submitted == entry.submitted
            &&& after.order_list_id == entry.order_list_id
            &&& after.leg_symbols() == entry.leg_symbols()
            &&& after.quantity == entry.quantity
        }),
{
}

/// An entry is canceled by opening orders that went stale or ended without a fill, and by no other
/// step.
pub proof fn opening_orders_cancel_the_entry(entry: StrategyStateEntry, step: EntryOrderStep)
    ensures
        after_entry_step(entry, step).canceled <==> entry.canceled || step is StaleCancel
            || step is Terminal,
        !(step is StaleCancel || step is Terminal) ==> after_entry_step(entry, step) == entry,
        after_entry_step(entry, step).closed == entry.closed,
        after_entry_step(entry, step).submitted == entry.submitted,
        after_entry_step(entry, step).close_order_list_id == entry.close_order_list_id,
{
}

// ---------------------------------------------------------------------------------------------
// Cached orders
// ---------------------------------------------------------------------------------------------

/// A list without orders is missing; one whose orders are all filled is filled. Of any other, an order
/// that works makes it a working one, and only orders that are all closed end it.
pub proof fn lists_are_as_far_as_their_orders(orders: Seq<CachedOrder>)
    ensures
        ({
            let status = list_status(orders);
            let all_filled = forall|o: CachedOrder| orders.contains(o) ==> o.filled;
            let some_working = exists|o: CachedOrder| orders.contains(o) && o.working;
            let all_closed = forall|o: CachedOrder| orders.contains(o) ==> o.closed;
            &&& status is Missing <==> orders.len() == 0
            &&& status is Filled <==> orders.len() > 0 && all_filled
            &&& status is Working <==> orders.len() > 0 && !all_filled && some_working
            &&& status is TerminalWithoutFill <==> orders.len() > 0 && !all_filled && !some_working
                && all_closed
            &&& status is Partial <==> orders.len() > 0 && !all_filled && !some_working && !all_closed
        }),
{
    assert forall|i: int| 0 <= i < orders.len() implies orders.contains(#[trigger] orders[i]) by {}
    if exists|o: CachedOrder| orders.contains(o) && o.working {
        let o = choose|o: CachedOrder| orders.contains(o) && o.working;
        assert(orders[orders.index_of(o)].working);
    }
}

/// The order of a list does not matter to its status.
pub proof fn list_status_ignores_order(a: Seq<CachedOrder>, b: Seq<CachedOrder>)
    requires
        forall|o: CachedOrder| a.contains(o) <==> b.contains(o),
    ensures
        list_status(a) == list_status(b),
{
    lists_are_as_far_as_their_orders(a);
    lists_are_as_far_as_their_orders(b);
    if a.len() > 0 {
        assert(a.contains(a[0]));
        assert(b.contains(a[0]));
    }
    if b.len() > 0 {
        assert(b.contains(b[0]));
        assert(a.contains(b[0]));
    }
}

/// Whether a working order list is canceled: closes are enabled and the list is stale.
pub open spec fn list_aged(
    config: AlpacaOptionsManagementConfig,
    limit: u64,
    since: Option<String>,
    now: UtcInstant,
) -> bool {
    config.close_orders_enabled && limit > 0 && (since matches Some(text) && text_age_secs(text@, now)
        matches Some(age) && age >= limit)
}

/// An entry with a close is decided by the orders of the close alone.
pub proof fn working_closes_decide(
    config: AlpacaOptionsManagementConfig,
    entry: StrategyStateEntry,
    seen: EntryObservation,
    now: UtcInstant,
)
    requires
        entry.close_order_list_id is Some,
    ensures
        ({
            let decision = entry_decision(config, entry, seen, now);
            let stale = list_aged(
                config,
                config.stale_close_secs,
                entry.last_close_submitted_at_utc,
                now,
            );
            &&& seen.status is Filled ==> decision is MarkClosed
            &&& seen.status is TerminalWithoutFill ==> decision is ClearClose
            &&& seen.status is Missing ==> decision is CloseMissing
            &&& seen.status is Partial ==> decision is ClosePartial
            &&& seen.status is Working ==> (decision is CancelClose <==> stale) && (decision is Wait
                <==> !stale)
        }),
{
}

/// An entry without a close is decided by its opening orders until they are filled.
pub proof fn opening_orders_decide(
    config: AlpacaOptionsManagementConfig,
    entry: StrategyStateEntry,
    seen: EntryObservation,
    now: UtcInstant,
)
    requires
        entry.close_order_list_id is None,
    ensures
        ({
            let decision = entry_decision(config, entry, seen, now);
            let stale = list_aged(
                config,
                config.stale_entry_secs,
                Some(entry.recorded_at_utc),
                now,
            );
            &&& seen.status is TerminalWithoutFill ==> decision is MarkCanceled
            &&& seen.status is Missing ==> decision is EntryMissing
            &&& seen.status is Partial ==> decision is EntryPartial
            &&& seen.status is Working ==> (decision is CancelEntry <==> stale) && (decision is Wait
                <==> !stale)
        }),
{
}

/// The position of an entry is closed exactly when its quotes are fresh and complete, there is a reason
/// to close it, closes are enabled, and every gate lets it through; in the configured order mode.
pub proof fn positions_are_closed_when_due(
    config: AlpacaOptionsManagementConfig,
    entry: StrategyStateEntry,
    seen: EntryObservation,
    now: UtcInstant,
)
    requires
        entry.close_order_list_id is None,
        seen.status is Filled,
        entry.last_close_submitted_at_utc matches Some(text) ==> (text_age_secs(text@, now) matches Some(
            age,
        ) ==> age >= 0),
    ensures
        ({
            let decision = entry_decision(config, entry, seen, now);
            let priced = !seen.has_stale_quote && seen.quote is Some;
            let due = priced && close_trigger(
                config,
                entry,
                seen.quote->0.debit,
                seen.thresholds,
                now,
            ) is Some;
            let submitted = due && config.close_orders_enabled && passes_gates(config, entry, now);
            &&& decision is SubmitLegs <==> submitted && config.close_order_mode is LegacyLegOrderList
            &&& decision is SubmitSpread <==> submitted && config.close_order_mode is OptionSpread
            &&& decision is QuoteStale <==> seen.has_stale_quote
            &&& decision is QuoteUnavailable <==> !seen.has_stale_quote && seen.quote is None
            &&& decision is Hold <==> priced && !due
            &&& decision is CloseOrdersDisabled <==> due && !config.close_orders_enabled
        }),
{
}

// ---------------------------------------------------------------------------------------------
// Close prices
// ---------------------------------------------------------------------------------------------

/// A naked option is priced by the ask of its short leg alone.
pub proof fn naked_closes_cost_the_ask(
    entry: StrategyStateEntry,
    ticks: CloseTicks,
    net: NetPrices,
)
    requires
        named_naked(entry),
    ensures
        match quote_of(entry, ticks, net) {
            Some(quote) => {
                &&& ticks.short_ask matches Some(ask) && ask.above_zero() && quote.short_ask == ask
                    && quote.debit == ask
                &&& quote.short_call_ask is None && quote.long_call_bid is None
            },
            None => !(ticks.short_ask matches Some(ask) && ask.above_zero()),
        },
{
}

/// A close of a spread is priced exactly when every leg has a price above zero and the whole is a
/// credit for a debit spread, a debit for any other; the prices of the legs are those quoted.
pub proof fn spread_closes_need_every_leg(
    entry: StrategyStateEntry,
    ticks: CloseTicks,
    net: NetPrices,
)
    requires
        !named_naked(entry),
    ensures
        ({
            let priced = |price: Option<Amount>| price matches Some(value) && value.above_zero();
            let calls = entry.short_call_symbol is Some || entry.long_call_symbol is Some;
            let found = quote_of(entry, ticks, net);
            &&& found is Some <==> {
                &&& priced(ticks.short_ask) && priced(ticks.long_bid)
                &&& calls ==> priced(ticks.short_call_ask) && priced(ticks.long_call_bid)
                &&& if named_debit(entry) {
                    !net.spread_credit.zero_or_below()
                } else {
                    !net.debit.zero_or_below()
                }
            }
            &&& found matches Some(quote) ==> {
                &&& Some(quote.short_ask) == ticks.short_ask
                &&& Some(quote.long_bid) == ticks.long_bid
                &&& quote.short_call_ask == if calls {
                    ticks.short_call_ask
                } else {
                    None
                }
                &&& quote.long_call_bid == if calls {
                    ticks.long_call_bid
                } else {
                    None
                }
                &&& quote.debit == net.debit
            }
        }),
{
}

/// A cushion touches what is paid, never what is received; without one above zero nothing changes.
pub proof fn cushions_raise_what_is_paid(
    quote: CloseQuote,
    cushion: Amount,
    raised: RaisedPrices,
)
    ensures
        quote.cushioned(cushion, raised).long_bid == quote.long_bid,
        quote.cushioned(cushion, raised).long_call_bid == quote.long_call_bid,
        quote.cushioned(cushion, raised).short_call_ask is Some <==> quote.short_call_ask is Some,
        cushion.zero_or_below() || cushion.is_nan() ==> quote.cushioned(cushion, raised) == quote,
        cushion.above_zero() ==> {
            &&& quote.cushioned(cushion, raised).short_ask == raised.short_ask
            &&& quote.cushioned(cushion, raised).debit == raised.debit
            &&& quote.short_call_ask is Some ==> quote.cushioned(cushion, raised).short_call_ask
                == Some(raised.short_call_ask)
        },
{
}

} // verus!
