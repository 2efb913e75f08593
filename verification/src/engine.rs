//! Management of existing entries over broker order snapshots.
//!
//! The steps below are taken in turn for every active entry: look up the order that
//! [`lookup_for`] names, decide on what the broker said, and where [`EntryOrderStep::Evaluate`]
//! comes out price the close and decide on it.
use vstd::prelude::*;

use crate::amount::Amount;
use crate::broker::is_terminal_status;
use crate::broker::terminal_status;
use crate::broker::AlpacaOrder;
use crate::calendar::age_secs_from_rfc3339;
use crate::calendar::earlier_by;
use crate::calendar::instant_in;
use crate::calendar::instant_text;
use crate::calendar::minus_days;
use crate::calendar::parse_instant;
use crate::calendar::rfc3339_writing;
use crate::calendar::text_age_secs;
use crate::calendar::UtcInstant;
use crate::management::attempts_used_up;
use crate::management::close_attempts_exhausted;
use crate::management::close_reason;
use crate::management::close_reprice_cooldown_remaining_secs;
use crate::management::close_trigger;
use crate::management::cooldown_left;
use crate::management::AlpacaOptionsManagementConfig;
use crate::management::CloseOrderMode;
use crate::management::CloseQuote;
use crate::management::CloseThresholds;
use crate::orders::list_id;
use crate::state::StrategyStateEntry;
use crate::text::as_slice;
use crate::text::copy_opt;
use crate::text::is_blank;
use crate::text::is_text;
use crate::text::opt_slice;
use crate::text::opt_text;
use crate::text::trimmed;
use crate::text_set::TextSet;

verus! {

/// Settings of the management runtime.
#[derive(Clone, Debug)]
pub struct EngineManagementConfig {
    /// Whether the runtime may act on orders.
    pub manage_enabled: bool,
    /// Whether the runtime may close entries.
    pub close_enabled: bool,
    /// Thresholds and gates.
    pub management: AlpacaOptionsManagementConfig,
}

/// The age of an order in whole seconds.
pub open spec fn order_age(order: AlpacaOrder, now: UtcInstant) -> Option<int> {
    match order.start_text() {
        Some(text) => text_age_secs(text, now),
        None => None,
    }
}

/// Returns the age of an order in whole seconds.
pub fn order_age_secs(order: &AlpacaOrder, now: UtcInstant) -> (age: Option<u64>)
    requires
        now.valid(),
    ensures
        match age {
            Some(secs) => order_age(*order, now) == Some(secs as int),
            None => order_age(*order, now) is None,
        },
{
    match order.start() {
        Some(text) => age_secs_from_rfc3339(text, now),
        None => None,
    }
}

/// Whether an order is at least as old as a limit; a limit of zero is none.
pub open spec fn order_stale(order: AlpacaOrder, limit: u64, now: UtcInstant) -> bool {
    limit > 0 && match order_age(order, now) {
        Some(age) => age >= limit,
        None => false,
    }
}

fn is_stale(order: &AlpacaOrder, limit: u64, now: UtcInstant) -> (stale: bool)
    requires
        now.valid(),
    ensures
        stale == order_stale(*order, limit, now),
{
    limit > 0 && match order_age_secs(order, now) {
        Some(age) => age >= limit,
        None => false,
    }
}

/// The order to look up for an entry.
#[derive(Clone, Debug)]
pub enum OrderLookup {
    /// The working close, under its order-list ID.
    CloseOrder(String),
    /// The opening orders, under their order-list ID.
    EntryOrder(String),
}

/// Returns the order to look up for an entry: its working close when there is one.
pub fn lookup_for(entry: &StrategyStateEntry) -> (lookup: OrderLookup)
    ensures
        match lookup {
            OrderLookup::CloseOrder(id) => entry.close_order_list_id == Some(id),
            OrderLookup::EntryOrder(id) => entry.close_order_list_id is None && id
                == entry.order_list_id,
        },
{
    match &entry.close_order_list_id {
        Some(id) => OrderLookup::CloseOrder(id.clone()),
        None => OrderLookup::EntryOrder(entry.order_list_id.clone()),
    }
}

/// What to do about a working close.
#[derive(Clone, Copy, Debug, PartialEq, Eq, Structural)]
pub enum CloseOrderStep {
    /// The close was filled: the entry is closed and its performance recorded.
    Filled,
    /// The close is stale: it is canceled and forgotten.
    StaleCancel,
    /// The close is stale, but the runtime may not cancel it.
    StaleReported,
    /// The close is left to work.
    Waiting,
    /// The close ended without a fill: it is forgotten.
    Terminal,
    /// The broker does not know the close: it is forgotten.
    Missing,
}

/// The step for a working close.
pub open spec fn close_order_step(
    config: EngineManagementConfig,
    order: Option<AlpacaOrder>,
    now: UtcInstant,
) -> CloseOrderStep {
    match order {
        None => CloseOrderStep::Missing,
        Some(order) => if opt_text(order.status) == Some("filled"@) {
            CloseOrderStep::Filled
        } else if order.working {
            if !order_stale(order, config.management.stale_close_secs, now) {
                CloseOrderStep::Waiting
            } else if config.manage_enabled && config.close_enabled {
                CloseOrderStep::StaleCancel
            } else {
                CloseOrderStep::StaleReported
            }
        } else if is_terminal_status(opt_text(order.status)) {
            CloseOrderStep::Terminal
        } else {
            CloseOrderStep::Waiting
        },
    }
}

/// An optional borrowed order as a value.
pub open spec fn order_value(order: Option<&AlpacaOrder>) -> Option<AlpacaOrder> {
    match order {
        Some(found) => Some(*found),
        None => None,
    }
}

/// Decides what to do about a working close.
pub fn decide_close_order(
    config: &EngineManagementConfig,
    order: Option<&AlpacaOrder>,
    now: UtcInstant,
) -> (step: CloseOrderStep)
    requires
        now.valid(),
    ensures
        step == close_order_step(*config, order_value(order), now),
{
    match order {
        None => CloseOrderStep::Missing,
        Some(order) => {
            if is_text(&order.status, "filled") {
                CloseOrderStep::Filled
            } else if order.working {
                if !is_stale(order, config.management.stale_close_secs, now) {
                    CloseOrderStep::Waiting
                } else if config.manage_enabled && config.close_enabled {
                    CloseOrderStep::StaleCancel
                } else {
                    CloseOrderStep::StaleReported
                }
            } else if terminal_status(&order.status) {
                CloseOrderStep::Terminal
            } else {
                CloseOrderStep::Waiting
            }
        },
    }
}

/// An entry after a step on its working close.
pub open spec fn after_close_step(
    entry: StrategyStateEntry,
    step: CloseOrderStep,
    order_id: Option<String>,
    now: String,
) -> StrategyStateEntry {
    match step {
        CloseOrderStep::Filled => entry.after_close(order_id, now),
        CloseOrderStep::StaleCancel => entry.after_clear(),
        CloseOrderStep::Terminal => entry.after_clear(),
        CloseOrderStep::Missing => entry.after_clear(),
        _ => entry,
    }
}

/// Whether a step on a working close changes the entry.
pub open spec fn close_step_changes(step: CloseOrderStep) -> bool {
    !(step is Waiting || step is StaleReported)
}

/// Applies a step on a working close to its entry; returns whether the entry changed. A stale close
/// is canceled at the broker first.
pub fn apply_close_step(
    entry: &mut StrategyStateEntry,
    step: CloseOrderStep,
    order_id: &Option<String>,
    now: String,
) -> (changed: bool)
    ensures
        *final(entry) == after_close_step(*old(entry), step, *order_id, now),
        changed == close_step_changes(step),
{
    match step {
        CloseOrderStep::Filled => {
            entry.mark_closed(copy_opt(order_id), now);
            true
        },
        CloseOrderStep::StaleCancel | CloseOrderStep::Terminal | CloseOrderStep::Missing => {
            entry.clear_close_submission();
            true
        },
        CloseOrderStep::StaleReported | CloseOrderStep::Waiting => false,
    }
}

/// What to do about opening orders.
#[derive(Clone, Copy, Debug, PartialEq, Eq, Structural)]
pub enum EntryOrderStep {
    /// The broker does not know the orders: nothing is done.
    Missing,
    /// The orders are left to work.
    Working,
    /// The orders are stale: they are canceled and the entry with them.
    StaleCancel,
    /// The orders are stale, but the runtime may not cancel them.
    StaleReported,
    /// The orders ended without a fill: the entry is canceled.
    Terminal,
    /// The entry holds a position: its close is evaluated.
    Evaluate,
}

/// The step for opening orders.
pub open spec fn entry_order_step(
    config: EngineManagementConfig,
    order: Option<AlpacaOrder>,
    now: UtcInstant,
) -> EntryOrderStep {
    match order {
        None => EntryOrderStep::Missing,
        Some(order) => if order.working {
            if !order_stale(order, config.management.stale_entry_secs, now) {
                EntryOrderStep::Working
            } else if config.manage_enabled {
                EntryOrderStep::StaleCancel
            } else {
                EntryOrderStep::StaleReported
            }
        } else if is_terminal_status(opt_text(order.status)) {
            EntryOrderStep::Terminal
        } else {
            EntryOrderStep::Evaluate
        },
    }
}

/// Decides what to do about opening orders.
pub fn decide_entry_order(
    config: &EngineManagementConfig,
    order: Option<&AlpacaOrder>,
    now: UtcInstant,
) -> (step: EntryOrderStep)
    requires
        now.valid(),
    ensures
        step == entry_order_step(*config, order_value(order), now),
{
    match order {
        None => EntryOrderStep::Missing,
        Some(order) => {
            if order.working {
                if !is_stale(order, config.management.stale_entry_secs, now) {
                    EntryOrderStep::Working
                } else if config.manage_enabled {
                    EntryOrderStep::StaleCancel
                } else {
                    EntryOrderStep::StaleReported
                }
            } else if terminal_status(&order.status) {
                EntryOrderStep::Terminal
            } else {
                EntryOrderStep::Evaluate
            }
        },
    }
}

/// An entry after a step on its opening orders.
pub open spec fn after_entry_step(entry: StrategyStateEntry, step: EntryOrderStep) -> StrategyStateEntry {
    if step is StaleCancel || step is Terminal {
        entry.after_cancel()
    } else {
        entry
    }
}

/// Applies a step on opening orders to the entry; returns whether the entry changed. Stale orders
/// are canceled at the broker first.
pub fn apply_entry_step(entry: &mut StrategyStateEntry, step: EntryOrderStep) -> (changed: bool)
    ensures
        *final(entry) == after_entry_step(*old(entry), step),
        changed == (step is StaleCancel || step is Terminal),
{
    match step {
        EntryOrderStep::StaleCancel | EntryOrderStep::Terminal => {
            entry.mark_canceled();
            true
        },
        _ => false,
    }
}

/// Decision on closing an entry.
#[derive(Clone, Copy, Debug, PartialEq, Eq, Structural)]
pub enum CloseDecision {
    /// The close cannot be priced.
    QuoteUnavailable,
    /// There is no reason to close.
    Hold,
    /// The runtime may not act on orders.
    ManagementDisabled,
    /// The runtime may not close entries.
    CloseDisabled,
    /// The close attempts are used up.
    MaxCloseAttempts,
    /// A close was submitted a moment ago.
    RepriceCooldown {
        /// Seconds until a close may be submitted again.
        remaining_secs: u64,
    },
    /// The market is outside its close window.
    OutsideCloseWindow,
    /// The close is submitted.
    Submit,
}

impl CloseDecision {
    /// The reason that a blocked close is reported with.
    pub open spec fn block_reason(self) -> Option<Seq<char>> {
        match self {
            CloseDecision::QuoteUnavailable => Some("close_quote_unavailable"@),
            CloseDecision::Hold => None,
            CloseDecision::ManagementDisabled => Some("management_disabled"@),
            CloseDecision::CloseDisabled => Some("close_disabled"@),
            CloseDecision::MaxCloseAttempts => Some("max_close_attempts"@),
            CloseDecision::RepriceCooldown { .. } => Some("close_reprice_cooldown"@),
            CloseDecision::OutsideCloseWindow => Some("outside_close_window"@),
            CloseDecision::Submit => None,
        }
    }

    /// Returns the reason that a blocked close is reported with.
    pub fn reason(self) -> (reason: Option<&'static str>)
        ensures
            opt_slice(reason) == self.block_reason(),
    {
        match self {
            CloseDecision::QuoteUnavailable => Some("close_quote_unavailable"),
            CloseDecision::Hold => None,
            CloseDecision::ManagementDisabled => Some("management_disabled"),
            CloseDecision::CloseDisabled => Some("close_disabled"),
            CloseDecision::MaxCloseAttempts => Some("max_close_attempts"),
            CloseDecision::RepriceCooldown { .. } => Some("close_reprice_cooldown"),
            CloseDecision::OutsideCloseWindow => Some("outside_close_window"),
            CloseDecision::Submit => None,
        }
    }
}

/// Whether close submissions are open at an instant.
#[derive(Clone, Copy, Debug, PartialEq, Eq, Structural)]
pub enum CloseSubmissionGateDecision {
    /// Closes may be submitted.
    Continue,
    /// Closes wait for the market window.
    OutsideCloseWindow,
}

/// Returns whether close submissions are open at an instant.
pub fn close_submission_gate_decision(
    config: &AlpacaOptionsManagementConfig,
    now: UtcInstant,
) -> (decision: CloseSubmissionGateDecision)
    ensures
        decision is Continue <==> config.close_allowed(now),
{
    if config.inside_close_window(now) {
        CloseSubmissionGateDecision::Continue
    } else {
        CloseSubmissionGateDecision::OutsideCloseWindow
    }
}

/// The decision on closing an entry that holds a position.
pub open spec fn close_decision(
    config: EngineManagementConfig,
    entry: StrategyStateEntry,
    quote: Option<CloseQuote>,
    thresholds: CloseThresholds,
    now: UtcInstant,
) -> CloseDecision {
    if quote is None {
        CloseDecision::QuoteUnavailable
    } else if close_trigger(config.management, entry, quote->0.debit, thresholds, now) is None {
        CloseDecision::Hold
    } else if !config.manage_enabled {
        CloseDecision::ManagementDisabled
    } else if !config.close_enabled {
        CloseDecision::CloseDisabled
    } else if attempts_used_up(config.management, entry) {
        CloseDecision::MaxCloseAttempts
    } else if cooldown_left(config.management, entry, now) is Some {
        CloseDecision::RepriceCooldown {
            remaining_secs: cooldown_left(config.management, entry, now)->0 as u64,
        }
    } else if !config.management.close_allowed(now) {
        CloseDecision::OutsideCloseWindow
    } else {
        CloseDecision::Submit
    }
}

/// Decides on closing an entry that holds a position; returns the decision and the reason to close.
pub fn decide_close(
    config: &EngineManagementConfig,
    entry: &StrategyStateEntry,
    quote: &Option<CloseQuote>,
    thresholds: &CloseThresholds,
    now: UtcInstant,
) -> (outcome: (CloseDecision, Option<String>))
    requires
        now.valid(),
    ensures
        outcome.0 == close_decision(*config, *entry, *quote, *thresholds, now),
        opt_text(outcome.1) == match *quote {
            Some(found) => close_trigger(config.management, *entry, found.debit, *thresholds, now),
            None => None,
        },
{
    let debit: Amount = match quote {
        Some(found) => found.debit,
        None => {
            return (CloseDecision::QuoteUnavailable, None);
        },
    };
    let trigger = close_reason(&config.management, entry, debit, thresholds, now);
    if trigger.is_none() {
        return (CloseDecision::Hold, trigger);
    }
    if !config.manage_enabled {
        return (CloseDecision::ManagementDisabled, trigger);
    }
    if !config.close_enabled {
        return (CloseDecision::CloseDisabled, trigger);
    }
    if close_attempts_exhausted(&config.management, entry) {
        return (CloseDecision::MaxCloseAttempts, trigger);
    }
    match close_reprice_cooldown_remaining_secs(&config.management, entry, now) {
        Some(remaining_secs) => {
            return (CloseDecision::RepriceCooldown { remaining_secs }, trigger);
        },
        None => {},
    }
    if close_submission_gate_decision(&config.management, now)
        == CloseSubmissionGateDecision::OutsideCloseWindow {
        return (CloseDecision::OutsideCloseWindow, trigger);
    }
    (CloseDecision::Submit, trigger)
}

/// Builds an order-list ID for one submitted close from a unique suffix.
pub fn close_order_list_id(entry: &StrategyStateEntry, unique: &str) -> (id: String)
    ensures
        id@ == list_id("options-engine-close-"@, entry.trade_date@, entry.underlying@, unique@),
{
    "options-engine-close-".to_owned().concat(entry.trade_date.as_str()).concat("-").concat(
        entry.underlying.as_str(),
    ).concat("-").concat(unique)
}

/// What the broker said to a submission.
#[derive(Clone, Debug)]
pub struct SubmitOutcome {
    /// Number of accepted orders.
    pub accepted: usize,
    /// Broker parent order ID.
    pub parent_order_id: Option<String>,
}

/// Records a submitted close when the broker took at least one of its orders; returns whether the
/// entry changed.
pub fn record_close_outcome(
    entry: &mut StrategyStateEntry,
    outcome: SubmitOutcome,
    close_order_list_id: String,
    close_reason: String,
    now: String,
) -> (changed: bool)
    ensures
        changed == (outcome.accepted > 0),
        !changed ==> *final(entry) == *old(entry),
        changed ==> exists|mode: String|
            #![trigger mode@]
            mode@ == CloseOrderMode::LegacyLegOrderList.label() && *final(entry)
                == old(entry).after_close_submission(
                close_order_list_id,
                outcome.parent_order_id,
                close_reason,
                mode,
                now,
            ),
{
    if outcome.accepted > 0 {
        let mode = CloseOrderMode::LegacyLegOrderList.as_str().to_owned();
        entry.record_close_submission(
            close_order_list_id,
            outcome.parent_order_id,
            close_reason,
            mode,
            now,
        );
        assert(mode@ == CloseOrderMode::LegacyLegOrderList.label());
        true
    } else {
        false
    }
}

/// An entry with a working close is never given another: only its working close is looked up, and
/// a step on it leaves the attempts as they are.
pub proof fn working_close_is_awaited(
    entry: StrategyStateEntry,
    step: CloseOrderStep,
    order_id: Option<String>,
    now: String,
)
    ensures
        after_close_step(entry, step, order_id, now).close_attempts == entry.close_attempts,
        after_close_step(entry, step, order_id, now).last_close_submitted_at_utc
            == entry.last_close_submitted_at_utc,
        after_close_step(entry, step, order_id, now).closed == (entry.closed || step is Filled),
        after_close_step(entry, step, order_id, now).canceled == entry.canceled,
{
}

/// A forced flatten submits the close of every entry that can be priced, when the runtime may act
/// on orders and close entries.
pub proof fn flatten_submits_every_priced_close(
    config: EngineManagementConfig,
    entry: StrategyStateEntry,
    quote: CloseQuote,
    thresholds: CloseThresholds,
    now: UtcInstant,
)
    requires
        config.management.force_flatten,
        config.manage_enabled,
        config.close_enabled,
    ensures
        close_decision(config, entry, Some(quote), thresholds, now) is Submit,
{
}

// ---------------------------------------------------------------------------------------------
// Submission sessions
// ---------------------------------------------------------------------------------------------

/// An execution event of a submission session.
#[derive(Clone, Debug)]
pub enum ExecutionNotice {
    /// An order was accepted.
    Accepted,
    /// An order was rejected, with the reason if one was given.
    Rejected(Option<String>),
    /// Anything else.
    Other,
}

/// Execution events of a submission session so far.
#[derive(Clone, Debug)]
pub struct ExecutionTally {
    /// Accepted orders.
    pub accepted: usize,
    /// Rejected orders.
    pub rejected: usize,
    /// Reasons of rejections.
    pub rejection_reasons: Vec<String>,
}

impl ExecutionTally {
    /// Creates an empty tally.
    pub fn new() -> (tally: ExecutionTally)
        ensures
            tally.accepted == 0,
            tally.rejected == 0,
            tally.rejection_reasons@.len() == 0,
    {
        ExecutionTally { accepted: 0, rejected: 0, rejection_reasons: Vec::new() }
    }

    /// Counts one event; returns whether every leg has been answered.
    pub fn count(&mut self, notice: ExecutionNotice, leg_count: usize) -> (done: bool)
        requires
            old(self).accepted + old(self).rejected < usize::MAX,
        ensures
            final(self).accepted == old(self).accepted + if notice is Accepted {
                1int
            } else {
                0
            },
            final(self).rejected == old(self).rejected + if notice is Rejected {
                1int
            } else {
                0
            },
            final(self).rejection_reasons@ == match notice {
                ExecutionNotice::Rejected(Some(reason)) => old(self).rejection_reasons@.push(reason),
                _ => old(self).rejection_reasons@,
            },
            done == (final(self).accepted + final(self).rejected >= leg_count),
    {
        match notice {
            ExecutionNotice::Accepted => {
                self.accepted += 1;
            },
            ExecutionNotice::Rejected(reason) => {
                self.rejected += 1;
                match reason {
                    Some(text) => {
                        self.rejection_reasons.push(text);
                    },
                    None => {},
                }
            },
            ExecutionNotice::Other => {},
        }
        self.accepted + self.rejected >= leg_count
    }
}

/// Returns the parent order to cancel at the end of a session: that of an accepted submission which
/// is not meant to stay.
pub fn parent_to_cancel<'a>(
    cancel_after_accept: bool,
    tally: &ExecutionTally,
    parent_order_id: &'a Option<String>,
) -> (parent: Option<&'a str>)
    ensures
        opt_slice(parent) == if cancel_after_accept && tally.accepted > 0 {
            opt_text(*parent_order_id)
        } else {
            None
        },
{
    if cancel_after_accept && tally.accepted > 0 {
        as_slice(parent_order_id)
    } else {
        None
    }
}

// ---------------------------------------------------------------------------------------------
// Performance
// ---------------------------------------------------------------------------------------------

/// Adds an order ID that is not blank.
pub fn add_state_order_id(order_id: &Option<String>, order_ids: &mut TextSet)
    requires
        old(order_ids).wf(),
    ensures
        final(order_ids).wf(),
        forall|x: Seq<char>|
            #[trigger] final(order_ids).has(x) <==> old(order_ids).has(x) || (opt_text(*order_id)
                == Some(x) && trimmed(x).len() > 0),
{
    match order_id {
        Some(id) => {
            if !is_blank(id.as_str()) {
                order_ids.insert(id.clone());
            }
        },
        None => {},
    }
}

/// The instant from which activities of an entry are listed: a day before its record, else thirty
/// days before now.
pub open spec fn activity_start(entry: StrategyStateEntry, now: UtcInstant) -> Option<UtcInstant> {
    let recorded = match instant_in(entry.recorded_at_utc@) {
        Some(time) => earlier_by(time, 1),
        None => None,
    };
    match recorded {
        Some(time) => Some(time),
        None => earlier_by(now, 30),
    }
}

/// Returns the timestamp from which activities of an entry are listed.
pub fn performance_activity_after_timestamp(entry: &StrategyStateEntry, now: UtcInstant) -> (text: Option<
    String,
>)
    ensures
        opt_text(text) == match activity_start(*entry, now) {
            Some(time) => rfc3339_writing(time.secs, time.nanos),
            None => None,
        },
{
    let recorded = match parse_instant(entry.recorded_at_utc.as_str()) {
        Some(time) => minus_days(time, 1),
        None => None,
    };
    let start = match recorded {
        Some(time) => Some(time),
        None => minus_days(now, 30),
    };
    match start {
        Some(time) => instant_text(time),
        None => None,
    }
}

} // verus!
