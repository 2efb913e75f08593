//! The entry strategy: submits the best candidate of every candidate set once per trade date,
//! strategy and underlying.
use vstd::prelude::*;

use crate::account_strategy::submitted_underlying_key;
use crate::account_strategy::underlying_key;
use crate::calendar::MarketWindow;
use crate::calendar::TimeOfDay;
use crate::calendar::UtcInstant;
use crate::candidate_set::OptionsCandidateSet;
use crate::entry::SelectedOptionsEntry;
use crate::orders::build_selected_entry_orders;
use crate::orders::entry_failure;
use crate::orders::entry_legs;
use crate::orders::list_id;
use crate::orders::listed;
use crate::orders::order_submission;
use crate::orders::orders_built;
use crate::orders::OrderError;
use crate::orders::OrderSubmission;
use crate::orders::PlannedOrder;
use crate::text::opt_slice;
use crate::text_set::TextSet;

verus! {

/// Configuration for [`AlpacaOptionsEntryStrategy`].
#[derive(Clone, Debug)]
pub struct AlpacaOptionsEntryStrategyConfig {
    /// Contract quantity per leg.
    pub quantity: u64,
    /// Whether live submission is globally enabled.
    pub submit_enabled: bool,
    /// Strategy names that are intentionally scanned but not submitted.
    pub dry_run_strategy_names: TextSet,
    /// Whether new entries are blocked.
    pub kill_switch: bool,
    /// Whether the entry window should be ignored.
    pub ignore_entry_window: bool,
    /// Entry window.
    pub entry_window: MarketWindow,
}

impl AlpacaOptionsEntryStrategyConfig {
    /// Builds a config from a contract quantity.
    #[must_use]
    pub fn new(quantity: u64) -> (config: AlpacaOptionsEntryStrategyConfig)
        ensures
            config.quantity == quantity,
            config.submit_enabled,
            config.dry_run_strategy_names@.len() == 0,
            !config.kill_switch,
            config.ignore_entry_window,
            config.entry_window.start == (TimeOfDay { secs: 0, nanos: 0 }),
            config.entry_window.end == (TimeOfDay { secs: 86_399, nanos: 0 }),
            config.entry_window.zone@ == "UTC"@,
    {
        AlpacaOptionsEntryStrategyConfig {
            quantity,
            submit_enabled: true,
            dry_run_strategy_names: TextSet::new(),
            kill_switch: false,
            ignore_entry_window: true,
            entry_window: MarketWindow {
                start: TimeOfDay { secs: 0, nanos: 0 },
                end: TimeOfDay { secs: 86_399, nanos: 0 },
                zone: "UTC".to_owned(),
            },
        }
    }

    /// Why no entry is submitted at an instant.
    pub open spec fn block_reason(self, now: UtcInstant) -> Option<Seq<char>> {
        if self.kill_switch {
            Some("kill_switch_enabled"@)
        } else if !self.ignore_entry_window && !self.entry_window.open_at(now) {
            Some("outside_entry_window"@)
        } else {
            None
        }
    }

    /// Whether a strategy may submit.
    pub open spec fn submits(self, strategy: Seq<char>) -> bool {
        self.submit_enabled && !self.dry_run_strategy_names.has(strategy)
    }

    /// Returns why no entry is submitted at an instant.
    pub fn entry_block_reason(&self, now: UtcInstant) -> (reason: Option<&'static str>)
        ensures
            opt_slice(reason) == self.block_reason(now),
    {
        if self.kill_switch {
            return Some("kill_switch_enabled");
        }
        if !self.ignore_entry_window && !self.entry_window.is_open_at(now) {
            return Some("outside_entry_window");
        }
        None
    }

    /// Returns whether a selected entry may submit.
    pub fn selected_submit_enabled(&self, entry: &SelectedOptionsEntry) -> (enabled: bool)
        ensures
            enabled == self.submits(entry.strategy()),
    {
        self.submit_enabled && !self.dry_run_strategy_names.contains(entry.strategy_name())
    }
}

/// Submission result for one selected options entry.
#[derive(Clone, Debug)]
pub struct AlpacaOptionsEntrySubmission {
    /// Submitted candidate.
    pub entry: SelectedOptionsEntry,
    /// Parent order-list ID, or the single client-order ID for one-leg entries.
    pub order_list_id: String,
    /// Number of orders sent to the broker.
    pub order_count: usize,
}

/// Orders to send and what to report of them.
#[derive(Clone, Debug)]
pub struct PreparedSubmission {
    /// How the orders go to the broker.
    pub orders: OrderSubmission,
    /// What to report.
    pub submission: AlpacaOptionsEntrySubmission,
}

/// Whether orders go to the broker as they must: a lone order on its own, several under the
/// order-list ID.
pub open spec fn goes_out_as(
    submission: OrderSubmission,
    orders: Seq<PlannedOrder>,
    order_list_id: Seq<char>,
) -> bool {
    match submission {
        OrderSubmission::Single(order) => orders.len() == 1 && order == orders[0],
        OrderSubmission::List(list) => orders.len() != 1 && list@.len() == orders.len() && forall|
            i: int,
        |
            0 <= i < orders.len() ==> listed(orders[i], order_list_id, #[trigger] list@[i]),
    }
}

/// Whether a submission is prepared for an entry: the orders of all its legs go out under the
/// order-list ID, and the report tells of them.
pub open spec fn is_prepared(
    prepared: PreparedSubmission,
    entry: SelectedOptionsEntry,
    order_list_id: Seq<char>,
    quantity: u64,
) -> bool {
    &&& prepared.submission.entry == entry
    &&& prepared.submission.order_list_id@ == order_list_id
    &&& prepared.submission.order_count == entry_legs(entry).len()
    &&& exists|orders: Vec<PlannedOrder>|
        #![trigger goes_out_as(prepared.orders, orders@, order_list_id)]
        orders_built(Ok(orders), entry_legs(entry), order_list_id, quantity, false) && goes_out_as(
            prepared.orders,
            orders@,
            order_list_id,
        )
}

/// Whether a result is that of preparing an entry: a submission, or an error where the orders cannot
/// be built.
pub open spec fn is_preparation(
    result: Result<PreparedSubmission, OrderError>,
    entry: SelectedOptionsEntry,
    order_list_id: Seq<char>,
    quantity: u64,
) -> bool {
    match result {
        Ok(prepared) => entry_failure(entry, order_list_id, quantity) is None && is_prepared(
            prepared,
            entry,
            order_list_id,
            quantity,
        ),
        Err(error) => entry_failure(entry, order_list_id, quantity) == Some(error@),
    }
}

/// Whether a result is that of preparing the best candidate of a set.
pub open spec fn is_best_preparation(
    result: Result<Option<PreparedSubmission>, OrderError>,
    candidates: OptionsCandidateSet,
    order_list_id: Seq<char>,
    quantity: u64,
) -> bool {
    match candidates.selected() {
        None => result matches Ok(None),
        Some(selected) => match result {
            Ok(Some(prepared)) => is_preparation(
                Ok(prepared),
                selected.entry,
                order_list_id,
                quantity,
            ),
            Ok(None) => false,
            Err(error) => is_preparation(Err(error), selected.entry, order_list_id, quantity),
        },
    }
}

/// Prepares the submission of one selected entry.
///
/// # Errors
///
/// Returns an error when quantity, price, or Alpaca option symbol inputs are invalid.
pub(crate) fn prepare_entry(entry: SelectedOptionsEntry, order_list_id: &str, quantity: u64) -> (result: Result<
    PreparedSubmission,
    OrderError,
>)
    ensures
        is_preparation(result, entry, order_list_id@, quantity),
{
    match build_selected_entry_orders(&entry, order_list_id, quantity) {
        Ok(orders) => {
            let order_count: usize = orders.len();
            let ghost built = orders;
            let out = order_submission(orders, order_list_id);
            assert(goes_out_as(out, built@, order_list_id@));
            Ok(
                PreparedSubmission {
                    orders: out,
                    submission: AlpacaOptionsEntrySubmission {
                        entry,
                        order_list_id: order_list_id.to_owned(),
                        order_count,
                    },
                },
            )
        },
        Err(error) => Err(error),
    }
}

/// Prepares the submission of the highest-ranked candidate, if present.
///
/// # Errors
///
/// Returns an error when quantity, price, or Alpaca option symbol inputs are invalid.
pub(crate) fn prepare_best(
    candidates: OptionsCandidateSet,
    order_list_id: &str,
    quantity: u64,
) -> (result: Result<Option<PreparedSubmission>, OrderError>)
    ensures
        is_best_preparation(result, candidates, order_list_id@, quantity),
{
    match candidates.into_selected_entry() {
        Some(selected) => match prepare_entry(selected.entry, order_list_id, quantity) {
            Ok(prepared) => Ok(Some(prepared)),
            Err(error) => Err(error),
        },
        None => Ok(None),
    }
}

/// Strategy that submits the best candidate of every candidate set.
#[derive(Clone, Debug)]
pub struct AlpacaOptionsEntryStrategy {
    /// Configuration.
    pub config: AlpacaOptionsEntryStrategyConfig,
    /// Keys of submitted entries: trade date, strategy and underlying.
    pub submitted_underlying_keys: TextSet,
}

/// What became of the best candidate.
#[derive(Clone, Debug)]
pub enum OpportunityOutcome {
    /// There is no candidate.
    NoCandidate,
    /// The candidate is skipped, for a reason.
    Skipped(&'static str),
    /// The candidate is reported without submission.
    DryRun,
    /// The candidate was submitted before, under a key.
    Duplicate(String),
    /// The candidate cannot be ordered.
    Failed(OrderError),
    /// The orders are to be sent.
    Submit(PreparedSubmission),
}

impl AlpacaOptionsEntryStrategy {
    /// Whether the keys are in order.
    pub open spec fn wf(self) -> bool {
        self.submitted_underlying_keys.wf()
    }

    /// Creates a new strategy.
    #[must_use]
    pub fn new(config: AlpacaOptionsEntryStrategyConfig) -> (strategy: AlpacaOptionsEntryStrategy)
        ensures
            strategy.wf(),
            strategy.config == config,
            strategy.submitted_underlying_keys@.len() == 0,
    {
        AlpacaOptionsEntryStrategy { config, submitted_underlying_keys: TextSet::new() }
    }

    /// Handles candidates received from scanner actors. Where the orders of an outcome of
    /// [`OpportunityOutcome::Submit`] cannot be sent after all, [`forget`](Self::forget) takes the key
    /// back.
    pub fn submit_opportunity_data(
        &mut self,
        opportunities: &OptionsCandidateSet,
        order_list_id: &str,
        now: UtcInstant,
    ) -> (outcome: OpportunityOutcome)
        requires
            old(self).wf(),
        ensures
            final(self).wf(),
            final(self).config == old(self).config,
            match opportunities.selected() {
                None => outcome is NoCandidate,
                Some(selected) => {
                    let entry = selected.entry;
                    let key = underlying_key(opportunities.trade_date@, entry);
                    let failure = entry_failure(
                        entry,
                        order_list_id@,
                        old(self).config.quantity,
                    );
                    if old(self).config.block_reason(now) is Some {
                        outcome matches OpportunityOutcome::Skipped(reason) && old(self).config.block_reason(now) == Some(reason@)
                    } else if !old(self).config.submits(entry.strategy()) {
                        outcome is DryRun
                    } else if old(self).submitted_underlying_keys.has(key) {
                        outcome matches OpportunityOutcome::Duplicate(found) && found@ == key
                    } else if failure is Some {
                        outcome matches OpportunityOutcome::Failed(error) && failure == Some(error@)
                    } else {
                        &&& outcome matches OpportunityOutcome::Submit(prepared) && is_prepared(
                            prepared,
                            entry,
                            order_list_id@,
                            old(self).config.quantity,
                        )
                        &&& forall|x: Seq<char>|
                            #[trigger] final(self).submitted_underlying_keys.has(x) <==> old(self).submitted_underlying_keys.has(x) || x == key
                    }
                },
            },
            !(outcome is Submit) ==> final(self).submitted_underlying_keys@ == old(self).submitted_underlying_keys@,
    {
        let selected = match opportunities.selected_entry() {
            Some(selected) => selected,
            None => {
                return OpportunityOutcome::NoCandidate;
            },
        };
        match self.config.entry_block_reason(now) {
            Some(reason) => {
                return OpportunityOutcome::Skipped(reason);
            },
            None => {},
        }
        if !self.config.selected_submit_enabled(&selected.entry) {
            return OpportunityOutcome::DryRun;
        }
        let key = submitted_underlying_key(opportunities.trade_date.as_str(), &selected.entry);
        if self.submitted_underlying_keys.contains(key.as_str()) {
            return OpportunityOutcome::Duplicate(key);
        }
        match prepare_entry(selected.entry.copy(), order_list_id, self.config.quantity) {
            Ok(prepared) => {
                let _added = self.submitted_underlying_keys.insert(key);
                OpportunityOutcome::Submit(prepared)
            },
            Err(error) => OpportunityOutcome::Failed(error),
        }
    }

    /// Prepares the submission of one selected entry.
    ///
    /// # Errors
    ///
    /// Returns an error when quantity, price, or Alpaca option symbol inputs are invalid.
    pub fn submit_selected_entry(&self, entry: SelectedOptionsEntry, order_list_id: &str) -> (result: Result<
        PreparedSubmission,
        OrderError,
    >)
        ensures
            is_preparation(result, entry, order_list_id@, self.config.quantity),
    {
        prepare_entry(entry, order_list_id, self.config.quantity)
    }

    /// Prepares the submission of the highest-ranked candidate, if present.
    ///
    /// # Errors
    ///
    /// Returns an error when quantity, price, or Alpaca option symbol inputs are invalid.
    pub fn submit_opportunities(&self, opportunities: OptionsCandidateSet, order_list_id: &str) -> (result: Result<
        Option<PreparedSubmission>,
        OrderError,
    >)
        ensures
            is_best_preparation(result, opportunities, order_list_id@, self.config.quantity),
    {
        prepare_best(opportunities, order_list_id, self.config.quantity)
    }

    /// Takes back the key of a submission whose orders could not be sent.
    pub fn forget(&mut self, trade_date: &str, entry: &SelectedOptionsEntry)
        requires
            old(self).wf(),
        ensures
            final(self).wf(),
            final(self).config == old(self).config,
            forall|x: Seq<char>|
                #[trigger] final(self).submitted_underlying_keys.has(x) <==> old(self).submitted_underlying_keys.has(x) && x != underlying_key(trade_date@, *entry),
    {
        let key = submitted_underlying_key(trade_date, entry);
        let _removed = self.submitted_underlying_keys.remove(key.as_str());
    }
}

/// Builds an order-list ID for one submitted entry from a unique suffix.
#[must_use]
pub fn entry_order_list_id(trade_date: &str, underlying: &str, unique: &str) -> (id: String)
    ensures
        id@ == list_id("options-engine-entry-"@, trade_date@, underlying@, unique@),
{
    "options-engine-entry-".to_owned().concat(trade_date).concat("-").concat(underlying).concat(
        "-",
    ).concat(unique)
}

} // verus!
