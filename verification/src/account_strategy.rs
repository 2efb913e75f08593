//! The account strategy: turns selected candidates into submissions, follows the broker's answers,
//! and keeps the strategy state.
use vstd::prelude::*;

use crate::active_entry::ActiveEntryDecision;
use crate::active_entry::OrderListRuntimeStatus;
use crate::admission::admission_block;
use crate::admission::entry_gate;
use crate::admission::entry_gate_decision;
use crate::admission::may_submit;
use crate::admission::selected_submit_enabled;
use crate::admission::submission_block_for_selected;
use crate::admission::BlockView;
use crate::admission::EntryAdmissionConfig;
use crate::admission::EntryAdmissionSnapshot;
use crate::admission::EntryGateDecision;
use crate::admission::RiskCapitalFigures;
use crate::admission::SubmissionBlock;
use crate::amount::Amount;
use crate::broker_view::admission_reasons;
use crate::broker_view::counts_groups;
use crate::broker_view::entry_admission_snapshot;
use crate::broker_view::symbol_failure;
use crate::broker_view::BrokerView;
use crate::calendar::UtcInstant;
use crate::candidate_set::OptionsCandidateSet;
use crate::entry::SelectedOptionsEntry;
use crate::entry_strategy::is_best_preparation;
use crate::entry_strategy::is_preparation;
use crate::entry_strategy::prepare_best;
use crate::entry_strategy::prepare_entry;
use crate::entry_strategy::PreparedSubmission;
use crate::lifecycle::lifecycle_block;
use crate::lifecycle::OptionLifecycleRiskHandle;
use crate::management::AlpacaOptionsManagementConfig;
use crate::management::CloseOrderMode;
use crate::management::CloseQuote;
use crate::mutation::accepted_state_mutation;
use crate::mutation::close_accepted;
use crate::mutation::close_accepted_state_mutation;
use crate::mutation::close_cleared;
use crate::mutation::close_cleared_state_mutation;
use crate::mutation::entry_accepted;
use crate::mutation::entry_canceled;
use crate::mutation::entry_canceled_state_mutation;
use crate::mutation::entry_closed;
use crate::mutation::entry_closed_state_mutation;
use crate::mutation::entry_rejected;
use crate::mutation::rejected_state_mutation;
use crate::mutation::StrategyStateMutation;
use crate::orders::build_close_entry_orders;
use crate::orders::build_selected_entry_orders;
use crate::orders::close_legs;
use crate::orders::entry_failure;
use crate::orders::entry_legs;
use crate::orders::list_id;
use crate::orders::orders_built;
use crate::orders::ErrorView;
use crate::orders::OrderError;
use crate::orders::PlannedOrder;
use crate::payloads::entry_tree;
use crate::payloads::OrderAcceptance;
use crate::payloads::OrderRefusal;
use crate::pending::accepted_book;
use crate::pending::answered_book;
use crate::pending::counted_rejection;
use crate::pending::ids_with;
use crate::pending::ids_without;
use crate::pending::rejected_book;
use crate::pending::rejection_label;
use crate::pending::PendingCloseSubmission;
use crate::pending::PendingCloses;
use crate::pending::PendingEntries;
use crate::pending::PendingEntrySubmission;
use crate::planner::plan_selected_candidate;
use crate::quotes::freshness_block;
use crate::quotes::selected_entry_quote_freshness_block;
use crate::quotes::QuoteSubscriptions;
use crate::state::close_position;
use crate::state::close_position_bounds;
use crate::state::entry_position;
use crate::state::recorded_entry;
use crate::state::SpreadRecord;
use crate::state::StrategyState;
use crate::state::StrategyStateEntry;
use crate::state::StrategyStateEntryDraft;
use crate::text::copy_opt;
use crate::text::opt_text;
use crate::text::texts;
use crate::text_map::TextMap;
use crate::text_set::TextSet;

verus! {

/// Submission result for one selected options entry.
#[derive(Clone, Debug)]
pub struct AlpacaOptionsSubmission {
    /// Submitted candidate.
    pub entry: SelectedOptionsEntry,
    /// Parent order-list ID, or the single client-order ID for one-leg entries.
    pub order_list_id: String,
    /// Number of orders sent to the broker.
    pub order_count: usize,
}

/// Configuration for [`AlpacaOptionsAccountStrategy`].
#[derive(Clone, Debug)]
pub struct AlpacaOptionsAccountStrategyConfig {
    /// Contract quantity per leg.
    pub quantity: u64,
    /// Entry-admission gates owned by the strategy path.
    pub admission: EntryAdmissionConfig,
    /// Lifecycle-risk state from the account-activity poller.
    pub lifecycle_risk: Option<OptionLifecycleRiskHandle>,
    /// Management settings owned by the live strategy runtime.
    pub management: AlpacaOptionsManagementConfig,
}

/// Strategy responsible for converting selected option candidates into orders.
#[derive(Clone, Debug)]
pub struct AlpacaOptionsAccountStrategy {
    /// Configuration.
    pub config: AlpacaOptionsAccountStrategyConfig,
    /// Strategy state.
    pub state: StrategyState,
    /// Entry submissions that wait for answers.
    pub pending_entries: PendingEntries,
    /// Close submissions that wait for answers.
    pub pending_closes: PendingCloses,
    /// Keys of submitted entries: trade date, strategy and underlying.
    pub submitted_underlying_keys: TextSet,
    /// Keys of alerts that were recorded: trade date and alert key.
    pub recorded_candidate_alert_keys: TextSet,
    /// Quote subscriptions.
    pub quotes: QuoteSubscriptions,
}

/// What the runtime knows when candidates come in.
#[derive(Clone, Debug)]
pub struct CandidateSubmission {
    /// Ranked candidates.
    pub candidates: OptionsCandidateSet,
    /// Whether the regime allows dry runs only.
    pub regime_dry_run_only: bool,
    /// Order-list ID to submit under.
    pub order_list_id: String,
    /// Submission time.
    pub submitted_at_utc: String,
    /// Current time.
    pub now: UtcInstant,
    /// Time of the last quote of each symbol, in nanoseconds.
    pub quote_times: TextMap<u64>,
    /// Whether the candidate ledger can be written.
    pub candidate_ledger_ready: bool,
    /// Whether the strategy state can be persisted.
    pub state_persistence_ready: bool,
    /// Positions and working orders.
    pub broker: BrokerView,
    /// Risk-capital figures.
    pub figures: RiskCapitalFigures,
    /// Spread that the selected candidate is recorded as.
    pub spread: SpreadRecord,
}

/// What became of the selected candidate.
#[derive(Clone, Debug)]
pub enum CandidateOutcome {
    /// There is no candidate.
    NoCandidate,
    /// The candidate is skipped, for a reason.
    Skipped(&'static str),
    /// The candidate is recorded without submission, for a reason.
    DryRun(&'static str),
    /// A gate blocks the candidate.
    Blocked(SubmissionBlock),
    /// The candidate cannot be ordered.
    Failed(OrderError),
    /// The orders are to be submitted.
    Submit(Vec<PlannedOrder>),
}

/// What became of the selected candidate, in short.
pub enum OutcomeView {
    /// There is no candidate.
    NoCandidate,
    /// The candidate is skipped, for a reason.
    Skipped(Seq<char>),
    /// The candidate is recorded without submission, for a reason.
    DryRun(Seq<char>),
    /// A gate blocks the candidate.
    Blocked(BlockView),
    /// The candidate cannot be ordered, for an error.
    Failed(ErrorView),
    /// The orders are to be submitted.
    Submit,
}

impl View for CandidateOutcome {
    type V = OutcomeView;

    open spec fn view(&self) -> OutcomeView {
        match self {
            CandidateOutcome::NoCandidate => OutcomeView::NoCandidate,
            CandidateOutcome::Skipped(reason) => OutcomeView::Skipped(reason@),
            CandidateOutcome::DryRun(reason) => OutcomeView::DryRun(reason@),
            CandidateOutcome::Blocked(block) => OutcomeView::Blocked(block@),
            CandidateOutcome::Failed(error) => OutcomeView::Failed(error@),
            CandidateOutcome::Submit(_) => OutcomeView::Submit,
        }
    }
}

/// Builds an order-list ID for one submitted entry from a unique suffix.
#[must_use]
pub fn entry_order_list_id(trade_date: &str, underlying: &str, unique: &str) -> (id: String)
    ensures
        id@ == list_id("options-entry-"@, trade_date@, underlying@, unique@),
{
    "options-entry-".to_owned().concat(trade_date).concat("-").concat(underlying).concat(
        "-",
    ).concat(unique)
}

/// Builds an order-list ID for one submitted close from a unique suffix.
#[must_use]
pub fn close_order_list_id(trade_date: &str, underlying: &str, unique: &str) -> (id: String)
    ensures
        id@ == list_id("options-close-"@, trade_date@, underlying@, unique@),
{
    "options-close-".to_owned().concat(trade_date).concat("-").concat(underlying).concat(
        "-",
    ).concat(unique)
}

/// The key that an entry is submitted under.
pub open spec fn underlying_key(trade_date: Seq<char>, entry: SelectedOptionsEntry) -> Seq<char> {
    trade_date + ":"@ + entry.strategy() + ":"@ + entry.underlying_chars()
}

/// Returns the key that an entry is submitted under.
pub fn submitted_underlying_key(trade_date: &str, entry: &SelectedOptionsEntry) -> (key: String)
    ensures
        key@ == underlying_key(trade_date@, *entry),
{
    trade_date.to_owned().concat(":").concat(entry.strategy_name()).concat(":").concat(
        entry.underlying(),
    )
}

/// The lifecycle block on an entry, if lifecycle risk is followed.
pub open spec fn followed_lifecycle_block(
    risk: Option<OptionLifecycleRiskHandle>,
    entry: SelectedOptionsEntry,
    now: UtcInstant,
) -> Option<BlockView> {
    match risk {
        Some(handle) => lifecycle_block(
            handle.config,
            texts(handle.state.account_blocks@),
            entry,
            now,
        ),
        None => None,
    }
}

/// The client order IDs of some orders.
pub open spec fn client_ids(orders: Seq<PlannedOrder>) -> Seq<Seq<char>> {
    Seq::new(orders.len(), |i: int| orders[i].client_order_id@)
}

fn order_client_ids(orders: &Vec<PlannedOrder>) -> (ids: Vec<String>)
    ensures
        texts(ids@) == client_ids(orders@),
{
    let mut ids: Vec<String> = Vec::new();
    for i in 0..orders.len()
        invariant
            ids@.len() == i,
            forall|k: int| 0 <= k < i ==> (#[trigger] ids@[k])@ == orders@[k].client_order_id@,
    {
        ids.push(orders[i].client_order_id.clone());
    }
    assert(texts(ids@) =~= client_ids(orders@));
    ids
}

/// The gates before the broker is asked, in order: the account gate, the regime, dry runs, lifecycle
/// risk, quote freshness, and whether evidence and state can be kept.
pub open spec fn early_outcome(
    config: AlpacaOptionsAccountStrategyConfig,
    data: CandidateSubmission,
    entry: SelectedOptionsEntry,
) -> Option<OutcomeView> {
    let gate = entry_gate(config.admission, data.now);
    let lifecycle = followed_lifecycle_block(config.lifecycle_risk, entry, data.now);
    let stale = freshness_block(
        entry,
        data.quote_times,
        config.management.active_risk_quote_stale_secs,
        data.now,
    );
    if gate is KillSwitch {
        Some(OutcomeView::Skipped("kill_switch_enabled"@))
    } else if gate is OutsideEntryWindow {
        Some(OutcomeView::Skipped("outside_entry_window"@))
    } else if data.regime_dry_run_only {
        Some(OutcomeView::DryRun("regime_dry_run_only"@))
    } else if !may_submit(config.admission, entry.strategy()) {
        Some(OutcomeView::DryRun("open_orders_disabled"@))
    } else if lifecycle is Some {
        Some(OutcomeView::Blocked(lifecycle->0))
    } else if stale is Some {
        Some(OutcomeView::Blocked(stale->0))
    } else if config.admission.submit_enabled && !data.candidate_ledger_ready {
        Some(OutcomeView::Skipped("candidate_ledger_unhealthy"@))
    } else if config.admission.submit_enabled && !data.state_persistence_ready {
        Some(OutcomeView::Skipped("state_persistence_unhealthy"@))
    } else if symbol_failure(entry) is Some {
        Some(OutcomeView::Failed(symbol_failure(entry)->0))
    } else {
        None
    }
}

/// Whether a snapshot takes stock of the broker for an entry.
pub open spec fn takes_stock(
    snapshot: EntryAdmissionSnapshot,
    config: AlpacaOptionsAccountStrategyConfig,
    data: CandidateSubmission,
    entry: SelectedOptionsEntry,
) -> bool {
    &&& counts_groups(data.broker.orders@, snapshot.open_order_count)
    &&& texts(snapshot.broker_admission_reasons@) == admission_reasons(
        texts(config.admission.account_admission_reasons@),
        data.broker,
        entry,
    )
}

/// The outcome once the broker was taken stock of: a block, a repetition, orders that cannot be built,
/// or a submission.
pub open spec fn late_outcome(
    strategy: AlpacaOptionsAccountStrategy,
    data: CandidateSubmission,
    entry: SelectedOptionsEntry,
    snapshot: EntryAdmissionSnapshot,
) -> OutcomeView {
    let trade_date = data.candidates.trade_date@;
    let failure = entry_failure(entry, data.order_list_id@, strategy.config.quantity);
    let block = admission_block(
        strategy.config.admission,
        strategy.state,
        entry,
        trade_date,
        snapshot,
        data.figures,
    );
    if block is Some {
        OutcomeView::Blocked(block->0)
    } else if strategy.submitted_underlying_keys.has(underlying_key(trade_date, entry)) {
        OutcomeView::Skipped("duplicate_pending_submission"@)
    } else if failure is Some {
        OutcomeView::Failed(failure->0)
    } else {
        OutcomeView::Submit
    }
}

/// Whether an outcome is that of the selected candidate.
pub open spec fn outcome_of(
    strategy: AlpacaOptionsAccountStrategy,
    data: CandidateSubmission,
    outcome: OutcomeView,
) -> bool {
    match data.candidates.selected() {
        None => outcome is NoCandidate,
        Some(selected) => match early_outcome(strategy.config, data, selected.entry) {
            Some(early) => outcome == early,
            None => exists|snapshot: EntryAdmissionSnapshot|
                #![trigger takes_stock(snapshot, strategy.config, data, selected.entry)]
                takes_stock(snapshot, strategy.config, data, selected.entry) && outcome
                    == late_outcome(strategy, data, selected.entry, snapshot),
        },
    }
}

/// The submission that is recorded for the selected candidate.
pub open spec fn recorded_submission(
    strategy: AlpacaOptionsAccountStrategy,
    data: CandidateSubmission,
    pending: PendingEntrySubmission,
    order_count: int,
) -> bool {
    &&& data.candidates.selected() matches Some(selected) && pending.entry == selected.entry
    &&& pending.trade_date@ == data.candidates.trade_date@
    &&& pending.order_list_id@ == data.order_list_id@
    &&& pending.submitted_at_utc@ == data.submitted_at_utc@
    &&& pending.quantity == strategy.config.quantity
    &&& pending.risk_capital_usd == match data.figures.candidate {
        Some(figure) => Some(figure.amount),
        None => None,
    }
    &&& pending.spread.same_spread(data.spread)
    &&& pending.order_count == order_count
    &&& pending.accepted == 0
    &&& pending.rejected == 0
    &&& !pending.recorded
    &&& pending.rejection_reasons@.len() == 0
}

impl AlpacaOptionsAccountStrategy {
    /// Whether the books and sets of the strategy are in order.
    pub open spec fn wf(self) -> bool {
        &&& self.pending_entries.wf()
        &&& self.pending_closes.wf()
        &&& self.submitted_underlying_keys.wf()
        &&& self.recorded_candidate_alert_keys.wf()
        &&& self.quotes.wf()
        &&& self.config.admission.event_shock_block_days_after_earnings > i64::MIN
    }

    /// Whether everything but books, keys and state is as in another strategy.
    pub open spec fn same_setting(self, other: AlpacaOptionsAccountStrategy) -> bool {
        &&& self.config == other.config
        &&& self.recorded_candidate_alert_keys == other.recorded_candidate_alert_keys
        &&& self.quotes == other.quotes
    }

    /// Creates a strategy over an initial state.
    #[must_use]
    pub fn new(config: AlpacaOptionsAccountStrategyConfig, initial_state: StrategyState) -> (strategy: AlpacaOptionsAccountStrategy)
        requires
            config.admission.event_shock_block_days_after_earnings > i64::MIN,
        ensures
            strategy.wf(),
            strategy.config == config,
            strategy.state == initial_state,
            strategy.pending_entries.submissions@.len() == 0,
            strategy.pending_closes.submissions@.len() == 0,
            strategy.submitted_underlying_keys@.len() == 0,
            strategy.recorded_candidate_alert_keys@.len() == 0,
            strategy.quotes.current@.len() == 0,
    {
        AlpacaOptionsAccountStrategy {
            config,
            state: initial_state,
            pending_entries: PendingEntries::new(),
            pending_closes: PendingCloses::new(),
            submitted_underlying_keys: TextSet::new(),
            recorded_candidate_alert_keys: TextSet::new(),
            quotes: QuoteSubscriptions::new(),
        }
    }

    fn early_gate(&self, data: &CandidateSubmission, entry: &SelectedOptionsEntry) -> (outcome: Option<
        CandidateOutcome,
    >)
        ensures
            match outcome {
                Some(found) => early_outcome(self.config, *data, *entry) == Some(found@),
                None => match early_outcome(self.config, *data, *entry) {
                    Some(early) => symbol_failure(*entry) is Some && early
                        == OutcomeView::Failed(symbol_failure(*entry)->0),
                    None => symbol_failure(*entry) is None,
                },
            },
            outcome matches Some(found) ==> !(found is Failed) && !(found is Submit),
    {
        match entry_gate_decision(&self.config.admission, data.now) {
            EntryGateDecision::KillSwitch => {
                return Some(CandidateOutcome::Skipped("kill_switch_enabled"));
            },
            EntryGateDecision::OutsideEntryWindow => {
                return Some(CandidateOutcome::Skipped("outside_entry_window"));
            },
            EntryGateDecision::Continue => {},
        }
        if data.regime_dry_run_only {
            return Some(CandidateOutcome::DryRun("regime_dry_run_only"));
        }
        if !selected_submit_enabled(&self.config.admission, entry) {
            return Some(CandidateOutcome::DryRun("open_orders_disabled"));
        }
        match &self.config.lifecycle_risk {
            Some(handle) => match handle.submission_block(entry, data.now) {
                Some(block) => {
                    return Some(CandidateOutcome::Blocked(block));
                },
                None => {},
            },
            None => {},
        }
        match selected_entry_quote_freshness_block(
            entry,
            &data.quote_times,
            self.config.management.active_risk_quote_stale_secs,
            data.now,
        ) {
            Some(block) => {
                return Some(CandidateOutcome::Blocked(block));
            },
            None => {},
        }
        if self.config.admission.submit_enabled && !data.candidate_ledger_ready {
            return Some(CandidateOutcome::Skipped("candidate_ledger_unhealthy"));
        }
        if self.config.admission.submit_enabled && !data.state_persistence_ready {
            return Some(CandidateOutcome::Skipped("state_persistence_unhealthy"));
        }
        None
    }

    /// Handles candidate data received from scanner actors. An outcome of
    /// [`CandidateOutcome::Submit`] leaves the submission pending; where the orders cannot be sent
    /// after all, [`abandon_submission`](Self::abandon_submission) takes it back.
    pub fn submit_candidate_data(&mut self, data: &CandidateSubmission) -> (outcome: CandidateOutcome)
        requires
            old(self).wf(),
        ensures
            final(self).wf(),
            outcome_of(*old(self), *data, outcome@),
            final(self).same_setting(*old(self)),
            final(self).state == old(self).state,
            final(self).pending_closes == old(self).pending_closes,
            match outcome {
                CandidateOutcome::Submit(orders) => {
                    let entry = data.candidates.selected()->0.entry;
                    let key = underlying_key(data.candidates.trade_date@, entry);
                    &&& orders_built(
                        Ok(orders),
                        entry_legs(entry),
                        data.order_list_id@,
                        old(self).config.quantity,
                        false,
                    )
                    &&& forall|x: Seq<char>|
                        #[trigger] final(self).submitted_underlying_keys.has(x) <==> old(self).submitted_underlying_keys.has(x) || x == key
                    &&& final(self).pending_entries.submissions.at(data.order_list_id@) matches Some(
                        pending,
                    ) && recorded_submission(
                        *old(self),
                        *data,
                        pending,
                        orders@.len() as int,
                    )
                    &&& forall|l: Seq<char>|
                        l != data.order_list_id@ ==> #[trigger] final(self).pending_entries.submissions.at(l) == old(self).pending_entries.submissions.at(l)
                    &&& ids_with(
                        old(self).pending_entries.client_order_ids,
                        final(self).pending_entries.client_order_ids,
                        client_ids(orders@),
                        data.order_list_id@,
                    )
                },
                _ => {
                    &&& final(self).submitted_underlying_keys@ == old(self).submitted_underlying_keys@
                    &&& final(self).pending_entries == old(self).pending_entries
                },
            },
    {
        let plan = match plan_selected_candidate(&data.candidates) {
            Some(plan) => plan,
            None => {
                return CandidateOutcome::NoCandidate;
            },
        };
        let entry = &plan.entry;
        let early = self.early_gate(data, entry);
        match early {
            Some(outcome) => {
                return outcome;
            },
            None => {},
        }
        let snapshot = match entry_admission_snapshot(
            &self.config.admission.account_admission_reasons,
            &data.broker,
            entry,
        ) {
            Ok(snapshot) => snapshot,
            Err(error) => {
                return CandidateOutcome::Failed(error);
            },
        };
        assert(takes_stock(snapshot, self.config, *data, *entry));
        match submission_block_for_selected(
            &self.config.admission,
            &self.state,
            entry,
            data.candidates.trade_date.as_str(),
            &snapshot,
            &data.figures,
        ) {
            Some(block) => {
                return CandidateOutcome::Blocked(block);
            },
            None => {},
        }
        let key = submitted_underlying_key(data.candidates.trade_date.as_str(), entry);
        if self.submitted_underlying_keys.contains(key.as_str()) {
            return CandidateOutcome::Skipped("duplicate_pending_submission");
        }
        let orders = match build_selected_entry_orders(
            entry,
            data.order_list_id.as_str(),
            self.config.quantity,
        ) {
            Ok(orders) => orders,
            Err(error) => {
                return CandidateOutcome::Failed(error);
            },
        };
        let added = self.submitted_underlying_keys.insert(key);
        let ids = order_client_ids(&orders);
        let pending = PendingEntrySubmission {
            entry: plan.entry,
            trade_date: data.candidates.trade_date.clone(),
            order_list_id: data.order_list_id.clone(),
            submitted_at_utc: data.submitted_at_utc.clone(),
            quantity: self.config.quantity,
            risk_capital_usd: match &data.figures.candidate {
                Some(figure) => Some(figure.amount),
                None => None,
            },
            spread: data.spread.copy(),
            order_count: orders.len(),
            accepted: 0,
            rejected: 0,
            recorded: false,
            rejection_reasons: Vec::new(),
        };
        proof {
            assert(entry_legs(data.candidates.selected()->0.entry).len() > 0);
        }
        self.pending_entries.record(pending, &ids);
        CandidateOutcome::Submit(orders)
    }

    /// Prepares the submission of one selected entry, past every gate.
    ///
    /// # Errors
    ///
    /// Returns an error when quantity, price, or Alpaca option symbol inputs are invalid.
    pub fn submit_selected_entry(&self, entry: SelectedOptionsEntry, order_list_id: &str) -> (result: Result<
        PreparedSubmission,
        OrderError,
    >)
        ensures
            is_preparation(result, entry, order_list_id@, self.config.quantity),
    {
        prepare_entry(entry, order_list_id, self.config.quantity)
    }

    /// Prepares the submission of the highest-ranked candidate, if present, past every gate.
    ///
    /// # Errors
    ///
    /// Returns an error when quantity, price, or Alpaca option symbol inputs are invalid.
    pub fn submit_candidates(&self, candidates: OptionsCandidateSet, order_list_id: &str) -> (result: Result<
        Option<PreparedSubmission>,
        OrderError,
    >)
        ensures
            is_best_preparation(result, candidates, order_list_id@, self.config.quantity),
    {
        prepare_best(candidates, order_list_id, self.config.quantity)
    }

    /// Takes back a submission whose orders could not be sent.
    pub fn abandon_submission(&mut self, trade_date: &str, entry: &SelectedOptionsEntry, order_list_id: &str)
        requires
            old(self).wf(),
        ensures
            final(self).wf(),
            final(self).same_setting(*old(self)),
            final(self).state == old(self).state,
            final(self).pending_closes == old(self).pending_closes,
            forall|x: Seq<char>|
                #[trigger] final(self).submitted_underlying_keys.has(x) <==> old(self).submitted_underlying_keys.has(x) && x != underlying_key(trade_date@, *entry),
            final(self).pending_entries.submissions.at(order_list_id@) is None,
            forall|l: Seq<char>|
                l != order_list_id@ ==> #[trigger] final(self).pending_entries.submissions.at(l)
                    == old(self).pending_entries.submissions.at(l),
            ids_without(
                old(self).pending_entries.client_order_ids,
                final(self).pending_entries.client_order_ids,
                order_list_id@,
            ),
    {
        let key = submitted_underlying_key(trade_date, entry);
        let _removed = self.submitted_underlying_keys.remove(key.as_str());
        let _pending = self.pending_entries.remove(order_list_id);
    }

    /// Returns whether an alert is recorded for the first time on a trade date, and remembers it.
    pub fn first_alert(&mut self, trade_date: &str, alert_key: &str) -> (first: bool)
        requires
            old(self).wf(),
        ensures
            final(self).wf(),
            first == !old(self).recorded_candidate_alert_keys.has(trade_date@ + "|"@ + alert_key@),
            forall|x: Seq<char>|
                #[trigger] final(self).recorded_candidate_alert_keys.has(x) <==> old(self).recorded_candidate_alert_keys.has(x) || x == trade_date@ + "|"@ + alert_key@,
            *final(self) == (AlpacaOptionsAccountStrategy {
                recorded_candidate_alert_keys: final(self).recorded_candidate_alert_keys,
                ..*old(self)
            }),
    {
        self.recorded_candidate_alert_keys.insert(
            trade_date.to_owned().concat("|").concat(alert_key),
        )
    }
}

// ---------------------------------------------------------------------------------------------
// Answers to orders
// ---------------------------------------------------------------------------------------------

/// Whether the state gained the entry of a submission on its first acceptance, and nothing else.
pub open spec fn state_after_acceptance(
    before: StrategyState,
    after: StrategyState,
    p: PendingEntrySubmission,
    venue_order_id: String,
    now: String,
) -> bool {
    if p.recorded {
        after.entries@ == before.entries@
    } else {
        exists|draft: StrategyStateEntryDraft|
            #[trigger] p.drafts(draft, Some(venue_order_id)) && after.entries@
                == before.entries@.push(recorded_entry(draft, now))
    }
}

/// The state after the first acceptance of a close: the entry carries the close.
pub open spec fn entries_after_close_acceptance(
    entries: Seq<StrategyStateEntry>,
    p: PendingCloseSubmission,
    venue_order_id: String,
    now: String,
) -> Seq<StrategyStateEntry> {
    let at = entry_position(entries, p.entry_order_list_id@);
    if p.recorded || at >= entries.len() {
        entries
    } else {
        entries.update(
            at,
            entries[at].after_close_submission(
                p.close_order_list_id,
                Some(venue_order_id),
                p.close_reason,
                p.close_order_mode,
                now,
            ),
        )
    }
}

/// An entry that was rejected outright: recorded as canceled, with the reason.
pub open spec fn is_rejected_entry(
    entry: StrategyStateEntry,
    draft: StrategyStateEntryDraft,
    label: Seq<char>,
    now: String,
) -> bool {
    &&& opt_text(entry.close_reason) == Some(label)
    &&& entry == (StrategyStateEntry {
        canceled: true,
        close_reason: entry.close_reason,
        ..recorded_entry(draft, now)
    })
}

/// Whether the state gained the canceled entry of a submission that was rejected outright, and
/// nothing else.
pub open spec fn state_after_rejection(
    before: StrategyState,
    after: StrategyState,
    p: PendingEntrySubmission,
    reason: Seq<char>,
    now: String,
) -> bool {
    if p.ends_on_rejection() {
        &&& after.entries@.len() == before.entries@.len() + 1
        &&& after.entries@.drop_last() == before.entries@
        &&& exists|draft: StrategyStateEntryDraft|
            #[trigger] p.drafts(draft, None) && is_rejected_entry(
                after.entries@.last(),
                draft,
                rejection_label(texts(p.rejection_reasons@).push(reason)),
                now,
            )
    } else {
        after.entries@ == before.entries@
    }
}

/// Evidence of a submission whose orders were all answered, some of them by a rejection.
#[derive(Clone, Debug)]
pub struct SubmitRejectedAlert {
    /// The submission.
    pub submission: PendingEntrySubmission,
    /// Whether the last rejection ended the entry.
    pub terminal_rejection_recorded: bool,
}

/// What a rejection led to.
#[derive(Debug)]
pub struct RejectionOutcome {
    /// Whether the order was pending.
    pub known: bool,
    /// The close submission, when the order was one of a close.
    pub close: Option<PendingCloseSubmission>,
    /// Change of state to persist.
    pub mutation: Option<StrategyStateMutation>,
    /// Evidence to record.
    pub alert: Option<SubmitRejectedAlert>,
}

impl AlpacaOptionsAccountStrategy {
    /// Counts the acceptance of an order and records its entry or close on the first one; returns the
    /// change of state to persist.
    pub fn handle_order_accepted(&mut self, event: &OrderAcceptance, now: String) -> (mutation: Option<
        StrategyStateMutation,
    >)
        requires
            old(self).wf(),
        ensures
            final(self).wf(),
            final(self).same_setting(*old(self)),
            final(self).submitted_underlying_keys == old(self).submitted_underlying_keys,
            match old(self).pending_closes.owner(event.client_order_id@) {
                Some(p) => {
                    let at = entry_position(old(self).state.entries@, p.entry_order_list_id@);
                    &&& final(self).pending_entries == old(self).pending_entries
                    &&& answered_book(old(self).pending_closes, final(self).pending_closes, p, true)
                    &&& final(self).state.entries@ == entries_after_close_acceptance(
                        old(self).state.entries@,
                        p,
                        event.venue_order_id,
                        now,
                    )
                    &&& match mutation {
                        Some(change) => !p.recorded && at < old(self).state.entries@.len()
                            && change@ == close_accepted(
                            *event,
                            final(self).state.entries@[at],
                            p.close_order_list_id@,
                            Some(event.venue_order_id@),
                            p.close_reason@,
                            p.close_order_mode@,
                        ),
                        None => p.recorded || at >= old(self).state.entries@.len(),
                    }
                },
                None => {
                    &&& final(self).pending_closes == old(self).pending_closes
                    &&& match old(self).pending_entries.owner(event.client_order_id@) {
                        Some(p) => {
                            &&& accepted_book(
                                old(self).pending_entries,
                                final(self).pending_entries,
                                p,
                            )
                            &&& state_after_acceptance(
                                old(self).state,
                                final(self).state,
                                p,
                                event.venue_order_id,
                                now,
                            )
                            &&& mutation is Some <==> !p.recorded
                            &&& mutation matches Some(change) ==> exists|draft: StrategyStateEntryDraft|
                                #[trigger] p.drafts(draft, Some(event.venue_order_id)) && change@
                                    == entry_accepted(*event, p.order_list_id@, draft)
                        },
                        None => {
                            &&& final(self).pending_entries == old(self).pending_entries
                            &&& final(self).state == old(self).state
                            &&& mutation is None
                        },
                    }
                },
            },
    {
        let client_order_id = event.client_order_id.as_str();
        match self.pending_closes.answer(client_order_id, true) {
            Some(answer) => {
                let mut mutation: Option<StrategyStateMutation> = None;
                let pending = answer.pending;
                if answer.record {
                    match self.state.find_entry(pending.entry_order_list_id.as_str()) {
                        Some(at) => {
                            self.state.entries[at].record_close_submission(
                                pending.close_order_list_id.clone(),
                                Some(event.venue_order_id.clone()),
                                pending.close_reason.clone(),
                                pending.close_order_mode.clone(),
                                now,
                            );
                            mutation =
                            Some(
                                close_accepted_state_mutation(
                                    event,
                                    &self.state.entries[at],
                                    pending.close_order_list_id.as_str(),
                                    &Some(event.venue_order_id.clone()),
                                    pending.close_reason.as_str(),
                                    pending.close_order_mode.as_str(),
                                ),
                            );
                        },
                        None => {},
                    }
                }
                return mutation;
            },
            None => {},
        }
        match self.pending_entries.accept(client_order_id, &event.venue_order_id) {
            Some(acceptance) => match acceptance.draft {
                Some(draft) => {
                    let mutation = accepted_state_mutation(
                        event,
                        acceptance.order_list_id.as_str(),
                        &draft,
                    );
                    self.state.record_entry_submission(draft, now);
                    Some(mutation)
                },
                None => None,
            },
            None => None,
        }
    }

    /// Counts the rejection of an order. A naked option that is rejected outright is recorded as
    /// canceled.
    pub fn handle_order_rejected(&mut self, event: &OrderRefusal, now: String) -> (outcome: RejectionOutcome)
        requires
            old(self).wf(),
        ensures
            final(self).wf(),
            final(self).same_setting(*old(self)),
            final(self).submitted_underlying_keys == old(self).submitted_underlying_keys,
            match old(self).pending_closes.owner(event.client_order_id@) {
                Some(p) => {
                    &&& final(self).pending_entries == old(self).pending_entries
                    &&& final(self).state == old(self).state
                    &&& answered_book(old(self).pending_closes, final(self).pending_closes, p, false)
                    &&& outcome.known
                    &&& outcome.close == Some(p.answered(false))
                    &&& outcome.mutation is None
                    &&& outcome.alert is None
                },
                None => {
                    &&& final(self).pending_closes == old(self).pending_closes
                    &&& outcome.close is None
                    &&& match old(self).pending_entries.owner(event.client_order_id@) {
                        Some(p) => {
                            &&& outcome.known
                            &&& rejected_book(
                                old(self).pending_entries,
                                final(self).pending_entries,
                                p,
                                event.reason@,
                            )
                            &&& state_after_rejection(
                                old(self).state,
                                final(self).state,
                                p,
                                event.reason@,
                                now,
                            )
                            &&& outcome.mutation is Some <==> p.ends_on_rejection()
                            &&& outcome.mutation matches Some(change) ==> exists|
                                draft: StrategyStateEntryDraft,
                            |
                                #[trigger] p.drafts(draft, None) && change@ == entry_rejected(
                                    *event,
                                    p.order_list_id@,
                                    draft,
                                    rejection_label(
                                        texts(p.rejection_reasons@).push(event.reason@),
                                    ),
                                )
                            &&& match outcome.alert {
                                Some(alert) => p.last_answer() && counted_rejection(
                                    p,
                                    alert.submission,
                                    event.reason@,
                                ) && alert.terminal_rejection_recorded == p.ends_on_rejection(),
                                None => !p.last_answer(),
                            }
                        },
                        None => {
                            &&& !outcome.known
                            &&& final(self).pending_entries == old(self).pending_entries
                            &&& final(self).state == old(self).state
                            &&& outcome.mutation is None
                            &&& outcome.alert is None
                        },
                    }
                },
            },
    {
        let client_order_id = event.client_order_id.as_str();
        match self.pending_closes.answer(client_order_id, false) {
            Some(answer) => {
                return RejectionOutcome {
                    known: true,
                    close: Some(answer.pending),
                    mutation: None,
                    alert: None,
                };
            },
            None => {},
        }
        match self.pending_entries.reject(client_order_id, event.reason.as_str()) {
            Some(rejection) => {
                let ghost p = old(self).pending_entries.owner(client_order_id@)->0;
                let terminal: bool = rejection.terminal.is_some();
                let mutation = match rejection.terminal {
                    Some((draft, label)) => {
                        let mutation = rejected_state_mutation(
                            event,
                            rejection.order_list_id.as_str(),
                            &draft,
                            label,
                        );
                        assert(p.drafts(draft, None));
                        let ghost kept = draft;
                        self.state.record_entry_submission(draft, now);
                        let last: usize = self.state.entries.len() - 1;
                        self.state.entries[last].mark_canceled();
                        self.state.entries[last].close_reason = Some(label.to_owned());
                        proof {
                            assert(self.state.entries@.drop_last() =~= old(self).state.entries@);
                            assert(is_rejected_entry(
                                self.state.entries@.last(),
                                kept,
                                label@,
                                now,
                            ));
                        }
                        Some(mutation)
                    },
                    None => None,
                };
                let alert = match rejection.answered {
                    Some(submission) => Some(
                        SubmitRejectedAlert { submission, terminal_rejection_recorded: terminal },
                    ),
                    None => None,
                };
                RejectionOutcome { known: true, close: None, mutation, alert }
            },
            None => RejectionOutcome { known: false, close: None, mutation: None, alert: None },
        }
    }
}

/// After a naked option was rejected for want of permission, no naked option is admitted any more.
pub proof fn permission_rejection_blocks_naked_options(
    config: EntryAdmissionConfig,
    before: StrategyState,
    after: StrategyState,
    p: PendingEntrySubmission,
    reason: Seq<char>,
    now: String,
    next: SelectedOptionsEntry,
    trade_date: Seq<char>,
    snapshot: EntryAdmissionSnapshot,
    figures: RiskCapitalFigures,
)
    requires
        p.ends_on_rejection(),
        crate::admission::names_uncovered_permission(reason),
        state_after_rejection(before, after, p, reason, now),
        next is NakedOption,
    ensures
        admission_block(config, after, next, trade_date, snapshot, figures) == Some(
            crate::admission::plain_block(
                "broker_uncovered_option_permission"@,
                seq!["alpaca_http_40310000"@],
            ),
        ),
{
    let reasons = texts(p.rejection_reasons@).push(reason);
    assert(reasons[reasons.len() - 1] == reason);
    assert(crate::pending::any_uncovered(reasons));
    let draft = choose|draft: StrategyStateEntryDraft|
        #[trigger] p.drafts(draft, None) && is_rejected_entry(
            after.entries@.last(),
            draft,
            rejection_label(reasons),
            now,
        );
    let at = after.entries@.len() - 1;
    let entry = after.entries@[at];
    assert(entry.strategy@ == p.entry.strategy());
    assert(entry.naked());
    assert(entry.canceled);
    assert(crate::admission::permission_refused(after));
}

// ---------------------------------------------------------------------------------------------
// State changes
// ---------------------------------------------------------------------------------------------

/// Whether the fill of a close is recorded on the entry that has an order-list ID, and the change
/// says so. Nothing happens to an unknown entry or one that is closed already.
pub open spec fn closes_entry(
    before: Seq<StrategyStateEntry>,
    after: Seq<StrategyStateEntry>,
    mutation: Option<StrategyStateMutation>,
    entry_order_list_id: Seq<char>,
    close_order_list_id: Seq<char>,
    close_parent_order_id: Option<String>,
    now: String,
    ts_event: UtcInstant,
) -> bool {
    let at = entry_position(before, entry_order_list_id);
    if at < before.len() && !before[at].closed {
        let entry = before[at].after_close(close_parent_order_id, now);
        &&& after == before.update(at, entry)
        &&& mutation matches Some(change) && change@ == entry_closed(
            entry,
            close_order_list_id,
            opt_text(close_parent_order_id),
            ts_event,
        )
    } else {
        after == before && mutation is None
    }
}

/// Whether a cancellation is recorded on the entry that has an order-list ID, and the change says so
/// with its reason. Nothing happens to an unknown entry or one that is canceled already.
pub open spec fn cancels_entry(
    before: Seq<StrategyStateEntry>,
    after: Seq<StrategyStateEntry>,
    mutation: Option<StrategyStateMutation>,
    entry_order_list_id: Seq<char>,
    reason: Seq<char>,
    ts_event: UtcInstant,
) -> bool {
    let at = entry_position(before, entry_order_list_id);
    if at < before.len() && !before[at].canceled {
        let entry = before[at].after_cancel();
        &&& after == before.update(at, entry)
        &&& mutation matches Some(change) && change@ == entry_canceled(entry, reason, ts_event)
    } else {
        after == before && mutation is None
    }
}

/// Whether the close of the entry that has an order-list ID is forgotten, and the change says so with
/// its reason. Nothing happens to an unknown entry.
pub open spec fn clears_close(
    before: Seq<StrategyStateEntry>,
    after: Seq<StrategyStateEntry>,
    mutation: Option<StrategyStateMutation>,
    entry_order_list_id: Seq<char>,
    reason: Seq<char>,
    ts_event: UtcInstant,
) -> bool {
    let at = entry_position(before, entry_order_list_id);
    if at < before.len() {
        let entry = before[at].after_clear();
        &&& after == before.update(at, entry)
        &&& mutation matches Some(change) && change@ == close_cleared(
            entry,
            opt_text(before[at].close_order_list_id),
            reason,
            ts_event,
        )
    } else {
        after == before && mutation is None
    }
}

impl AlpacaOptionsAccountStrategy {
    /// Records that the close of an entry was filled; returns the change of state to persist. Nothing
    /// happens to an unknown entry or one that is closed already.
    pub fn mark_entry_closed(
        &mut self,
        entry_order_list_id: &str,
        close_order_list_id: &str,
        close_parent_order_id: Option<String>,
        now: String,
        ts_event: UtcInstant,
    ) -> (mutation: Option<StrategyStateMutation>)
        ensures
            closes_entry(
                old(self).state.entries@,
                final(self).state.entries@,
                mutation,
                entry_order_list_id@,
                close_order_list_id@,
                close_parent_order_id,
                now,
                ts_event,
            ),
            *final(self) == (AlpacaOptionsAccountStrategy {
                state: final(self).state,
                ..*old(self)
            }),
    {
        match self.state.find_entry(entry_order_list_id) {
            Some(at) => {
                if self.state.entries[at].closed {
                    return None;
                }
                let parent = copy_opt(&close_parent_order_id);
                self.state.entries[at].mark_closed(close_parent_order_id, now);
                Some(
                    entry_closed_state_mutation(
                        &self.state.entries[at],
                        close_order_list_id,
                        parent,
                        ts_event,
                    ),
                )
            },
            None => None,
        }
    }

    /// Records that the opening orders of an entry ended without a fill; returns the change of state
    /// to persist. Nothing happens to an unknown entry or one that is canceled already.
    pub fn mark_entry_canceled(
        &mut self,
        entry_order_list_id: &str,
        reason: &str,
        ts_event: UtcInstant,
    ) -> (mutation: Option<StrategyStateMutation>)
        ensures
            cancels_entry(
                old(self).state.entries@,
                final(self).state.entries@,
                mutation,
                entry_order_list_id@,
                reason@,
                ts_event,
            ),
            *final(self) == (AlpacaOptionsAccountStrategy {
                state: final(self).state,
                ..*old(self)
            }),
    {
        match self.state.find_entry(entry_order_list_id) {
            Some(at) => {
                if self.state.entries[at].canceled {
                    return None;
                }
                self.state.entries[at].mark_canceled();
                Some(entry_canceled_state_mutation(&self.state.entries[at], reason, ts_event))
            },
            None => None,
        }
    }

    /// Forgets the close of an entry; returns the change of state to persist. Nothing happens to an
    /// unknown entry.
    pub fn clear_close_submission(
        &mut self,
        entry_order_list_id: &str,
        reason: &str,
        ts_event: UtcInstant,
    ) -> (mutation: Option<StrategyStateMutation>)
        ensures
            clears_close(
                old(self).state.entries@,
                final(self).state.entries@,
                mutation,
                entry_order_list_id@,
                reason@,
                ts_event,
            ),
            *final(self) == (AlpacaOptionsAccountStrategy {
                state: final(self).state,
                ..*old(self)
            }),
    {
        match self.state.find_entry(entry_order_list_id) {
            Some(at) => {
                let close_order_list_id = copy_opt(&self.state.entries[at].close_order_list_id);
                self.state.entries[at].clear_close_submission();
                Some(
                    close_cleared_state_mutation(
                        &self.state.entries[at],
                        &close_order_list_id,
                        reason,
                        ts_event,
                    ),
                )
            },
            None => None,
        }
    }

    /// Records what management found of the orders of an entry; returns the change of state to
    /// persist. Decisions that send or cancel orders, or wait, leave the state as it is.
    pub fn settle_active_entry(
        &mut self,
        entry_order_list_id: &str,
        close_order_list_id: &str,
        decision: ActiveEntryDecision,
        now: String,
        ts_event: UtcInstant,
    ) -> (mutation: Option<StrategyStateMutation>)
        ensures
            match decision {
                ActiveEntryDecision::MarkClosed => closes_entry(
                    old(self).state.entries@,
                    final(self).state.entries@,
                    mutation,
                    entry_order_list_id@,
                    close_order_list_id@,
                    None,
                    now,
                    ts_event,
                ),
                ActiveEntryDecision::MarkCanceled => cancels_entry(
                    old(self).state.entries@,
                    final(self).state.entries@,
                    mutation,
                    entry_order_list_id@,
                    "entry_terminal_without_fill"@,
                    ts_event,
                ),
                ActiveEntryDecision::ClearClose => clears_close(
                    old(self).state.entries@,
                    final(self).state.entries@,
                    mutation,
                    entry_order_list_id@,
                    "close_terminal_without_fill"@,
                    ts_event,
                ),
                _ => *final(self) == *old(self) && mutation is None,
            },
            *final(self) == (AlpacaOptionsAccountStrategy {
                state: final(self).state,
                ..*old(self)
            }),
    {
        match decision {
            ActiveEntryDecision::MarkClosed => self.mark_entry_closed(
                entry_order_list_id,
                close_order_list_id,
                None,
                now,
                ts_event,
            ),
            ActiveEntryDecision::MarkCanceled => self.mark_entry_canceled(
                entry_order_list_id,
                "entry_terminal_without_fill",
                ts_event,
            ),
            ActiveEntryDecision::ClearClose => self.clear_close_submission(
                entry_order_list_id,
                "close_terminal_without_fill",
                ts_event,
            ),
            _ => None,
        }
    }

    /// Whether an order list is the close of a recorded entry.
    pub open spec fn is_close_list(self, order_list_id: Seq<char>) -> bool {
        close_position(self.state.entries@, order_list_id) < self.state.entries@.len()
    }

    /// The order list that a client order ID stands in: a pending close, else the cached list.
    pub open spec fn close_list_of(self, client_order_id: Seq<char>, cached: Option<Seq<char>>) -> Option<
        Seq<char>,
    > {
        let list = match self.pending_closes.client_order_ids.at(client_order_id) {
            Some(found) => Some(found@),
            None => cached,
        };
        match list {
            Some(id) => if self.is_close_list(id) {
                Some(id)
            } else {
                None
            },
            None => None,
        }
    }

    /// Returns the close that an order belongs to. `cached` is the order-list ID in the runtime cache.
    pub fn close_order_list_id_for_client(
        &self,
        client_order_id: &str,
        cached: &Option<String>,
    ) -> (list: Option<String>)
        ensures
            opt_text(list) == self.close_list_of(client_order_id@, opt_text(*cached)),
    {
        let list: Option<String> = match self.pending_closes.client_order_ids.get(
            client_order_id,
        ) {
            Some(found) => Some(found.clone()),
            None => copy_opt(cached),
        };
        match list {
            Some(id) => {
                if self.state.find_close(id.as_str()).is_some() {
                    Some(id)
                } else {
                    None
                }
            },
            None => None,
        }
    }

    /// Returns the order-list ID of the entry that a close belongs to.
    pub fn entry_order_list_id_for_close(&self, close_order_list_id: &str) -> (list: Option<String>)
        ensures
            opt_text(list) == if self.is_close_list(close_order_list_id@) {
                Some(
                    self.state.entries@[close_position(
                        self.state.entries@,
                        close_order_list_id@,
                    )].order_list_id@,
                )
            } else {
                None
            },
    {
        match self.state.find_close(close_order_list_id) {
            Some(at) => Some(self.state.entries[at].order_list_id.clone()),
            None => None,
        }
    }

    /// Follows the fill of an order: once every order of a close is filled, its entry is closed.
    /// `status` is that of the close's order list. Returns the change of state to persist, and whether
    /// the order was one of a close.
    pub fn handle_close_order_filled(
        &mut self,
        client_order_id: &str,
        cached: &Option<String>,
        status: OrderListRuntimeStatus,
        venue_order_id: String,
        now: String,
        ts_event: UtcInstant,
    ) -> (outcome: (bool, Option<StrategyStateMutation>))
        ensures
            ({
                let list = old(self).close_list_of(client_order_id@, opt_text(*cached));
                let entries = old(self).state.entries@;
                &&& outcome.0 == (list is Some)
                &&& if list is Some && status is Filled {
                    let entry_id = entries[close_position(entries, list->0)].order_list_id@;
                    let at = entry_position(entries, entry_id);
                    if !entries[at].closed {
                        &&& final(self).state.entries@ == entries.update(
                            at,
                            entries[at].after_close(Some(venue_order_id), now),
                        )
                        &&& outcome.1 matches Some(change) && change@ == entry_closed(
                            final(self).state.entries@[at],
                            list->0,
                            Some(venue_order_id@),
                            ts_event,
                        )
                    } else {
                        final(self).state.entries@ == entries && outcome.1 is None
                    }
                } else {
                    final(self).state.entries@ == entries && outcome.1 is None
                }
            }),
            *final(self) == (AlpacaOptionsAccountStrategy {
                state: final(self).state,
                ..*old(self)
            }),
    {
        let close_id = match self.close_order_list_id_for_client(client_order_id, cached) {
            Some(id) => id,
            None => {
                return (false, None);
            },
        };
        let entry_id = match self.entry_order_list_id_for_close(close_id.as_str()) {
            Some(id) => id,
            None => {
                return (false, None);
            },
        };
        if status == OrderListRuntimeStatus::Filled {
            proof {
                close_position_bounds(self.state.entries@, close_id@);
                first_entry_exists(
                    self.state.entries@,
                    close_position(self.state.entries@, close_id@),
                );
            }
            let mutation = self.mark_entry_closed(
                entry_id.as_str(),
                close_id.as_str(),
                Some(venue_order_id),
                now,
                ts_event,
            );
            (true, mutation)
        } else {
            (true, None)
        }
    }

    /// Follows the cancellation of an order: once every order of a close has ended without a fill, the
    /// close is forgotten. `status` is that of the close's order list. Returns the change of state to
    /// persist, and whether the order was one of a close.
    pub fn handle_close_order_canceled(
        &mut self,
        client_order_id: &str,
        cached: &Option<String>,
        status: OrderListRuntimeStatus,
        ts_event: UtcInstant,
    ) -> (outcome: (bool, Option<StrategyStateMutation>))
        ensures
            ({
                let list = old(self).close_list_of(client_order_id@, opt_text(*cached));
                let entries = old(self).state.entries@;
                &&& outcome.0 == (list is Some)
                &&& if list is Some && status is TerminalWithoutFill {
                    let entry_id = entries[close_position(entries, list->0)].order_list_id@;
                    let at = entry_position(entries, entry_id);
                    &&& final(self).state.entries@ == entries.update(at, entries[at].after_clear())
                    &&& outcome.1 matches Some(change) && change@ == close_cleared(
                        entries[at].after_clear(),
                        opt_text(entries[at].close_order_list_id),
                        "close_canceled"@,
                        ts_event,
                    )
                } else {
                    final(self).state.entries@ == entries && outcome.1 is None
                }
            }),
            *final(self) == (AlpacaOptionsAccountStrategy {
                state: final(self).state,
                ..*old(self)
            }),
    {
        let close_id = match self.close_order_list_id_for_client(client_order_id, cached) {
            Some(id) => id,
            None => {
                return (false, None);
            },
        };
        let entry_id = match self.entry_order_list_id_for_close(close_id.as_str()) {
            Some(id) => id,
            None => {
                return (false, None);
            },
        };
        if status == OrderListRuntimeStatus::TerminalWithoutFill {
            proof {
                close_position_bounds(self.state.entries@, close_id@);
                first_entry_exists(
                    self.state.entries@,
                    close_position(self.state.entries@, close_id@),
                );
            }
            let mutation = self.clear_close_submission(
                entry_id.as_str(),
                "close_canceled",
                ts_event,
            );
            (true, mutation)
        } else {
            (true, None)
        }
    }

    /// Follows the cancellation of an opening order: once every order of the list has ended without a
    /// fill, the entry is canceled. `cached` is the order-list ID in the runtime cache and `status`
    /// that of the list. Returns the change of state to persist, and whether a list was found.
    pub fn handle_entry_order_canceled(
        &mut self,
        client_order_id: &str,
        cached: &Option<String>,
        status: OrderListRuntimeStatus,
        ts_event: UtcInstant,
    ) -> (outcome: (bool, Option<StrategyStateMutation>))
        ensures
            ({
                let list = match old(self).pending_entries.client_order_ids.at(client_order_id@) {
                    Some(found) => Some(found@),
                    None => opt_text(*cached),
                };
                let entries = old(self).state.entries@;
                &&& outcome.0 == (list is Some)
                &&& if list is Some && status is TerminalWithoutFill && entry_position(
                    entries,
                    list->0,
                ) < entries.len() && !entries[entry_position(entries, list->0)].canceled {
                    let at = entry_position(entries, list->0);
                    &&& final(self).state.entries@ == entries.update(at, entries[at].after_cancel())
                    &&& outcome.1 matches Some(change) && change@ == entry_canceled(
                        entries[at].after_cancel(),
                        "entry_canceled"@,
                        ts_event,
                    )
                } else {
                    final(self).state.entries@ == entries && outcome.1 is None
                }
            }),
            *final(self) == (AlpacaOptionsAccountStrategy {
                state: final(self).state,
                ..*old(self)
            }),
    {
        let list: Option<String> = match self.pending_entries.client_order_ids.get(
            client_order_id,
        ) {
            Some(found) => Some(found.clone()),
            None => copy_opt(cached),
        };
        match list {
            Some(id) => {
                if status == OrderListRuntimeStatus::TerminalWithoutFill {
                    let mutation = self.mark_entry_canceled(id.as_str(), "entry_canceled", ts_event);
                    (true, mutation)
                } else {
                    (true, None)
                }
            },
            None => (false, None),
        }
    }
}

/// A change of an entry that keeps its order-list ID moves no entry.
proof fn positions_stay(
    entries: Seq<StrategyStateEntry>,
    at: int,
    entry: StrategyStateEntry,
    order_list_id: Seq<char>,
)
    requires
        0 <= at < entries.len(),
        entry.order_list_id == entries[at].order_list_id,
    ensures
        entry_position(entries.update(at, entry), order_list_id) == entry_position(
            entries,
            order_list_id,
        ),
    decreases entries.len(),
{
    let changed = entries.update(at, entry);
    if entries[0].order_list_id@ != order_list_id {
        if at == 0 {
            assert(changed.drop_first() =~= entries.drop_first());
        } else {
            assert(changed.drop_first() =~= entries.drop_first().update(at - 1, entry));
            positions_stay(entries.drop_first(), at - 1, entry, order_list_id);
        }
    }
}

/// No position is below zero.
proof fn positions_start_at_zero(entries: Seq<StrategyStateEntry>, order_list_id: Seq<char>)
    ensures
        0 <= entry_position(entries, order_list_id),
    decreases entries.len(),
{
    if entries.len() > 0 && entries[0].order_list_id@ != order_list_id {
        positions_start_at_zero(entries.drop_first(), order_list_id);
    }
}

/// An entry is closed once: a second fill of its close changes nothing and persists nothing.
pub proof fn entries_close_once(
    before: Seq<StrategyStateEntry>,
    between: Seq<StrategyStateEntry>,
    after: Seq<StrategyStateEntry>,
    first: Option<StrategyStateMutation>,
    second: Option<StrategyStateMutation>,
    entry_order_list_id: Seq<char>,
    close_order_list_ids: (Seq<char>, Seq<char>),
    close_parent_order_ids: (Option<String>, Option<String>),
    times: (String, String),
    ts_events: (UtcInstant, UtcInstant),
)
    requires
        closes_entry(
            before,
            between,
            first,
            entry_order_list_id,
            close_order_list_ids.0,
            close_parent_order_ids.0,
            times.0,
            ts_events.0,
        ),
        closes_entry(
            between,
            after,
            second,
            entry_order_list_id,
            close_order_list_ids.1,
            close_parent_order_ids.1,
            times.1,
            ts_events.1,
        ),
    ensures
        after == between,
        second is None,
{
    let at = entry_position(before, entry_order_list_id);
    positions_start_at_zero(before, entry_order_list_id);
    if at < before.len() && !before[at].closed {
        let entry = before[at].after_close(close_parent_order_ids.0, times.0);
        positions_stay(before, at, entry, entry_order_list_id);
    }
}

/// An entry is canceled once: a second cancellation changes nothing and persists nothing.
pub proof fn entries_cancel_once(
    before: Seq<StrategyStateEntry>,
    between: Seq<StrategyStateEntry>,
    after: Seq<StrategyStateEntry>,
    first: Option<StrategyStateMutation>,
    second: Option<StrategyStateMutation>,
    entry_order_list_id: Seq<char>,
    reasons: (Seq<char>, Seq<char>),
    ts_events: (UtcInstant, UtcInstant),
)
    requires
        cancels_entry(before, between, first, entry_order_list_id, reasons.0, ts_events.0),
        cancels_entry(between, after, second, entry_order_list_id, reasons.1, ts_events.1),
    ensures
        after == between,
        second is None,
{
    let at = entry_position(before, entry_order_list_id);
    positions_start_at_zero(before, entry_order_list_id);
    if at < before.len() && !before[at].canceled {
        positions_stay(before, at, before[at].after_cancel(), entry_order_list_id);
    }
}

/// A change that is persisted tells of its entry as it stands in the state after the change: the last
/// field of its payload is the recorded entry.
pub proof fn changes_tell_of_the_entry_as_it_stands(
    before: Seq<StrategyStateEntry>,
    after: Seq<StrategyStateEntry>,
    change: StrategyStateMutation,
    entry_order_list_id: Seq<char>,
    close_order_list_id: Seq<char>,
    close_parent_order_id: Option<String>,
    reason: Seq<char>,
    now: String,
    ts_event: UtcInstant,
)
    requires
        closes_entry(
            before,
            after,
            Some(change),
            entry_order_list_id,
            close_order_list_id,
            close_parent_order_id,
            now,
            ts_event,
        ) || cancels_entry(before, after, Some(change), entry_order_list_id, reason, ts_event)
            || clears_close(before, after, Some(change), entry_order_list_id, reason, ts_event),
    ensures
        ({
            let at = entry_position(after, entry_order_list_id);
            &&& 0 <= at < after.len()
            &&& change@.payload is Object
            &&& change@.payload->Object_0.last() == ("entry"@, entry_tree(after[at]))
        }),
{
    let at = entry_position(before, entry_order_list_id);
    positions_start_at_zero(before, entry_order_list_id);
    positions_stay(before, at, after[at], entry_order_list_id);
}

/// The first entry with the order-list ID of some entry stands within the entries.
proof fn first_entry_exists(entries: Seq<StrategyStateEntry>, at: int)
    requires
        0 <= at < entries.len(),
    ensures
        0 <= entry_position(entries, entries[at].order_list_id@) <= at,
    decreases entries.len(),
{
    if entries[0].order_list_id@ != entries[at].order_list_id@ {
        first_entry_exists(entries.drop_first(), at - 1);
    }
}

// ---------------------------------------------------------------------------------------------
// Closes
// ---------------------------------------------------------------------------------------------

/// Whether a pending close is the one that is submitted for an entry.
pub open spec fn is_new_close(
    pending: PendingCloseSubmission,
    entry: StrategyStateEntry,
    close_reason: Seq<char>,
    close_order_list_id: Seq<char>,
    mode: CloseOrderMode,
    order_count: int,
) -> bool {
    &&& pending.entry_order_list_id@ == entry.order_list_id@
    &&& pending.close_order_list_id@ == close_order_list_id
    &&& pending.close_reason@ == close_reason
    &&& pending.close_order_mode@ == mode.label()
    &&& pending.order_count == order_count
    &&& pending.accepted == 0
    &&& pending.rejected == 0
    &&& !pending.recorded
}

impl AlpacaOptionsAccountStrategy {
    fn record_pending_close(
        &mut self,
        entry: &StrategyStateEntry,
        close_reason: &str,
        close_order_list_id: &str,
        mode: CloseOrderMode,
        orders: &Vec<PlannedOrder>,
    )
        requires
            old(self).wf(),
            orders@.len() > 0,
        ensures
            final(self).wf(),
            *final(self) == (AlpacaOptionsAccountStrategy {
                pending_closes: final(self).pending_closes,
                ..*old(self)
            }),
            final(self).pending_closes.submissions.at(close_order_list_id@) matches Some(pending)
                && is_new_close(
                pending,
                *entry,
                close_reason@,
                close_order_list_id@,
                mode,
                orders@.len() as int,
            ),
            forall|l: Seq<char>|
                l != close_order_list_id@ ==> #[trigger] final(self).pending_closes.submissions.at(l)
                    == old(self).pending_closes.submissions.at(l),
            ids_with(
                old(self).pending_closes.client_order_ids,
                final(self).pending_closes.client_order_ids,
                client_ids(orders@),
                close_order_list_id@,
            ),
    {
        let ids = order_client_ids(orders);
        let pending = PendingCloseSubmission {
            entry_order_list_id: entry.order_list_id.clone(),
            close_order_list_id: close_order_list_id.to_owned(),
            close_reason: close_reason.to_owned(),
            close_order_mode: mode.as_str().to_owned(),
            order_count: orders.len(),
            accepted: 0,
            rejected: 0,
            recorded: false,
        };
        self.pending_closes.record(pending, &ids);
    }

    /// Prepares the close of an entry leg by leg: the orders are to be submitted and the close is
    /// pending. Where they cannot be sent after all, [`abandon_close`](Self::abandon_close) takes the
    /// close back.
    ///
    /// # Errors
    ///
    /// Returns an error when quantity, price, or Alpaca option symbol inputs are invalid.
    pub fn submit_close_entry(
        &mut self,
        entry: &StrategyStateEntry,
        quote: &CloseQuote,
        close_reason: &str,
        close_order_list_id: &str,
    ) -> (result: Result<Vec<PlannedOrder>, OrderError>)
        requires
            old(self).wf(),
        ensures
            final(self).wf(),
            orders_built(
                result,
                close_legs(*entry, *quote),
                close_order_list_id@,
                entry.quantity,
                true,
            ),
            *final(self) == (AlpacaOptionsAccountStrategy {
                pending_closes: final(self).pending_closes,
                ..*old(self)
            }),
            match result {
                Ok(orders) => {
                    &&& final(self).pending_closes.submissions.at(close_order_list_id@) matches Some(
                        pending,
                    ) && is_new_close(
                        pending,
                        *entry,
                        close_reason@,
                        close_order_list_id@,
                        CloseOrderMode::LegacyLegOrderList,
                        orders@.len() as int,
                    )
                    &&& forall|l: Seq<char>|
                        l != close_order_list_id@ ==> #[trigger] final(self).pending_closes.submissions.at(l) == old(self).pending_closes.submissions.at(l)
                    &&& ids_with(
                        old(self).pending_closes.client_order_ids,
                        final(self).pending_closes.client_order_ids,
                        client_ids(orders@),
                        close_order_list_id@,
                    )
                },
                Err(_) => *final(self) == *old(self),
            },
    {
        let orders = match build_close_entry_orders(entry, quote, close_order_list_id) {
            Ok(orders) => orders,
            Err(error) => {
                return Err(error);
            },
        };
        self.record_pending_close(
            entry,
            close_reason,
            close_order_list_id,
            CloseOrderMode::LegacyLegOrderList,
            &orders,
        );
        Ok(orders)
    }

    /// Takes back a close whose orders could not be sent.
    pub fn abandon_close(&mut self, close_order_list_id: &str)
        requires
            old(self).wf(),
        ensures
            final(self).wf(),
            *final(self) == (AlpacaOptionsAccountStrategy {
                pending_closes: final(self).pending_closes,
                ..*old(self)
            }),
            final(self).pending_closes.submissions.at(close_order_list_id@) is None,
            forall|l: Seq<char>|
                l != close_order_list_id@ ==> #[trigger] final(self).pending_closes.submissions.at(l)
                    == old(self).pending_closes.submissions.at(l),
            ids_without(
                old(self).pending_closes.client_order_ids,
                final(self).pending_closes.client_order_ids,
                close_order_list_id@,
            ),
    {
        let _pending = self.pending_closes.remove(close_order_list_id);
    }
}

/// What became of a close as a spread order.
#[derive(Clone, Debug)]
pub enum SpreadCloseOutcome {
    /// The entry is no two-leg spread.
    NotVertical,
    /// The spread has no price, for a reason.
    Unavailable(&'static str),
    /// The order cannot be built.
    Failed(OrderError),
    /// The order is to be submitted.
    Submit(PlannedOrder),
}

impl AlpacaOptionsAccountStrategy {
    /// Prepares the close of an entry as one spread order. `plan` is the spread of the entry, if it has
    /// one, `unavailable_reason` says why it has no price, and `limit` is its bid less the close
    /// cushion. Where the order cannot be sent after all, [`abandon_close`](Self::abandon_close) takes
    /// the close back.
    pub fn submit_spread_close_entry(
        &mut self,
        entry: &StrategyStateEntry,
        plan: &Option<crate::orders::OptionSpreadPlan>,
        unavailable_reason: Option<&'static str>,
        limit: Amount,
        close_reason: &str,
        close_order_list_id: &str,
    ) -> (outcome: SpreadCloseOutcome)
        requires
            old(self).wf(),
        ensures
            final(self).wf(),
            *final(self) == (AlpacaOptionsAccountStrategy {
                pending_closes: final(self).pending_closes,
                ..*old(self)
            }),
            outcome is NotVertical <==> (plan is None || plan->0.legs@.len() != 2),
            outcome matches SpreadCloseOutcome::Unavailable(reason) ==> unavailable_reason == Some(
                reason,
            ),
            outcome is Unavailable <==> !(outcome is NotVertical) && unavailable_reason is Some,
            match outcome {
                SpreadCloseOutcome::Submit(order) => {
                    &&& crate::orders::spread_order_built(
                        Ok(order),
                        plan->0,
                        close_order_list_id@,
                        entry.quantity,
                        limit,
                        true,
                    )
                    &&& final(self).pending_closes.submissions.at(close_order_list_id@) matches Some(
                        pending,
                    ) && is_new_close(
                        pending,
                        *entry,
                        close_reason@,
                        close_order_list_id@,
                        CloseOrderMode::OptionSpread,
                        1,
                    )
                    &&& forall|l: Seq<char>|
                        l != close_order_list_id@ ==> #[trigger] final(self).pending_closes.submissions.at(l) == old(self).pending_closes.submissions.at(l)
                    &&& ids_with(
                        old(self).pending_closes.client_order_ids,
                        final(self).pending_closes.client_order_ids,
                        seq![order.client_order_id@],
                        close_order_list_id@,
                    )
                },
                SpreadCloseOutcome::Failed(error) => {
                    &&& crate::orders::spread_order_built(
                        Err(error),
                        plan->0,
                        close_order_list_id@,
                        entry.quantity,
                        limit,
                        true,
                    )
                    &&& *final(self) == *old(self)
                },
                _ => *final(self) == *old(self),
            },
    {
        let plan = match plan {
            Some(plan) => plan,
            None => {
                return SpreadCloseOutcome::NotVertical;
            },
        };
        if !crate::orders::is_vertical_spread_plan(plan) {
            return SpreadCloseOutcome::NotVertical;
        }
        match unavailable_reason {
            Some(reason) => {
                return SpreadCloseOutcome::Unavailable(reason);
            },
            None => {},
        }
        let order = match crate::orders::build_vertical_spread_close_order(
            plan,
            close_order_list_id,
            entry.quantity,
            limit,
        ) {
            Ok(order) => order,
            Err(error) => {
                return SpreadCloseOutcome::Failed(error);
            },
        };
        let mut orders: Vec<PlannedOrder> = vec![order];
        assert(client_ids(orders@) =~= seq![order.client_order_id@]);
        self.record_pending_close(
            entry,
            close_reason,
            close_order_list_id,
            CloseOrderMode::OptionSpread,
            &orders,
        );
        let order = orders.remove(0);
        SpreadCloseOutcome::Submit(order)
    }
}

/// A submission happens only past the kill switch, inside the entry window or where it is ignored,
/// for a strategy that may submit, and under a key that was not submitted before.
pub proof fn submissions_pass_the_account_gates(
    strategy: AlpacaOptionsAccountStrategy,
    data: CandidateSubmission,
)
    requires
        outcome_of(strategy, data, OutcomeView::Submit),
    ensures
        data.candidates.selected() is Some,
        !strategy.config.admission.kill_switch,
        strategy.config.admission.ignore_entry_window
            || strategy.config.admission.entry_window.open_at(data.now),
        !data.regime_dry_run_only,
        may_submit(
            strategy.config.admission,
            data.candidates.selected()->0.entry.strategy(),
        ),
        data.candidate_ledger_ready,
        data.state_persistence_ready,
        !strategy.submitted_underlying_keys.has(
            underlying_key(
                data.candidates.trade_date@,
                data.candidates.selected()->0.entry,
            ),
        ),
{
}

/// While a submission is pending, the same strategy is not submitted again on its underlying and
/// trade date.
pub proof fn pending_key_stops_repetition(
    strategy: AlpacaOptionsAccountStrategy,
    data: CandidateSubmission,
    outcome: OutcomeView,
)
    requires
        outcome_of(strategy, data, outcome),
        data.candidates.selected() is Some,
        strategy.submitted_underlying_keys.has(
            underlying_key(
                data.candidates.trade_date@,
                data.candidates.selected()->0.entry,
            ),
        ),
    ensures
        !(outcome is Submit),
{
}

} // verus!
