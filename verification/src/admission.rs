//! Entry-admission gates shared by the options runtimes.
use vstd::prelude::*;

use crate::amount::Figure;
use crate::calendar::date_chars;
use crate::calendar::date_in;
use crate::calendar::date_in_zone;
use crate::calendar::date_text;
use crate::calendar::day_of;
use crate::calendar::local_date;
use crate::calendar::parse_date;
use crate::calendar::CalendarDate;
use crate::calendar::MarketWindow;
use crate::calendar::TimeOfDay;
use crate::calendar::UtcInstant;
use crate::entry::SelectedOptionsEntry;
use crate::state::active_entries;
use crate::state::active_in_sector;
use crate::state::active_on;
use crate::state::active_sector_count;
use crate::state::active_underlying_count;
use crate::state::counted_on;
use crate::state::sector_for;
use crate::state::sector_of;
use crate::state::StrategyState;
use crate::state::StrategyStateEntry;
use crate::text::begins_with;
use crate::text::contains_part;
use crate::text::copy_texts;
use crate::text::count_text;
use crate::text::decimal;
use crate::text::holds_part;
use crate::text::lower;
use crate::text::opt_text;
use crate::text::same_text;
use crate::text::signed_decimal;
use crate::text::signed_text;
use crate::text::starts_with;
use crate::text::texts;
use crate::text::to_lower;
use crate::text::to_upper;
use crate::text::upper;
use crate::text_map::count_at;
use crate::text_map::TextMap;
use crate::text_set::filter_step;
use crate::text_set::TextSet;

verus! {

/// Terminal close reason recorded when Alpaca rejects uncovered naked-option permissions.
pub const UNCOVERED_OPTION_PERMISSION_REJECTION_REASON: &'static str =
    "entry_rejected_uncovered_option_permission";

/// Action mode for a selected entry candidate.
#[derive(Clone, Copy, Debug, PartialEq, Eq, Structural)]
pub enum EntryMode {
    /// Submit the entry to the broker.
    Submit,
    /// Record the candidate without broker submission.
    DryRun,
}

impl EntryMode {
    /// Returns the stable operator action label.
    #[must_use]
    pub fn action(self) -> (label: &'static str)
        ensures
            label@ == if self is Submit {
                "submit"@
            } else {
                "dry_run"@
            },
    {
        match self {
            EntryMode::Submit => "submit",
            EntryMode::DryRun => "dry_run",
        }
    }

    /// Returns whether this mode allows broker submission.
    #[must_use]
    pub fn is_submit(self) -> (submit: bool)
        ensures
            submit == (self is Submit),
    {
        matches!(self, EntryMode::Submit)
    }
}

/// Account-level entry gate decision.
#[derive(Clone, Copy, Debug, PartialEq, Eq, Structural)]
pub enum EntryGateDecision {
    /// New entries may continue through candidate admission.
    Continue,
    /// New entries are blocked by the kill switch.
    KillSwitch,
    /// New entries are blocked outside the entry window.
    OutsideEntryWindow,
}

/// Candidate submit block with stable operator diagnostics.
#[derive(Clone, Debug, PartialEq, Eq)]
pub struct SubmissionBlock {
    /// Stable block reason.
    pub reason: String,
    /// Current observed count, if the block is count based.
    pub current: Option<usize>,
    /// Configured limit, if the block is count based.
    pub limit: Option<usize>,
    /// Additional diagnostic details.
    pub details: Vec<String>,
}

/// What a submission block says.
pub struct BlockView {
    /// Block reason.
    pub reason: Seq<char>,
    /// Current observed count.
    pub current: Option<usize>,
    /// Configured limit.
    pub limit: Option<usize>,
    /// Diagnostic details.
    pub details: Seq<Seq<char>>,
}

impl View for SubmissionBlock {
    type V = BlockView;

    open spec fn view(&self) -> BlockView {
        BlockView {
            reason: self.reason@,
            current: self.current,
            limit: self.limit,
            details: texts(self.details@),
        }
    }
}

/// What an optional submission block says.
pub open spec fn opt_block(block: Option<SubmissionBlock>) -> Option<BlockView> {
    match block {
        Some(found) => Some(found@),
        None => None,
    }
}

/// The first of two blocks that applies.
pub open spec fn first_block(a: Option<BlockView>, b: Option<BlockView>) -> Option<BlockView> {
    if a is Some {
        a
    } else {
        b
    }
}

/// A block without counts.
pub open spec fn plain_block(reason: Seq<char>, details: Seq<Seq<char>>) -> BlockView {
    BlockView { reason, current: None, limit: None, details }
}

/// A block on a count.
pub open spec fn count_block(reason: Seq<char>, current: int, limit: usize, details: Seq<Seq<char>>) -> BlockView {
    BlockView { reason, current: Some(current as usize), limit: Some(limit), details }
}

fn block(reason: &str, details: Vec<String>) -> (made: SubmissionBlock)
    ensures
        made@ == plain_block(reason@, texts(details@)),
{
    SubmissionBlock { reason: reason.to_owned(), current: None, limit: None, details }
}

fn counted_block(reason: &str, current: usize, limit: usize, details: Vec<String>) -> (made: SubmissionBlock)
    ensures
        made@ == count_block(reason@, current as int, limit, texts(details@)),
{
    SubmissionBlock {
        reason: reason.to_owned(),
        current: Some(current),
        limit: Some(limit),
        details,
    }
}

fn no_details() -> (details: Vec<String>)
    ensures
        texts(details@) == Seq::<Seq<char>>::empty(),
{
    let details: Vec<String> = Vec::new();
    assert(texts(details@) =~= Seq::<Seq<char>>::empty());
    details
}

fn one_detail(detail: String) -> (details: Vec<String>)
    ensures
        texts(details@) == seq![detail@],
{
    let details = vec![detail];
    assert(texts(details@) =~= seq![detail@]);
    details
}

/// Live runtime snapshot used by entry admission.
#[derive(Clone, Debug, PartialEq, Eq)]
pub struct EntryAdmissionSnapshot {
    /// Current open order count from broker/runtime state.
    pub open_order_count: usize,
    /// Broker/runtime admission reasons for the selected candidate.
    pub broker_admission_reasons: Vec<String>,
}

impl Default for EntryAdmissionSnapshot {
    fn default() -> (snapshot: EntryAdmissionSnapshot)
        ensures
            snapshot.open_order_count == 0,
            snapshot.broker_admission_reasons@.len() == 0,
    {
        EntryAdmissionSnapshot { open_order_count: 0, broker_admission_reasons: Vec::new() }
    }
}

/// An approved earnings event.
#[derive(Clone, Debug)]
pub struct EarningsEvent {
    /// Underlying symbol in upper case.
    pub underlying: String,
    /// Date of the report.
    pub report_date: CalendarDate,
    /// Label of the time of day of the report.
    pub timing: String,
    /// Source of the event.
    pub source: String,
}

/// Risk-capital figures of a selected entry and of the portfolio.
#[derive(Clone, Debug)]
pub struct RiskCapitalFigures {
    /// Estimate for the selected entry, if there is one.
    pub candidate: Option<Figure>,
    /// Sum of the known estimates of active entries.
    pub active_known: Figure,
    /// That sum plus the estimate for the selected entry.
    pub projected: Figure,
}

/// Strategy-owned entry admission configuration.
#[derive(Clone, Debug)]
pub struct EntryAdmissionConfig {
    /// Whether live submission is globally enabled.
    pub submit_enabled: bool,
    /// Strategy names that are intentionally scanned but not submitted.
    pub dry_run_strategy_family_names: TextSet,
    /// Whether new entries are blocked.
    pub kill_switch: bool,
    /// Whether the entry window should be ignored.
    pub ignore_entry_window: bool,
    /// Entry window.
    pub entry_window: MarketWindow,
    /// Maximum active strategy entries.
    pub max_active_entries: Option<usize>,
    /// Maximum accepted strategy submissions for one trade date.
    pub max_daily_submits: Option<usize>,
    /// Maximum working broker orders before new entries are blocked.
    pub max_open_orders: Option<usize>,
    /// Maximum active entries for one underlying.
    pub max_active_entries_per_underlying: Option<usize>,
    /// Maximum active entries for one sector/correlation group.
    pub max_active_entries_per_sector: Option<usize>,
    /// Strategy quantity for selected-entry risk-capital estimates.
    pub quantity: u64,
    /// Maximum risk-capital estimate for one selected entry in USD.
    pub max_single_entry_risk_capital_usd: Option<Figure>,
    /// Maximum active plus selected portfolio risk-capital estimate in USD.
    pub max_portfolio_risk_capital_usd: Option<Figure>,
    /// Whether configured risk-capital limits block entries when risk cannot be estimated.
    pub block_unestimated_risk_capital: bool,
    /// Approved earnings events used by the event-shock admission guard.
    pub event_shock_earnings_events: Vec<EarningsEvent>,
    /// Calendar days before an earnings report to block new entries.
    pub event_shock_block_days_before_earnings: i64,
    /// Calendar days after an earnings report to block new entries.
    pub event_shock_block_days_after_earnings: i64,
    /// Underlying to sector/correlation-group mapping.
    pub sectors: TextMap<String>,
    /// Fleet-wide maximum active entries.
    pub fleet_max_active_entries: Option<usize>,
    /// Fleet-wide current active entries.
    pub fleet_active_entries: usize,
    /// Fleet maximum active entries for one underlying.
    pub fleet_max_active_entries_per_underlying: Option<usize>,
    /// Fleet current active entries by underlying.
    pub fleet_active_entries_by_underlying: TextMap<usize>,
    /// Fleet maximum active entries for one sector/correlation group.
    pub fleet_max_active_entries_per_sector: Option<usize>,
    /// Fleet underlying to sector/correlation-group mapping.
    pub fleet_sectors: TextMap<String>,
    /// Fleet current active entries by sector/correlation group.
    pub fleet_active_entries_by_sector: TextMap<usize>,
    /// Broker account-level reasons captured before live submit is enabled.
    pub account_admission_reasons: Vec<String>,
}

/// Whether settings are the default ones.
pub open spec fn default_admission(config: EntryAdmissionConfig) -> bool {
    &&& config.submit_enabled
    &&& config.dry_run_strategy_family_names@.len() == 0
    &&& !config.kill_switch
    &&& config.ignore_entry_window
    &&& config.entry_window.start == (TimeOfDay { secs: 0, nanos: 0 })
    &&& config.entry_window.end == (TimeOfDay { secs: 86_399, nanos: 0 })
    &&& config.entry_window.zone@ == "UTC"@
    &&& config.max_active_entries is None
    &&& config.max_daily_submits is None
    &&& config.max_open_orders is None
    &&& config.max_active_entries_per_underlying is None
    &&& config.max_active_entries_per_sector is None
    &&& config.quantity == 1
    &&& config.max_single_entry_risk_capital_usd is None
    &&& config.max_portfolio_risk_capital_usd is None
    &&& config.block_unestimated_risk_capital
    &&& config.event_shock_earnings_events@.len() == 0
    &&& config.event_shock_block_days_before_earnings == 1
    &&& config.event_shock_block_days_after_earnings == 1
    &&& config.sectors@.len() == 0
    &&& config.fleet_max_active_entries is None
    &&& config.fleet_active_entries == 0
    &&& config.fleet_max_active_entries_per_underlying is None
    &&& config.fleet_active_entries_by_underlying@.len() == 0
    &&& config.fleet_max_active_entries_per_sector is None
    &&& config.fleet_sectors@.len() == 0
    &&& config.fleet_active_entries_by_sector@.len() == 0
    &&& config.account_admission_reasons@.len() == 0
}

impl Default for EntryAdmissionConfig {
    fn default() -> (config: EntryAdmissionConfig)
        ensures
            default_admission(config),
    {
        EntryAdmissionConfig {
            submit_enabled: true,
            dry_run_strategy_family_names: TextSet::new(),
            kill_switch: false,
            ignore_entry_window: true,
            entry_window: MarketWindow {
                start: TimeOfDay { secs: 0, nanos: 0 },
                end: TimeOfDay { secs: 86_399, nanos: 0 },
                zone: "UTC".to_owned(),
            },
            max_active_entries: None,
            max_daily_submits: None,
            max_open_orders: None,
            max_active_entries_per_underlying: None,
            max_active_entries_per_sector: None,
            quantity: 1,
            max_single_entry_risk_capital_usd: None,
            max_portfolio_risk_capital_usd: None,
            block_unestimated_risk_capital: true,
            event_shock_earnings_events: Vec::new(),
            event_shock_block_days_before_earnings: 1,
            event_shock_block_days_after_earnings: 1,
            sectors: TextMap::new(),
            fleet_max_active_entries: None,
            fleet_active_entries: 0,
            fleet_max_active_entries_per_underlying: None,
            fleet_active_entries_by_underlying: TextMap::new(),
            fleet_max_active_entries_per_sector: None,
            fleet_sectors: TextMap::new(),
            fleet_active_entries_by_sector: TextMap::new(),
            account_admission_reasons: Vec::new(),
        }
    }
}

impl EntryAdmissionConfig {
    /// Returns the current market trade date in the configured entry timezone; there is none for
    /// an unknown timezone.
    #[must_use]
    pub fn market_trade_date(&self, now: UtcInstant) -> (date: Option<String>)
        requires
            now.inland(),
        ensures
            opt_text(date) == match date_in_zone(now, self.entry_window.zone@) {
                Some(found) => Some(date_chars(found)),
                None => None,
            },
    {
        match local_date(now, self.entry_window.zone.as_str()) {
            Some(date) => Some(date_text(date)),
            None => None,
        }
    }
}

// ---------------------------------------------------------------------------------------------
// Account gates
// ---------------------------------------------------------------------------------------------

/// Whether a strategy may submit live orders.
pub open spec fn may_submit(config: EntryAdmissionConfig, strategy: Seq<char>) -> bool {
    config.submit_enabled && !config.dry_run_strategy_family_names.has(strategy)
}

/// Returns whether a selected entry may submit live orders under runtime dry-run gates.
#[must_use]
pub fn selected_submit_enabled(
    config: &EntryAdmissionConfig,
    selected: &SelectedOptionsEntry,
) -> (enabled: bool)
    ensures
        enabled == may_submit(*config, selected.strategy()),
{
    config.submit_enabled && !config.dry_run_strategy_family_names.contains(
        selected.strategy_name(),
    )
}

/// Returns the entry action mode for a selected entry.
#[must_use]
pub fn selected_entry_mode(
    config: &EntryAdmissionConfig,
    selected: &SelectedOptionsEntry,
) -> (mode: EntryMode)
    ensures
        mode is Submit <==> may_submit(*config, selected.strategy()),
{
    if selected_submit_enabled(config, selected) {
        EntryMode::Submit
    } else {
        EntryMode::DryRun
    }
}

/// The account-level entry gate: the kill switch, then the entry window.
pub open spec fn entry_gate(config: EntryAdmissionConfig, now: UtcInstant) -> EntryGateDecision {
    if config.kill_switch {
        EntryGateDecision::KillSwitch
    } else if !config.ignore_entry_window && !config.entry_window.open_at(now) {
        EntryGateDecision::OutsideEntryWindow
    } else {
        EntryGateDecision::Continue
    }
}

/// Returns the account-level entry gate decision for `now`.
#[must_use]
pub fn entry_gate_decision(config: &EntryAdmissionConfig, now: UtcInstant) -> (decision: EntryGateDecision)
    ensures
        decision == entry_gate(*config, now),
{
    if config.kill_switch {
        EntryGateDecision::KillSwitch
    } else if !config.ignore_entry_window && !config.entry_window.is_open_at(now) {
        EntryGateDecision::OutsideEntryWindow
    } else {
        EntryGateDecision::Continue
    }
}

// ---------------------------------------------------------------------------------------------
// Broker reasons
// ---------------------------------------------------------------------------------------------

/// Whether a rejection is that of uncovered options.
pub open spec fn names_uncovered_permission(reason: Seq<char>) -> bool {
    holds_part(lower(reason), "40310000"@) && holds_part(
        lower(reason),
        "not eligible to trade uncovered option contracts"@,
    )
}

/// Returns whether an Alpaca rejection reason is the uncovered-option permission rejection.
#[must_use]
pub fn is_uncovered_option_permission_rejection(reason: &str) -> (yes: bool)
    ensures
        yes == names_uncovered_permission(reason@),
{
    let reason = to_lower(reason);
    contains_part(reason.as_str(), "40310000") && contains_part(
        reason.as_str(),
        "not eligible to trade uncovered option contracts",
    )
}

/// What a broker or runtime admission reason is about, the most pressing first.
#[derive(Clone, Copy, Debug, PartialEq, Eq, Structural)]
pub enum ReasonClass {
    /// The account may not trade.
    AccountState,
    /// The account lacks an options level or buying power.
    OptionsLevel,
    /// An assignment or exercise.
    Lifecycle,
    /// The candidate's symbols do not belong together.
    CandidateSymbols,
    /// A position on a leg.
    LegPosition,
    /// A position on the underlying.
    UnderlyingPosition,
    /// A working order on a leg.
    LegOrder,
    /// A working order on the underlying.
    UnderlyingOrder,
}

/// Whether a reason belongs to a class.
pub open spec fn in_class(class: ReasonClass, reason: Seq<char>) -> bool {
    match class {
        ReasonClass::AccountState => {
            ||| reason == "account trading_blocked is true"@
            ||| reason == "account_blocked is true"@
            ||| reason == "trade_suspended_by_user is true"@
            ||| begins_with(reason, "account status is "@)
        },
        ReasonClass::OptionsLevel => {
            ||| begins_with(reason, "options_trading_level_"@)
            ||| begins_with(reason, "options_approved_level_"@)
            ||| begins_with(reason, "max_options_trading_level_"@)
            ||| reason == "options_buying_power_non_positive"@
        },
        ReasonClass::Lifecycle => {
            ||| begins_with(reason, "lifecycle_activity_poll_failed"@)
            ||| begins_with(reason, "assignment activity "@)
            ||| begins_with(reason, "exercise activity "@)
        },
        ReasonClass::CandidateSymbols => reason
            == "candidate option symbols must resolve to one underlying"@,
        ReasonClass::LegPosition => begins_with(
            reason,
            "existing open position on candidate leg "@,
        ),
        ReasonClass::UnderlyingPosition => begins_with(
            reason,
            "existing open option position on underlying "@,
        ),
        ReasonClass::LegOrder => begins_with(
            reason,
            "working order already references candidate leg "@,
        ),
        ReasonClass::UnderlyingOrder => begins_with(
            reason,
            "working order already references underlying "@,
        ),
    }
}

/// Whether one of some reasons belongs to a class.
pub open spec fn any_in_class(reasons: Seq<Seq<char>>, class: ReasonClass) -> bool {
    exists|i: int| 0 <= i < reasons.len() && in_class(class, #[trigger] reasons[i])
}

/// The block reason of some admission reasons: that of the most pressing class among them.
pub open spec fn reason_label(reasons: Seq<Seq<char>>) -> Seq<char> {
    if any_in_class(reasons, ReasonClass::AccountState) {
        "account_not_tradable"@
    } else if any_in_class(reasons, ReasonClass::OptionsLevel) {
        "options_level_insufficient"@
    } else if any_in_class(reasons, ReasonClass::Lifecycle) {
        "account_lifecycle_event"@
    } else if any_in_class(reasons, ReasonClass::CandidateSymbols) {
        "invalid_candidate_symbols"@
    } else if any_in_class(reasons, ReasonClass::LegPosition) {
        "existing_candidate_leg_position"@
    } else if any_in_class(reasons, ReasonClass::UnderlyingPosition) {
        "existing_underlying_position"@
    } else if any_in_class(reasons, ReasonClass::LegOrder) {
        "working_candidate_leg_order"@
    } else if any_in_class(reasons, ReasonClass::UnderlyingOrder) {
        "working_underlying_order"@
    } else {
        "broker_admission_rejected"@
    }
}

fn reason_in_class(class: ReasonClass, reason: &str) -> (yes: bool)
    ensures
        yes == in_class(class, reason@),
{
    match class {
        ReasonClass::AccountState => same_text(reason, "account trading_blocked is true")
            || same_text(reason, "account_blocked is true") || same_text(
            reason,
            "trade_suspended_by_user is true",
        ) || starts_with(reason, "account status is "),
        ReasonClass::OptionsLevel => starts_with(reason, "options_trading_level_") || starts_with(
            reason,
            "options_approved_level_",
        ) || starts_with(reason, "max_options_trading_level_") || same_text(
            reason,
            "options_buying_power_non_positive",
        ),
        ReasonClass::Lifecycle => starts_with(reason, "lifecycle_activity_poll_failed")
            || starts_with(reason, "assignment activity ") || starts_with(
            reason,
            "exercise activity ",
        ),
        ReasonClass::CandidateSymbols => same_text(
            reason,
            "candidate option symbols must resolve to one underlying",
        ),
        ReasonClass::LegPosition => starts_with(
            reason,
            "existing open position on candidate leg ",
        ),
        ReasonClass::UnderlyingPosition => starts_with(
            reason,
            "existing open option position on underlying ",
        ),
        ReasonClass::LegOrder => starts_with(
            reason,
            "working order already references candidate leg ",
        ),
        ReasonClass::UnderlyingOrder => starts_with(
            reason,
            "working order already references underlying ",
        ),
    }
}

fn any_reason(reasons: &Vec<String>, class: ReasonClass) -> (found: bool)
    ensures
        found == any_in_class(texts(reasons@), class),
{
    for i in 0..reasons.len()
        invariant
            forall|k: int| 0 <= k < i ==> !in_class(class, #[trigger] texts(reasons@)[k]),
    {
        if reason_in_class(class, reasons[i].as_str()) {
            assert(in_class(class, texts(reasons@)[i as int]));
            return true;
        }
    }
    false
}

/// Classifies detailed broker/runtime admission reasons into a stable block reason.
#[must_use]
pub fn admission_block_reason(reasons: &Vec<String>) -> (label: &'static str)
    ensures
        label@ == reason_label(texts(reasons@)),
{
    if any_reason(reasons, ReasonClass::AccountState) {
        "account_not_tradable"
    } else if any_reason(reasons, ReasonClass::OptionsLevel) {
        "options_level_insufficient"
    } else if any_reason(reasons, ReasonClass::Lifecycle) {
        "account_lifecycle_event"
    } else if any_reason(reasons, ReasonClass::CandidateSymbols) {
        "invalid_candidate_symbols"
    } else if any_reason(reasons, ReasonClass::LegPosition) {
        "existing_candidate_leg_position"
    } else if any_reason(reasons, ReasonClass::UnderlyingPosition) {
        "existing_underlying_position"
    } else if any_reason(reasons, ReasonClass::LegOrder) {
        "working_candidate_leg_order"
    } else if any_reason(reasons, ReasonClass::UnderlyingOrder) {
        "working_underlying_order"
    } else {
        "broker_admission_rejected"
    }
}

/// The block reason does not depend on the order or the number of the admission reasons.
pub proof fn reason_label_ignores_order(a: Seq<Seq<char>>, b: Seq<Seq<char>>)
    requires
        forall|x: Seq<char>| a.contains(x) <==> b.contains(x),
    ensures
        reason_label(a) == reason_label(b),
{
    assert forall|class: ReasonClass| any_in_class(a, class) == any_in_class(b, class) by {
        if any_in_class(a, class) {
            let i = choose|i: int| 0 <= i < a.len() && in_class(class, #[trigger] a[i]);
            assert(a.contains(a[i]));
            let j = b.index_of(a[i]);
            assert(in_class(class, b[j]));
        }
        if any_in_class(b, class) {
            let i = choose|i: int| 0 <= i < b.len() && in_class(class, #[trigger] b[i]);
            assert(b.contains(b[i]));
            let j = a.index_of(b[i]);
            assert(in_class(class, a[j]));
        }
    }
}

// ---------------------------------------------------------------------------------------------
// Candidate gates
// ---------------------------------------------------------------------------------------------

/// Count-based risk gate decision.
#[derive(Clone, Copy, Debug, PartialEq, Eq, Structural)]
pub enum RiskGateDecision {
    /// No limit is reached.
    Continue,
    /// The limit on active entries is reached.
    MaxActiveEntries {
        /// Current count.
        current: usize,
        /// Limit.
        limit: usize,
    },
    /// The limit on daily submissions is reached.
    MaxDailySubmits {
        /// Current count.
        current: usize,
        /// Limit.
        limit: usize,
    },
    /// The limit on open orders is reached.
    MaxOpenOrders {
        /// Current count.
        current: usize,
        /// Limit.
        limit: usize,
    },
    /// The fleet limit on active entries is reached.
    FleetMaxActiveEntries {
        /// Current count.
        current: usize,
        /// Limit.
        limit: usize,
    },
}

impl RiskGateDecision {
    /// The block of a decision.
    pub open spec fn as_block(self) -> Option<BlockView> {
        match self {
            RiskGateDecision::Continue => None,
            RiskGateDecision::MaxActiveEntries { current, limit } => Some(
                count_block("risk_max_active_entries"@, current as int, limit, Seq::empty()),
            ),
            RiskGateDecision::MaxDailySubmits { current, limit } => Some(
                count_block("risk_max_daily_submits"@, current as int, limit, Seq::empty()),
            ),
            RiskGateDecision::MaxOpenOrders { current, limit } => Some(
                count_block("risk_max_open_orders"@, current as int, limit, Seq::empty()),
            ),
            RiskGateDecision::FleetMaxActiveEntries { current, limit } => Some(
                count_block("fleet_max_active_entries"@, current as int, limit, Seq::empty()),
            ),
        }
    }

    /// Returns the block of a decision.
    pub fn into_submission_block(self) -> (made: Option<SubmissionBlock>)
        ensures
            opt_block(made) == self.as_block(),
    {
        match self {
            RiskGateDecision::Continue => None,
            RiskGateDecision::MaxActiveEntries { current, limit } => Some(
                counted_block("risk_max_active_entries", current, limit, no_details()),
            ),
            RiskGateDecision::MaxDailySubmits { current, limit } => Some(
                counted_block("risk_max_daily_submits", current, limit, no_details()),
            ),
            RiskGateDecision::MaxOpenOrders { current, limit } => Some(
                counted_block("risk_max_open_orders", current, limit, no_details()),
            ),
            RiskGateDecision::FleetMaxActiveEntries { current, limit } => Some(
                counted_block("fleet_max_active_entries", current, limit, no_details()),
            ),
        }
    }
}

/// Whether a count has reached a limit.
pub open spec fn at_limit(current: int, limit: Option<usize>) -> bool {
    match limit {
        Some(value) => current >= value,
        None => false,
    }
}

/// The count-based risk gate: active entries, daily submissions, open orders, fleet entries.
pub open spec fn risk_gate(
    config: EntryAdmissionConfig,
    state: StrategyState,
    trade_date: Seq<char>,
    snapshot: EntryAdmissionSnapshot,
) -> RiskGateDecision {
    let active = active_entries(state.entries@).len() as int;
    let submits = counted_on(state.entries@, trade_date).len() as int;
    if at_limit(active, config.max_active_entries) {
        RiskGateDecision::MaxActiveEntries {
            current: active as usize,
            limit: config.max_active_entries->0,
        }
    } else if at_limit(submits, config.max_daily_submits) {
        RiskGateDecision::MaxDailySubmits {
            current: submits as usize,
            limit: config.max_daily_submits->0,
        }
    } else if at_limit(snapshot.open_order_count as int, config.max_open_orders) {
        RiskGateDecision::MaxOpenOrders {
            current: snapshot.open_order_count,
            limit: config.max_open_orders->0,
        }
    } else if at_limit(config.fleet_active_entries as int, config.fleet_max_active_entries) {
        RiskGateDecision::FleetMaxActiveEntries {
            current: config.fleet_active_entries,
            limit: config.fleet_max_active_entries->0,
        }
    } else {
        RiskGateDecision::Continue
    }
}

/// Returns the count-based risk gate decision.
pub fn risk_gate_decision(
    config: &EntryAdmissionConfig,
    state: &StrategyState,
    trade_date: &str,
    snapshot: &EntryAdmissionSnapshot,
) -> (decision: RiskGateDecision)
    ensures
        decision == risk_gate(*config, *state, trade_date@, *snapshot),
{
    match config.max_active_entries {
        Some(limit) => {
            let current: usize = state.active_count();
            if current >= limit {
                return RiskGateDecision::MaxActiveEntries { current, limit };
            }
        },
        None => {},
    }
    match config.max_daily_submits {
        Some(limit) => {
            let current: usize = state.risk_counted_daily_submits(trade_date);
            if current >= limit {
                return RiskGateDecision::MaxDailySubmits { current, limit };
            }
        },
        None => {},
    }
    match config.max_open_orders {
        Some(limit) => {
            let current: usize = snapshot.open_order_count;
            if current >= limit {
                return RiskGateDecision::MaxOpenOrders { current, limit };
            }
        },
        None => {},
    }
    match config.fleet_max_active_entries {
        Some(limit) => {
            let current: usize = config.fleet_active_entries;
            if current >= limit {
                return RiskGateDecision::FleetMaxActiveEntries { current, limit };
            }
        },
        None => {},
    }
    RiskGateDecision::Continue
}

/// Whether the broker refused a naked entry for want of permission.
pub open spec fn permission_refused(state: StrategyState) -> bool {
    exists|i: int|
        0 <= i < state.entries@.len() && (#[trigger] state.entries@[i]).canceled
            && state.entries@[i].naked() && opt_text(state.entries@[i].close_reason) == Some(
            "entry_rejected_uncovered_option_permission"@,
        )
}

/// The block on naked options after the broker refused one for want of permission.
pub open spec fn permission_block(state: StrategyState, selected: SelectedOptionsEntry) -> Option<
    BlockView,
> {
    if selected is NakedOption && permission_refused(state) {
        Some(plain_block("broker_uncovered_option_permission"@, seq!["alpaca_http_40310000"@]))
    } else {
        None
    }
}

/// Returns the block on naked options after the broker refused one for want of permission.
pub fn broker_permission_block_for_selected(
    state: &StrategyState,
    selected: &SelectedOptionsEntry,
) -> (made: Option<SubmissionBlock>)
    ensures
        opt_block(made) == permission_block(*state, *selected),
{
    if selected.is_naked_option() && state.has_canceled_naked_entry_with_close_reason(
        "entry_rejected_uncovered_option_permission",
    ) {
        Some(
            block(
                "broker_uncovered_option_permission",
                one_detail("alpaca_http_40310000".to_owned()),
            ),
        )
    } else {
        None
    }
}

/// Whether an earnings event lies close enough to a trade date to block an underlying.
pub open spec fn shocks(
    config: EntryAdmissionConfig,
    event: EarningsEvent,
    trade_date: CalendarDate,
    underlying: Seq<char>,
) -> bool {
    let days = event.report_date.day_number() - trade_date.day_number();
    &&& event.underlying@ == upper(underlying)
    &&& event.report_date.valid()
    &&& -config.event_shock_block_days_after_earnings <= days
    &&& days <= config.event_shock_block_days_before_earnings
}

/// The position of the first event that blocks, the number of events when none does.
pub open spec fn shock_position(
    config: EntryAdmissionConfig,
    events: Seq<EarningsEvent>,
    trade_date: CalendarDate,
    underlying: Seq<char>,
) -> int
    decreases events.len(),
{
    if events.len() == 0 || shocks(config, events[0], trade_date, underlying) {
        0
    } else {
        1 + shock_position(config, events.drop_first(), trade_date, underlying)
    }
}

/// What is reported of a blocking event.
pub open spec fn shock_details(event: EarningsEvent, trade_date: CalendarDate) -> Seq<Seq<char>> {
    seq![
        "underlying="@ + event.underlying@,
        "report_date="@ + date_chars(event.report_date),
        "timing="@ + event.timing@,
        "source="@ + event.source@,
        "days_to_report="@ + signed_decimal(
            event.report_date.day_number() - trade_date.day_number(),
        ),
    ]
}

/// The block around an earnings report; a trade date that is no date blocks nothing.
pub open spec fn shock_block(
    config: EntryAdmissionConfig,
    trade_date: Seq<char>,
    underlying: Seq<char>,
) -> Option<BlockView> {
    let events = config.event_shock_earnings_events@;
    match date_in(trade_date) {
        Some(date) => {
            let at = shock_position(config, events, date, underlying);
            if at < events.len() {
                Some(plain_block("event_shock_earnings"@, shock_details(events[at], date)))
            } else {
                None
            }
        },
        None => None,
    }
}

/// Returns the block around an earnings report.
pub fn event_shock_block(
    config: &EntryAdmissionConfig,
    trade_date: &str,
    underlying: &str,
) -> (made: Option<SubmissionBlock>)
    requires
        config.event_shock_block_days_after_earnings > i64::MIN,
    ensures
        opt_block(made) == shock_block(*config, trade_date@, underlying@),
{
    let n: usize = config.event_shock_earnings_events.len();
    let ghost events = config.event_shock_earnings_events@;
    if n == 0 {
        return None;
    }
    let date = match parse_date(trade_date) {
        Some(date) => date,
        None => {
            return None;
        },
    };
    let today: i32 = match day_of(date) {
        Some(day) => day,
        None => {
            return None;
        },
    };
    let wanted = to_upper(underlying);
    assert(events.skip(0) =~= events);
    for i in 0..n
        invariant
            events == config.event_shock_earnings_events@,
            n == events.len(),
            config.event_shock_block_days_after_earnings > i64::MIN,
            wanted@ == upper(underlying@),
            today == date.day_number(),
            date_in(trade_date@) == Some(date),
            shock_position(*config, events, date, underlying@) == i + shock_position(
                *config,
                events.skip(i as int),
                date,
                underlying@,
            ),
    {
        let event = &config.event_shock_earnings_events[i];
        assert(events.skip(i as int).drop_first() =~= events.skip(i + 1));
        if same_text(event.underlying.as_str(), wanted.as_str()) {
            match day_of(event.report_date) {
                Some(report) => {
                    let days: i64 = report as i64 - today as i64;
                    if -config.event_shock_block_days_after_earnings <= days && days
                        <= config.event_shock_block_days_before_earnings {
                        let details = vec![
                            "underlying=".to_owned().concat(event.underlying.as_str()),
                            "report_date=".to_owned().concat(
                                date_text(event.report_date).as_str(),
                            ),
                            "timing=".to_owned().concat(event.timing.as_str()),
                            "source=".to_owned().concat(event.source.as_str()),
                            "days_to_report=".to_owned().concat(signed_text(days).as_str()),
                        ];
                        assert(texts(details@) =~= shock_details(*event, date));
                        return Some(block("event_shock_earnings", details));
                    }
                },
                None => {},
            }
        }
    }
    None
}

/// The active entries without a risk-capital estimate.
pub open spec fn unestimated(entries: Seq<StrategyStateEntry>) -> Seq<StrategyStateEntry> {
    entries.filter(|entry: StrategyStateEntry| entry.active() && entry.risk_capital_usd is None)
}

/// Returns the number of active entries without a risk-capital estimate.
pub fn unestimated_active_count(state: &StrategyState) -> (count: usize)
    ensures
        count == unestimated(state.entries@).len(),
{
    let mut count: usize = 0;
    let n: usize = state.entries.len();
    for i in 0..n
        invariant
            n == state.entries@.len(),
            count <= i,
            count == unestimated(state.entries@.take(i as int)).len(),
    {
        proof {
            filter_step(
                state.entries@,
                i as int,
                |entry: StrategyStateEntry| entry.active() && entry.risk_capital_usd is None,
            );
        }
        if state.entries[i].is_active() && state.entries[i].risk_capital_usd_estimate().is_none() {
            count += 1;
        }
    }
    assert(state.entries@.take(n as int) =~= state.entries@);
    count
}

/// The block on risk capital: an entry that cannot be estimated, an entry over the single-entry
/// limit, active entries that cannot be estimated, a portfolio over its limit.
pub open spec fn capital_block(
    config: EntryAdmissionConfig,
    state: StrategyState,
    selected: SelectedOptionsEntry,
    figures: RiskCapitalFigures,
) -> Option<BlockView> {
    let single = config.max_single_entry_risk_capital_usd;
    let portfolio = config.max_portfolio_risk_capital_usd;
    let unknown = unestimated(state.entries@).len();
    if single is None && portfolio is None {
        None
    } else if figures.candidate is None {
        if config.block_unestimated_risk_capital {
            Some(
                plain_block(
                    "risk_capital_unestimated"@,
                    seq![
                        "scope=selected_entry"@,
                        "strategy="@ + selected.strategy(),
                        "underlying="@ + selected.underlying_chars(),
                    ],
                ),
            )
        } else {
            None
        }
    } else if single is Some && single->0.amount.below(figures.candidate->0.amount) {
        Some(
            plain_block(
                "risk_max_single_entry_risk_capital"@,
                seq![
                    "candidate_risk_capital_usd="@ + figures.candidate->0.text@,
                    "limit_usd="@ + single->0.text@,
                ],
            ),
        )
    } else if portfolio is None {
        None
    } else if unknown > 0 && config.block_unestimated_risk_capital {
        Some(
            plain_block(
                "risk_capital_unestimated"@,
                seq![
                    "scope=active_entries"@,
                    "unknown_active_entries="@ + decimal(unknown),
                    "known_active_risk_capital_usd="@ + figures.active_known.text@,
                    "limit_usd="@ + portfolio->0.text@,
                ],
            ),
        )
    } else if portfolio->0.amount.below(figures.projected.amount) {
        Some(
            plain_block(
                "risk_max_portfolio_risk_capital"@,
                seq![
                    "active_risk_capital_usd="@ + figures.active_known.text@,
                    "candidate_risk_capital_usd="@ + figures.candidate->0.text@,
                    "projected_risk_capital_usd="@ + figures.projected.text@,
                    "limit_usd="@ + portfolio->0.text@,
                ],
            ),
        )
    } else {
        None
    }
}

/// Returns the block on risk capital.
pub fn portfolio_risk_capital_block(
    config: &EntryAdmissionConfig,
    state: &StrategyState,
    selected: &SelectedOptionsEntry,
    figures: &RiskCapitalFigures,
) -> (made: Option<SubmissionBlock>)
    ensures
        opt_block(made) == capital_block(*config, *state, *selected, *figures),
{
    if config.max_single_entry_risk_capital_usd.is_none()
        && config.max_portfolio_risk_capital_usd.is_none() {
        return None;
    }
    let candidate = match &figures.candidate {
        Some(figure) => figure,
        None => {
            if !config.block_unestimated_risk_capital {
                return None;
            }
            let details = vec![
                "scope=selected_entry".to_owned(),
                "strategy=".to_owned().concat(selected.strategy_name()),
                "underlying=".to_owned().concat(selected.underlying()),
            ];
            assert(texts(details@) =~= seq![
                "scope=selected_entry"@,
                "strategy="@ + selected.strategy(),
                "underlying="@ + selected.underlying_chars(),
            ]);
            return Some(block("risk_capital_unestimated", details));
        },
    };
    match &config.max_single_entry_risk_capital_usd {
        Some(limit) => {
            if limit.amount.is_below(candidate.amount) {
                let details = vec![
                    "candidate_risk_capital_usd=".to_owned().concat(candidate.text.as_str()),
                    "limit_usd=".to_owned().concat(limit.text.as_str()),
                ];
                assert(texts(details@) =~= seq![
                    "candidate_risk_capital_usd="@ + candidate.text@,
                    "limit_usd="@ + limit.text@,
                ]);
                return Some(block("risk_max_single_entry_risk_capital", details));
            }
        },
        None => {},
    }
    let limit = match &config.max_portfolio_risk_capital_usd {
        Some(limit) => limit,
        None => {
            return None;
        },
    };
    let unknown: usize = unestimated_active_count(state);
    if unknown > 0 && config.block_unestimated_risk_capital {
        let details = vec![
            "scope=active_entries".to_owned(),
            "unknown_active_entries=".to_owned().concat(count_text(unknown).as_str()),
            "known_active_risk_capital_usd=".to_owned().concat(figures.active_known.text.as_str()),
            "limit_usd=".to_owned().concat(limit.text.as_str()),
        ];
        assert(texts(details@) =~= seq![
            "scope=active_entries"@,
            "unknown_active_entries="@ + decimal(unknown as nat),
            "known_active_risk_capital_usd="@ + figures.active_known.text@,
            "limit_usd="@ + limit.text@,
        ]);
        return Some(block("risk_capital_unestimated", details));
    }
    if limit.amount.is_below(figures.projected.amount) {
        let details = vec![
            "active_risk_capital_usd=".to_owned().concat(figures.active_known.text.as_str()),
            "candidate_risk_capital_usd=".to_owned().concat(candidate.text.as_str()),
            "projected_risk_capital_usd=".to_owned().concat(figures.projected.text.as_str()),
            "limit_usd=".to_owned().concat(limit.text.as_str()),
        ];
        assert(texts(details@) =~= seq![
            "active_risk_capital_usd="@ + figures.active_known.text@,
            "candidate_risk_capital_usd="@ + candidate.text@,
            "projected_risk_capital_usd="@ + figures.projected.text@,
            "limit_usd="@ + limit.text@,
        ]);
        return Some(block("risk_max_portfolio_risk_capital", details));
    }
    None
}

/// The block on active entries for one underlying.
pub open spec fn underlying_block(
    config: EntryAdmissionConfig,
    state: StrategyState,
    underlying: Seq<char>,
) -> Option<BlockView> {
    let current = active_on(state.entries@, underlying).len() as int;
    if at_limit(current, config.max_active_entries_per_underlying) {
        Some(
            count_block(
                "risk_max_active_entries_per_underlying"@,
                current,
                config.max_active_entries_per_underlying->0,
                Seq::empty(),
            ),
        )
    } else {
        None
    }
}

/// Returns the block on active entries for one underlying.
pub fn per_underlying_block(
    config: &EntryAdmissionConfig,
    state: &StrategyState,
    underlying: &str,
) -> (made: Option<SubmissionBlock>)
    ensures
        opt_block(made) == underlying_block(*config, *state, underlying@),
{
    match config.max_active_entries_per_underlying {
        Some(limit) => {
            let current: usize = active_underlying_count(state, underlying);
            if current >= limit {
                Some(
                    counted_block(
                        "risk_max_active_entries_per_underlying",
                        current,
                        limit,
                        no_details(),
                    ),
                )
            } else {
                None
            }
        },
        None => None,
    }
}

/// The block on active entries for the sector of an underlying.
pub open spec fn sector_block(
    config: EntryAdmissionConfig,
    state: StrategyState,
    underlying: Seq<char>,
) -> Option<BlockView> {
    match sector_of(config.sectors, underlying) {
        Some(sector) => {
            let current = active_in_sector(state.entries@, config.sectors, sector).len() as int;
            if at_limit(current, config.max_active_entries_per_sector) {
                Some(
                    count_block(
                        "risk_max_active_entries_per_sector"@,
                        current,
                        config.max_active_entries_per_sector->0,
                        seq!["sector="@ + sector],
                    ),
                )
            } else {
                None
            }
        },
        None => None,
    }
}

/// Returns the block on active entries for the sector of an underlying.
pub fn per_sector_block(
    config: &EntryAdmissionConfig,
    state: &StrategyState,
    underlying: &str,
) -> (made: Option<SubmissionBlock>)
    ensures
        opt_block(made) == sector_block(*config, *state, underlying@),
{
    match config.max_active_entries_per_sector {
        Some(limit) => match sector_for(&config.sectors, underlying) {
            Some(sector) => {
                let current: usize = active_sector_count(state, &config.sectors, sector);
                if current >= limit {
                    Some(
                        counted_block(
                            "risk_max_active_entries_per_sector",
                            current,
                            limit,
                            one_detail("sector=".to_owned().concat(sector)),
                        ),
                    )
                } else {
                    None
                }
            },
            None => None,
        },
        None => None,
    }
}

/// The block on fleet entries for one underlying.
pub open spec fn fleet_underlying_block(config: EntryAdmissionConfig, underlying: Seq<char>) -> Option<
    BlockView,
> {
    let current = count_at(config.fleet_active_entries_by_underlying, upper(underlying));
    if at_limit(current, config.fleet_max_active_entries_per_underlying) {
        Some(
            count_block(
                "fleet_max_active_entries_per_underlying"@,
                current,
                config.fleet_max_active_entries_per_underlying->0,
                Seq::empty(),
            ),
        )
    } else {
        None
    }
}

/// Returns the block on fleet entries for one underlying.
pub fn fleet_underlying_limit_block(
    config: &EntryAdmissionConfig,
    underlying: &str,
) -> (made: Option<SubmissionBlock>)
    ensures
        opt_block(made) == fleet_underlying_block(*config, underlying@),
{
    match config.fleet_max_active_entries_per_underlying {
        Some(limit) => {
            let current: usize = config.fleet_active_entries_by_underlying.count(
                to_upper(underlying).as_str(),
            );
            if current >= limit {
                Some(
                    counted_block(
                        "fleet_max_active_entries_per_underlying",
                        current,
                        limit,
                        no_details(),
                    ),
                )
            } else {
                None
            }
        },
        None => None,
    }
}

/// The block on fleet entries for the sector of an underlying.
pub open spec fn fleet_sector_block(config: EntryAdmissionConfig, underlying: Seq<char>) -> Option<
    BlockView,
> {
    match sector_of(config.fleet_sectors, underlying) {
        Some(sector) => {
            let current = count_at(config.fleet_active_entries_by_sector, sector);
            if at_limit(current, config.fleet_max_active_entries_per_sector) {
                Some(
                    count_block(
                        "fleet_max_active_entries_per_sector"@,
                        current,
                        config.fleet_max_active_entries_per_sector->0,
                        seq!["sector="@ + sector],
                    ),
                )
            } else {
                None
            }
        },
        None => None,
    }
}

/// Returns the block on fleet entries for the sector of an underlying.
pub fn fleet_sector_limit_block(
    config: &EntryAdmissionConfig,
    underlying: &str,
) -> (made: Option<SubmissionBlock>)
    ensures
        opt_block(made) == fleet_sector_block(*config, underlying@),
{
    match config.fleet_max_active_entries_per_sector {
        Some(limit) => match sector_for(&config.fleet_sectors, underlying) {
            Some(sector) => {
                let current: usize = config.fleet_active_entries_by_sector.count(sector);
                if current >= limit {
                    Some(
                        counted_block(
                            "fleet_max_active_entries_per_sector",
                            current,
                            limit,
                            one_detail("sector=".to_owned().concat(sector)),
                        ),
                    )
                } else {
                    None
                }
            },
            None => None,
        },
        None => None,
    }
}

/// Whether an entry on an underlying was already submitted on a trade date.
pub open spec fn entered_today(
    state: StrategyState,
    trade_date: Seq<char>,
    underlying: Seq<char>,
) -> bool {
    exists|i: int|
        0 <= i < state.entries@.len() && (#[trigger] state.entries@[i]).risk_counted()
            && state.entries@[i].trade_date@ == trade_date && lower(state.entries@[i].underlying@)
            == lower(underlying)
}

/// The block on a second entry on the same underlying and trade date.
pub open spec fn duplicate_block(
    state: StrategyState,
    trade_date: Seq<char>,
    underlying: Seq<char>,
) -> Option<BlockView> {
    if entered_today(state, trade_date, underlying) {
        Some(plain_block("daily_duplicate_state"@, seq!["scope=same_day_underlying_reentry"@]))
    } else {
        None
    }
}

/// Returns the block on a second entry on the same underlying and trade date.
pub fn daily_duplicate_block(
    state: &StrategyState,
    trade_date: &str,
    underlying: &str,
) -> (made: Option<SubmissionBlock>)
    ensures
        opt_block(made) == duplicate_block(*state, trade_date@, underlying@),
{
    if state.has_risk_counted_submitted_underlying_today(trade_date, underlying) {
        Some(
            block(
                "daily_duplicate_state",
                one_detail("scope=same_day_underlying_reentry".to_owned()),
            ),
        )
    } else {
        None
    }
}

/// The block on broker and runtime reasons.
pub open spec fn broker_block(reasons: Seq<Seq<char>>) -> Option<BlockView> {
    if reasons.len() == 0 {
        None
    } else {
        Some(plain_block(reason_label(reasons), reasons))
    }
}

/// Returns the block on broker and runtime reasons.
pub fn broker_admission_block(reasons: &Vec<String>) -> (made: Option<SubmissionBlock>)
    ensures
        opt_block(made) == broker_block(texts(reasons@)),
{
    if reasons.len() == 0 {
        None
    } else {
        Some(block(admission_block_reason(reasons), copy_texts(reasons)))
    }
}

/// The first gate that blocks a selected entry.
pub open spec fn admission_block(
    config: EntryAdmissionConfig,
    state: StrategyState,
    selected: SelectedOptionsEntry,
    trade_date: Seq<char>,
    snapshot: EntryAdmissionSnapshot,
    figures: RiskCapitalFigures,
) -> Option<BlockView> {
    let underlying = selected.underlying_chars();
    first_block(
        permission_block(state, selected),
        first_block(
            risk_gate(config, state, trade_date, snapshot).as_block(),
            first_block(
                shock_block(config, trade_date, underlying),
                first_block(
                    capital_block(config, state, selected, figures),
                    first_block(
                        underlying_block(config, state, underlying),
                        first_block(
                            sector_block(config, state, underlying),
                            first_block(
                                fleet_underlying_block(config, underlying),
                                first_block(
                                    fleet_sector_block(config, underlying),
                                    first_block(
                                        duplicate_block(state, trade_date, underlying),
                                        broker_block(texts(snapshot.broker_admission_reasons@)),
                                    ),
                                ),
                            ),
                        ),
                    ),
                ),
            ),
        ),
    )
}

/// Returns a selected-entry submission block, if admission should prevent broker submission.
#[must_use]
pub fn submission_block_for_selected(
    config: &EntryAdmissionConfig,
    state: &StrategyState,
    selected: &SelectedOptionsEntry,
    trade_date: &str,
    snapshot: &EntryAdmissionSnapshot,
    figures: &RiskCapitalFigures,
) -> (made: Option<SubmissionBlock>)
    requires
        config.event_shock_block_days_after_earnings > i64::MIN,
    ensures
        opt_block(made) == admission_block(
            *config,
            *state,
            *selected,
            trade_date@,
            *snapshot,
            *figures,
        ),
{
    let underlying = selected.underlying();
    let gate = broker_permission_block_for_selected(state, selected);
    if gate.is_some() {
        return gate;
    }
    let gate = risk_gate_decision(config, state, trade_date, snapshot).into_submission_block();
    if gate.is_some() {
        return gate;
    }
    let gate = event_shock_block(config, trade_date, underlying);
    if gate.is_some() {
        return gate;
    }
    let gate = portfolio_risk_capital_block(config, state, selected, figures);
    if gate.is_some() {
        return gate;
    }
    let gate = per_underlying_block(config, state, underlying);
    if gate.is_some() {
        return gate;
    }
    let gate = per_sector_block(config, state, underlying);
    if gate.is_some() {
        return gate;
    }
    let gate = fleet_underlying_limit_block(config, underlying);
    if gate.is_some() {
        return gate;
    }
    let gate = fleet_sector_limit_block(config, underlying);
    if gate.is_some() {
        return gate;
    }
    let gate = daily_duplicate_block(state, trade_date, underlying);
    if gate.is_some() {
        return gate;
    }
    broker_admission_block(&snapshot.broker_admission_reasons)
}

/// An entry is admitted only when no count limit is reached, no entry on its underlying was
/// submitted on the trade date, the broker gave no reason against it, and the broker has not
/// refused naked options where it is one.
pub proof fn admitted_entries_pass_every_gate(
    config: EntryAdmissionConfig,
    state: StrategyState,
    selected: SelectedOptionsEntry,
    trade_date: Seq<char>,
    snapshot: EntryAdmissionSnapshot,
    figures: RiskCapitalFigures,
)
    requires
        admission_block(config, state, selected, trade_date, snapshot, figures) is None,
    ensures
        !(selected is NakedOption && permission_refused(state)),
        !at_limit(active_entries(state.entries@).len() as int, config.max_active_entries),
        !at_limit(counted_on(state.entries@, trade_date).len() as int, config.max_daily_submits),
        !at_limit(snapshot.open_order_count as int, config.max_open_orders),
        !at_limit(config.fleet_active_entries as int, config.fleet_max_active_entries),
        !at_limit(
            active_on(state.entries@, selected.underlying_chars()).len() as int,
            config.max_active_entries_per_underlying,
        ),
        !at_limit(
            count_at(
                config.fleet_active_entries_by_underlying,
                upper(selected.underlying_chars()),
            ),
            config.fleet_max_active_entries_per_underlying,
        ),
        capital_block(config, state, selected, figures) is None,
        shock_block(config, trade_date, selected.underlying_chars()) is None,
        !entered_today(state, trade_date, selected.underlying_chars()),
        snapshot.broker_admission_reasons@.len() == 0,
{
}

/// After an entry on an underlying was recorded for a trade date, no further entry on that
/// underlying is admitted on that date.
pub proof fn recorded_entry_blocks_reentry(
    config: EntryAdmissionConfig,
    before: StrategyState,
    after: StrategyState,
    first: SelectedOptionsEntry,
    draft: crate::state::StrategyStateEntryDraft,
    now: String,
    second: SelectedOptionsEntry,
    snapshot: EntryAdmissionSnapshot,
    figures: RiskCapitalFigures,
)
    requires
        first.drafted_as(draft),
        after.entries@ == before.entries@.push(crate::state::recorded_entry(draft, now)),
        lower(second.underlying_chars()) == lower(first.underlying_chars()),
    ensures
        admission_block(config, after, second, draft.trade_date@, snapshot, figures) is Some,
{
    let at = before.entries@.len() as int;
    assert(after.entries@[at].risk_counted());
    assert(entered_today(after, draft.trade_date@, second.underlying_chars()));
}

} // verus!
