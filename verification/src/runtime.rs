//! Runtime configuration of the options engine.
use vstd::prelude::*;

use crate::account_strategy::AlpacaOptionsAccountStrategyConfig;
use crate::admission::default_admission;
use crate::admission::may_submit;
use crate::admission::EarningsEvent;
use crate::admission::EntryAdmissionConfig;
use crate::amount::copy_figure;
use crate::amount::Amount;
use crate::amount::Figure;
use crate::calendar::MarketWindow;
use crate::calendar::TimeOfDay;
use crate::candidates::CreditSpreadKind;
use crate::candidates::DebitSpreadKind;
use crate::candidates::NakedOptionKind;
use crate::chain::OptionChainOpportunityScanConfig;
use crate::entry_strategy::AlpacaOptionsEntryStrategyConfig;
use crate::lifecycle::OptionLifecycleRiskConfig;
use crate::management::default_management;
use crate::management::AlpacaOptionsManagementConfig;
use crate::management::CloseOrderMode;
use crate::management::CreditSpreadManagementConfig;
use crate::profile::enabled_strategy_family_names;
use crate::profile::family_labels;
use crate::profile::strategy_profile_summaries;
use crate::profile::unique;
use crate::profile::unique_strategy_names;
use crate::profile::AlpacaOptionsStrategyProfile;
use crate::state::sector_for;
use crate::state::sector_of;
use crate::text::is_blank;
use crate::text::opt_text;
use crate::text::slices;
use crate::text::trimmed;
use crate::text_map::TextMap;
use crate::text_set::filter_step;
use crate::text_set::TextSet;

verus! {

/// Limits and exposure of the account fleet.
#[derive(Clone, Debug)]
pub struct FleetRisk {
    /// Maximum active entries.
    pub max_active_entries: Option<usize>,
    /// Active entries.
    pub active_entries: usize,
    /// Maximum active entries for one underlying.
    pub max_active_entries_per_underlying: Option<usize>,
    /// Active entries by underlying.
    pub active_entries_by_underlying: TextMap<usize>,
    /// Maximum active entries for one sector.
    pub max_active_entries_per_sector: Option<usize>,
    /// Sectors by underlying.
    pub sectors: TextMap<String>,
    /// Active entries by sector.
    pub active_entries_by_sector: TextMap<usize>,
}

/// State of the event-shock source.
#[derive(Clone, Debug)]
pub struct EventShockStatus {
    /// Whether the source is required.
    pub required: bool,
    /// Whether the source allows dry runs only.
    pub dry_run_only: bool,
    /// Name of the source.
    pub source: String,
    /// Freshness label.
    pub freshness: String,
    /// Why the source is unavailable.
    pub unavailable_reason: Option<String>,
}

/// Runtime config for the Alpaca options slice.
#[derive(Clone, Debug)]
pub struct AlpacaOptionsRuntimeConfig {
    /// Underlyings to scan.
    pub underlyings: Vec<String>,
    /// Reusable universe groups: members by name.
    pub universe_groups: TextMap<Vec<String>>,
    /// Resolved strategy profiles that define scan composition.
    pub strategy_profiles: Vec<AlpacaOptionsStrategyProfile>,
    /// Enabled credit-spread kinds of option-chain scans.
    pub spread_kinds: Vec<CreditSpreadKind>,
    /// Whether option-chain scans look for iron condors.
    pub iron_condor_enabled: bool,
    /// Enabled debit-spread kinds of option-chain scans.
    pub debit_kinds: Vec<DebitSpreadKind>,
    /// Enabled naked-option kinds of option-chain scans.
    pub naked_kinds: Vec<NakedOptionKind>,
    /// Maximum active strategy entries. `None` means unlimited.
    pub max_active_entries: Option<usize>,
    /// Maximum accepted strategy submissions for one trade date. `None` means unlimited.
    pub max_daily_submits: Option<usize>,
    /// Maximum working broker orders before new entries are blocked. `None` means unlimited.
    pub max_open_orders: Option<usize>,
    /// Maximum active entries for one underlying. `None` means unlimited.
    pub max_active_entries_per_underlying: Option<usize>,
    /// Maximum active entries for one configured sector/correlation group. `None` means unlimited.
    pub max_active_entries_per_sector: Option<usize>,
    /// Maximum risk-capital estimate for one selected entry in USD. `None` means unlimited.
    pub max_single_entry_risk_capital_usd: Option<Figure>,
    /// Maximum active plus selected portfolio risk-capital estimate in USD. `None` means unlimited.
    pub max_portfolio_risk_capital_usd: Option<Figure>,
    /// Whether configured risk-capital limits block entries when risk cannot be estimated.
    pub block_unestimated_risk_capital: bool,
    /// Event-shock source.
    pub event_shock: EventShockStatus,
    /// Approved earnings events used by the event-shock admission guard.
    pub event_shock_earnings_events: Vec<EarningsEvent>,
    /// Calendar days before an earnings report to block new entries.
    pub event_shock_block_days_before_earnings: i64,
    /// Calendar days after an earnings report to block new entries.
    pub event_shock_block_days_after_earnings: i64,
    /// Underlying to sector/correlation-group mapping.
    pub sectors: TextMap<String>,
    /// Delay between iterations.
    pub interval_secs: u64,
    /// Strategy quantity.
    pub quantity: u64,
    /// Whether broker orders which open new risk are enabled.
    pub open_orders_enabled: bool,
    /// Whether new entries are blocked.
    pub kill_switch: bool,
    /// Whether every active entry should be flattened.
    pub force_flatten: bool,
    /// Stale entry timeout.
    pub stale_entry_secs: u64,
    /// Stale close timeout.
    pub stale_close_secs: u64,
    /// Whether broker orders which close or reduce risk are enabled.
    pub close_orders_enabled: bool,
    /// Order path of closes.
    pub close_order_mode: CloseOrderMode,
    /// Whether non-forced close submissions are limited to regular options hours.
    pub close_regular_hours_only: bool,
    /// Close window start.
    pub close_start: TimeOfDay,
    /// Close window end.
    pub close_end: TimeOfDay,
    /// Additional debit allowed on submitted close limits.
    pub close_price_cushion: Amount,
    /// Additional close cushion added per accepted close attempt.
    pub close_reprice_step: Amount,
    /// Maximum total close cushion after repricing steps.
    pub max_close_price_cushion: Amount,
    /// Maximum accepted close submissions per entry. Zero means unlimited.
    pub max_close_attempts: u32,
    /// Minimum delay after a close submission before another close may be submitted.
    pub close_reprice_cooldown_secs: u64,
    /// Number of high-rank candidate entries to keep quote-subscribed for active risk checks.
    pub active_risk_candidate_quote_limit: usize,
    /// Maximum accepted active-risk quote age. Zero disables freshness blocks.
    pub active_risk_quote_stale_secs: u64,
    /// Profit-target close fraction.
    pub profit_target_close_fraction: Amount,
    /// Stop-loss close multiple.
    pub stop_loss_close_multiple: Amount,
    /// Maximum hold time. Zero disables.
    pub max_hold_secs: u64,
    /// Expiration-risk exit days. Negative disables.
    pub expiration_exit_days: i64,
    /// Lifecycle account-activity poll interval. Zero disables background polling.
    pub lifecycle_poll_secs: u64,
    /// Lifecycle account-activity lookback.
    pub lifecycle_activity_lookback_hours: u64,
    /// Recent assignment/exercise block window.
    pub lifecycle_activity_block_hours: u64,
    /// Calendar DTE threshold that blocks new entries. Negative disables.
    pub expiration_entry_block_days: i64,
    /// Whether the entry window gate should be ignored.
    pub ignore_entry_window: bool,
    /// Entry window start.
    pub entry_start: TimeOfDay,
    /// Entry window end.
    pub entry_end: TimeOfDay,
    /// IANA name of the entry window timezone.
    pub entry_timezone: String,
    /// Whether scanner evidence should be written to the candidate ledger.
    pub candidate_ledger_enabled: bool,
    /// Maximum ranked candidates to write per scanner result. `0` means all candidates.
    pub candidate_ledger_max_candidates: usize,
    /// Fleet limits and exposure, if a fleet is configured.
    pub fleet: Option<FleetRisk>,
    /// Current fleet account ID, if this runtime matched one.
    pub fleet_account_id: Option<String>,
    /// Fleet policy blocks applied to this runtime.
    pub fleet_policy_blocks: Vec<String>,
    /// Optional account ID override for persisted records.
    pub operational_account_id: Option<String>,
}

/// The dry-run ones of some profiles.
pub open spec fn dry_run_profiles(profiles: Seq<AlpacaOptionsStrategyProfile>) -> Seq<
    AlpacaOptionsStrategyProfile,
> {
    profiles.filter(|profile: AlpacaOptionsStrategyProfile| profile.mode is DryRun)
}

/// Whether a name is the label of a dry-run profile.
pub open spec fn is_dry_run_label(profiles: Seq<AlpacaOptionsStrategyProfile>, name: Seq<char>) -> bool {
    exists|i: int|
        0 <= i < profiles.len() && (#[trigger] profiles[i]).mode is DryRun
            && profiles[i].family.label() == name
}

/// Whether the conversion to admission settings is right.
pub open spec fn admission_of(config: EntryAdmissionConfig, engine: AlpacaOptionsRuntimeConfig) -> bool {
    &&& config.submit_enabled == engine.open_orders_enabled
    &&& config.dry_run_strategy_family_names.wf()
    &&& forall|name: Seq<char>| #[trigger]
        config.dry_run_strategy_family_names.has(name) <==> is_dry_run_label(
            engine.strategy_profiles@,
            name,
        )
    &&& config.kill_switch == engine.kill_switch
    &&& config.ignore_entry_window == engine.ignore_entry_window
    &&& config.entry_window.start == engine.entry_start
    &&& config.entry_window.end == engine.entry_end
    &&& config.entry_window.zone@ == engine.entry_timezone@
    &&& config.max_active_entries == engine.max_active_entries
    &&& config.max_daily_submits == engine.max_daily_submits
    &&& config.max_open_orders == engine.max_open_orders
    &&& config.max_active_entries_per_underlying == engine.max_active_entries_per_underlying
    &&& config.max_active_entries_per_sector == engine.max_active_entries_per_sector
    &&& config.quantity == engine.quantity
    &&& config.max_single_entry_risk_capital_usd == engine.max_single_entry_risk_capital_usd
    &&& config.max_portfolio_risk_capital_usd == engine.max_portfolio_risk_capital_usd
    &&& config.block_unestimated_risk_capital == engine.block_unestimated_risk_capital
    &&& config.event_shock_earnings_events@ == engine.event_shock_earnings_events@
    &&& config.event_shock_block_days_before_earnings
        == engine.event_shock_block_days_before_earnings
    &&& config.event_shock_block_days_after_earnings == engine.event_shock_block_days_after_earnings
    &&& config.sectors@ == engine.sectors@
    &&& config.account_admission_reasons@.len() == 0
    &&& match engine.fleet {
        Some(fleet) => {
            &&& config.fleet_max_active_entries == fleet.max_active_entries
            &&& config.fleet_active_entries == fleet.active_entries
            &&& config.fleet_max_active_entries_per_underlying
                == fleet.max_active_entries_per_underlying
            &&& config.fleet_active_entries_by_underlying@ == fleet.active_entries_by_underlying@
            &&& config.fleet_max_active_entries_per_sector == fleet.max_active_entries_per_sector
            &&& config.fleet_sectors@ == fleet.sectors@
            &&& config.fleet_active_entries_by_sector@ == fleet.active_entries_by_sector@
        },
        None => {
            &&& config.fleet_max_active_entries is None
            &&& config.fleet_active_entries == 0
            &&& config.fleet_max_active_entries_per_underlying is None
            &&& config.fleet_active_entries_by_underlying@.len() == 0
            &&& config.fleet_max_active_entries_per_sector is None
            &&& config.fleet_sectors@.len() == 0
            &&& config.fleet_active_entries_by_sector@.len() == 0
        },
    }
}

/// Whether the conversion to management settings is right.
pub open spec fn management_of(
    config: AlpacaOptionsManagementConfig,
    engine: AlpacaOptionsRuntimeConfig,
) -> bool {
    &&& config.interval_secs == engine.interval_secs
    &&& config.close_orders_enabled == engine.close_orders_enabled
    &&& config.close_order_mode == engine.close_order_mode
    &&& config.force_flatten == engine.force_flatten
    &&& config.stale_entry_secs == engine.stale_entry_secs
    &&& config.stale_close_secs == engine.stale_close_secs
    &&& config.close_regular_hours_only == engine.close_regular_hours_only
    &&& config.close_window.start == engine.close_start
    &&& config.close_window.end == engine.close_end
    &&& config.close_window.zone@ == engine.entry_timezone@
    &&& config.close_price_cushion == engine.close_price_cushion
    &&& config.close_reprice_step == engine.close_reprice_step
    &&& config.max_close_price_cushion == engine.max_close_price_cushion
    &&& config.max_close_attempts == engine.max_close_attempts
    &&& config.close_reprice_cooldown_secs == engine.close_reprice_cooldown_secs
    &&& config.active_risk_candidate_quote_limit == engine.active_risk_candidate_quote_limit
    &&& config.active_risk_quote_stale_secs == engine.active_risk_quote_stale_secs
    &&& config.profit_target_close_fraction == engine.profit_target_close_fraction
    &&& config.stop_loss_close_multiple == engine.stop_loss_close_multiple
    &&& config.max_hold_secs == engine.max_hold_secs
    &&& config.expiration_exit_days == engine.expiration_exit_days
}

/// What becomes of a candidate-ledger record.
#[derive(Clone, Copy, Debug, PartialEq, Eq, Structural)]
pub enum LedgerStep {
    /// The ledger is off.
    Skip,
    /// The ledger is on without a store; that is reported.
    ReportNotConnected,
    /// The record is appended.
    Append,
}

impl AlpacaOptionsRuntimeConfig {
    /// Returns pure management thresholds for this runtime config.
    #[must_use]
    pub fn management_config(&self) -> (config: CreditSpreadManagementConfig)
        ensures
            config == (CreditSpreadManagementConfig {
                force_flatten: self.force_flatten,
                profit_target_close_fraction: self.profit_target_close_fraction,
                stop_loss_close_multiple: self.stop_loss_close_multiple,
                max_hold_secs: self.max_hold_secs,
                expiration_exit_days: self.expiration_exit_days,
            }),
    {
        CreditSpreadManagementConfig {
            force_flatten: self.force_flatten,
            profit_target_close_fraction: self.profit_target_close_fraction,
            stop_loss_close_multiple: self.stop_loss_close_multiple,
            max_hold_secs: self.max_hold_secs,
            expiration_exit_days: self.expiration_exit_days,
        }
    }

    /// Returns lifecycle-risk settings for the live strategy runtime.
    #[must_use]
    pub fn lifecycle_risk_config(&self) -> (config: OptionLifecycleRiskConfig)
        ensures
            config == (OptionLifecycleRiskConfig {
                poll_secs: self.lifecycle_poll_secs,
                activity_lookback_hours: self.lifecycle_activity_lookback_hours,
                activity_block_hours: self.lifecycle_activity_block_hours,
                expiration_entry_block_days: self.expiration_entry_block_days,
            }),
    {
        OptionLifecycleRiskConfig {
            poll_secs: self.lifecycle_poll_secs,
            activity_lookback_hours: self.lifecycle_activity_lookback_hours,
            activity_block_hours: self.lifecycle_activity_block_hours,
            expiration_entry_block_days: self.expiration_entry_block_days,
        }
    }

    /// Returns the effective account identifier for persistence operations.
    #[must_use]
    pub fn operational_account_id<'a>(&'a self, default_id: &'a str) -> (id: &'a str)
        ensures
            id@ == match (self.operational_account_id, self.fleet_account_id) {
                (Some(own), _) => own@,
                (None, Some(fleet)) => fleet@,
                (None, None) => default_id@,
            },
    {
        match &self.operational_account_id {
            Some(own) => own.as_str(),
            None => match &self.fleet_account_id {
                Some(fleet) => fleet.as_str(),
                None => default_id,
            },
        }
    }

    /// Returns the number of ranked candidates to write to the candidate ledger.
    pub fn candidate_ledger_candidate_limit(&self, candidate_count: usize) -> (limit: usize)
        ensures
            limit == if self.candidate_ledger_max_candidates == 0 || candidate_count
                < self.candidate_ledger_max_candidates {
                candidate_count
            } else {
                self.candidate_ledger_max_candidates
            },
    {
        if self.candidate_ledger_max_candidates == 0 || candidate_count
            < self.candidate_ledger_max_candidates {
            candidate_count
        } else {
            self.candidate_ledger_max_candidates
        }
    }

    /// Returns what becomes of a candidate-ledger record.
    pub fn record_candidate_ledger(&self, store_connected: bool) -> (step: LedgerStep)
        ensures
            step == if !self.candidate_ledger_enabled {
                LedgerStep::Skip
            } else if !store_connected {
                LedgerStep::ReportNotConnected
            } else {
                LedgerStep::Append
            },
    {
        if !self.candidate_ledger_enabled {
            LedgerStep::Skip
        } else if !store_connected {
            LedgerStep::ReportNotConnected
        } else {
            LedgerStep::Append
        }
    }

    /// Returns enabled strategy names for operator logs.
    #[must_use]
    pub fn enabled_strategy_family_names(&self) -> (names: Vec<&'static str>)
        ensures
            slices(names@) == unique(family_labels(self.strategy_profiles@)),
    {
        enabled_strategy_family_names(&self.strategy_profiles)
    }

    /// Returns compact resolved strategy profile summaries.
    #[must_use]
    pub fn strategy_profile_summaries(&self) -> (summaries: Vec<String>)
        ensures
            summaries@.len() == self.strategy_profiles@.len(),
            forall|i: int|
                0 <= i < summaries@.len() ==> (#[trigger] summaries@[i])@
                    == self.strategy_profiles@[i].summary_chars(),
    {
        strategy_profile_summaries(&self.strategy_profiles)
    }

    /// Returns the configured sector/correlation group for an underlying.
    #[must_use]
    pub fn sector_for(&self, underlying: &str) -> (sector: Option<&str>)
        ensures
            match sector {
                Some(found) => sector_of(self.sectors, underlying@) == Some(found@),
                None => sector_of(self.sectors, underlying@) is None,
            },
    {
        sector_for(&self.sectors, underlying)
    }

    /// Returns the labels of the dry-run profiles, each once.
    pub fn dry_run_strategy_family_names(&self) -> (names: Vec<&'static str>)
        ensures
            slices(names@) == unique(family_labels(dry_run_profiles(self.strategy_profiles@))),
    {
        let mut all: Vec<&'static str> = Vec::new();
        let n: usize = self.strategy_profiles.len();
        let ghost pass = |profile: AlpacaOptionsStrategyProfile| profile.mode is DryRun;
        proof {
            reveal(Seq::filter);
            assert(slices(all@) =~= family_labels(self.strategy_profiles@.take(0).filter(pass)));
        }
        for i in 0..n
            invariant
                n == self.strategy_profiles@.len(),
                pass == (|profile: AlpacaOptionsStrategyProfile| profile.mode is DryRun),
                slices(all@) == family_labels(
                    self.strategy_profiles@.take(i as int).filter(pass),
                ),
        {
            let profile = &self.strategy_profiles[i];
            let ghost before = all@;
            let ghost kept = self.strategy_profiles@.take(i as int).filter(pass);
            proof {
                filter_step(self.strategy_profiles@, i as int, pass);
            }
            if profile.is_dry_run() {
                all.push(profile.strategy_name());
                assert(slices(all@) =~= slices(before).push(profile.family.label()));
                assert(family_labels(kept.push(*profile)) =~= family_labels(kept).push(
                    profile.family.label(),
                ));
            }
        }
        assert(self.strategy_profiles@.take(n as int) =~= self.strategy_profiles@);
        unique_strategy_names(&all)
    }

    /// Returns the set of the labels of the dry-run profiles.
    fn dry_run_labels(&self) -> (names: TextSet)
        ensures
            names.wf(),
            forall|name: Seq<char>| #[trigger]
                names.has(name) <==> is_dry_run_label(self.strategy_profiles@, name),
    {
        let mut names = TextSet::new();
        let n: usize = self.strategy_profiles.len();
        for i in 0..n
            invariant
                n == self.strategy_profiles@.len(),
                names.wf(),
                forall|name: Seq<char>| #[trigger]
                    names.has(name) <==> (exists|k: int|
                        0 <= k < i && (#[trigger] self.strategy_profiles@[k]).mode is DryRun
                            && self.strategy_profiles@[k].family.label() == name),
        {
            let ghost before = names;
            let profile = &self.strategy_profiles[i];
            if profile.is_dry_run() {
                names.insert(profile.strategy_name().to_owned());
            }
            proof {
                assert forall|name: Seq<char>| #[trigger]
                    names.has(name) <==> (exists|k: int|
                        0 <= k < i + 1 && (#[trigger] self.strategy_profiles@[k]).mode is DryRun
                            && self.strategy_profiles@[k].family.label() == name) by {
                    assert(before.has(name) <==> (exists|k: int|
                        0 <= k < i && (#[trigger] self.strategy_profiles@[k]).mode is DryRun
                            && self.strategy_profiles@[k].family.label() == name));
                    if profile.mode is DryRun && profile.family.label() == name {
                        assert(self.strategy_profiles@[i as int].mode is DryRun);
                    }
                }
            }
        }
        names
    }
}

/// The account identifier after the environment was read: a present one stays, otherwise the first
/// of two values that is not blank.
pub open spec fn account_id_after(
    current: Option<Seq<char>>,
    first: Option<Seq<char>>,
    second: Option<Seq<char>>,
) -> Option<Seq<char>> {
    if current is Some {
        current
    } else if first is Some && trimmed(first->0).len() > 0 {
        first
    } else if second is Some && trimmed(second->0).len() > 0 {
        second
    } else {
        None
    }
}

fn not_blank(value: Option<String>) -> (kept: Option<String>)
    ensures
        opt_text(kept) == match opt_text(value) {
            Some(text) => if trimmed(text).len() > 0 {
                Some(text)
            } else {
                None
            },
            None => None,
        },
{
    match value {
        Some(text) => if is_blank(text.as_str()) {
            None
        } else {
            Some(text)
        },
        None => None,
    }
}

/// Returns the account identifier after the environment was read.
pub fn resolve_account_id(
    current: Option<String>,
    first: Option<String>,
    second: Option<String>,
) -> (id: Option<String>)
    ensures
        opt_text(id) == account_id_after(opt_text(current), opt_text(first), opt_text(second)),
{
    match current {
        Some(id) => Some(id),
        None => match not_blank(first) {
            Some(id) => Some(id),
            None => not_blank(second),
        },
    }
}

fn copy_events(events: &Vec<EarningsEvent>) -> (copy: Vec<EarningsEvent>)
    ensures
        copy@ == events@,
{
    let mut copy: Vec<EarningsEvent> = Vec::new();
    let n: usize = events.len();
    for i in 0..n
        invariant
            n == events@.len(),
            copy@ == events@.take(i as int),
    {
        let event = &events[i];
        copy.push(
            EarningsEvent {
                underlying: event.underlying.clone(),
                report_date: event.report_date,
                timing: event.timing.clone(),
                source: event.source.clone(),
            },
        );
        assert(copy@ =~= events@.take(i + 1));
    }
    assert(events@.take(n as int) =~= events@);
    copy
}

impl EntryAdmissionConfig {
    /// Builds entry-admission config from the runtime config.
    #[must_use]
    pub fn from_runtime_config(engine: &AlpacaOptionsRuntimeConfig) -> (config: EntryAdmissionConfig)
        ensures
            admission_of(config, *engine),
    {
        let mut config = EntryAdmissionConfig::default();
        config.submit_enabled = engine.open_orders_enabled;
        config.dry_run_strategy_family_names = engine.dry_run_labels();
        config.kill_switch = engine.kill_switch;
        config.ignore_entry_window = engine.ignore_entry_window;
        config.entry_window =
        MarketWindow {
            start: engine.entry_start,
            end: engine.entry_end,
            zone: engine.entry_timezone.clone(),
        };
        config.max_active_entries = engine.max_active_entries;
        config.max_daily_submits = engine.max_daily_submits;
        config.max_open_orders = engine.max_open_orders;
        config.max_active_entries_per_underlying = engine.max_active_entries_per_underlying;
        config.max_active_entries_per_sector = engine.max_active_entries_per_sector;
        config.quantity = engine.quantity;
        config.max_single_entry_risk_capital_usd =
        copy_figure(&engine.max_single_entry_risk_capital_usd);
        config.max_portfolio_risk_capital_usd = copy_figure(&engine.max_portfolio_risk_capital_usd);
        config.block_unestimated_risk_capital = engine.block_unestimated_risk_capital;
        config.event_shock_earnings_events = copy_events(&engine.event_shock_earnings_events);
        config.event_shock_block_days_before_earnings =
        engine.event_shock_block_days_before_earnings;
        config.event_shock_block_days_after_earnings = engine.event_shock_block_days_after_earnings;
        config.sectors = engine.sectors.copy();
        match &engine.fleet {
            Some(fleet) => {
                config.fleet_max_active_entries = fleet.max_active_entries;
                config.fleet_active_entries = fleet.active_entries;
                config.fleet_max_active_entries_per_underlying =
                fleet.max_active_entries_per_underlying;
                config.fleet_active_entries_by_underlying =
                fleet.active_entries_by_underlying.copy();
                config.fleet_max_active_entries_per_sector = fleet.max_active_entries_per_sector;
                config.fleet_sectors = fleet.sectors.copy();
                config.fleet_active_entries_by_sector = fleet.active_entries_by_sector.copy();
            },
            None => {},
        }
        config
    }
}

impl AlpacaOptionsManagementConfig {
    /// Builds strategy management settings from the runtime config.
    #[must_use]
    pub fn from_runtime_config(config: &AlpacaOptionsRuntimeConfig) -> (management: AlpacaOptionsManagementConfig)
        ensures
            management_of(management, *config),
    {
        AlpacaOptionsManagementConfig {
            interval_secs: config.interval_secs,
            close_orders_enabled: config.close_orders_enabled,
            close_order_mode: config.close_order_mode,
            force_flatten: config.force_flatten,
            stale_entry_secs: config.stale_entry_secs,
            stale_close_secs: config.stale_close_secs,
            close_regular_hours_only: config.close_regular_hours_only,
            close_window: MarketWindow {
                start: config.close_start,
                end: config.close_end,
                zone: config.entry_timezone.clone(),
            },
            close_price_cushion: config.close_price_cushion,
            close_reprice_step: config.close_reprice_step,
            max_close_price_cushion: config.max_close_price_cushion,
            max_close_attempts: config.max_close_attempts,
            close_reprice_cooldown_secs: config.close_reprice_cooldown_secs,
            active_risk_candidate_quote_limit: config.active_risk_candidate_quote_limit,
            active_risk_quote_stale_secs: config.active_risk_quote_stale_secs,
            profit_target_close_fraction: config.profit_target_close_fraction,
            stop_loss_close_multiple: config.stop_loss_close_multiple,
            max_hold_secs: config.max_hold_secs,
            expiration_exit_days: config.expiration_exit_days,
        }
    }
}

impl AlpacaOptionsAccountStrategyConfig {
    /// Builds a config from a contract quantity.
    #[must_use]
    pub fn new(quantity: u64) -> (config: AlpacaOptionsAccountStrategyConfig)
        ensures
            config.quantity == quantity,
            default_admission(config.admission),
            config.lifecycle_risk is None,
            default_management(config.management),
    {
        AlpacaOptionsAccountStrategyConfig {
            quantity,
            admission: EntryAdmissionConfig::default(),
            lifecycle_risk: None,
            management: AlpacaOptionsManagementConfig::default(),
        }
    }

    /// Builds a strategy config from the runtime config.
    #[must_use]
    pub fn from_runtime_config(engine: &AlpacaOptionsRuntimeConfig) -> (config: AlpacaOptionsAccountStrategyConfig)
        ensures
            config.quantity == engine.quantity,
            admission_of(config.admission, *engine),
            config.lifecycle_risk is None,
            management_of(config.management, *engine),
    {
        AlpacaOptionsAccountStrategyConfig {
            quantity: engine.quantity,
            admission: EntryAdmissionConfig::from_runtime_config(engine),
            lifecycle_risk: None,
            management: AlpacaOptionsManagementConfig::from_runtime_config(engine),
        }
    }
}

impl AlpacaOptionsEntryStrategyConfig {
    /// Builds a strategy config from the runtime config.
    #[must_use]
    pub fn from_engine_config(engine: &AlpacaOptionsRuntimeConfig) -> (config: AlpacaOptionsEntryStrategyConfig)
        ensures
            config.quantity == engine.quantity,
            config.submit_enabled == engine.open_orders_enabled,
            config.dry_run_strategy_names.wf(),
            forall|name: Seq<char>| #[trigger]
                config.dry_run_strategy_names.has(name) <==> is_dry_run_label(
                    engine.strategy_profiles@,
                    name,
                ),
            config.kill_switch == engine.kill_switch,
            config.ignore_entry_window == engine.ignore_entry_window,
            config.entry_window.start == engine.entry_start,
            config.entry_window.end == engine.entry_end,
            config.entry_window.zone@ == engine.entry_timezone@,
    {
        AlpacaOptionsEntryStrategyConfig {
            quantity: engine.quantity,
            submit_enabled: engine.open_orders_enabled,
            dry_run_strategy_names: engine.dry_run_labels(),
            kill_switch: engine.kill_switch,
            ignore_entry_window: engine.ignore_entry_window,
            entry_window: MarketWindow {
                start: engine.entry_start,
                end: engine.entry_end,
                zone: engine.entry_timezone.clone(),
            },
        }
    }
}

fn copy_items<T: Copy>(items: &Vec<T>) -> (copy: Vec<T>)
    ensures
        copy@ == items@,
{
    let mut copy: Vec<T> = Vec::new();
    let n: usize = items.len();
    for i in 0..n
        invariant
            n == items@.len(),
            copy@ == items@.take(i as int),
    {
        copy.push(items[i]);
        assert(copy@ =~= items@.take(i + 1));
    }
    assert(items@.take(n as int) =~= items@);
    copy
}

/// Builds read-only option-chain scanner settings from the runtime config.
#[must_use]
pub fn option_chain_scan_config_from_engine(config: &AlpacaOptionsRuntimeConfig) -> (scan: OptionChainOpportunityScanConfig)
    ensures
        scan.spread_kinds@ == config.spread_kinds@,
        scan.iron_condor_enabled == config.iron_condor_enabled,
        scan.debit_kinds@ == config.debit_kinds@,
        scan.naked_kinds@ == config.naked_kinds@,
        scan.quantity == config.quantity,
{
    OptionChainOpportunityScanConfig {
        spread_kinds: copy_items(&config.spread_kinds),
        iron_condor_enabled: config.iron_condor_enabled,
        debit_kinds: copy_items(&config.debit_kinds),
        naked_kinds: copy_items(&config.naked_kinds),
        quantity: config.quantity,
    }
}

/// An engine that must not open orders is converted into gates that never submit.
pub proof fn disabled_engines_never_submit(
    engine: AlpacaOptionsRuntimeConfig,
    config: EntryAdmissionConfig,
    strategy: Seq<char>,
)
    requires
        admission_of(config, engine),
        !engine.open_orders_enabled,
    ensures
        !may_submit(config, strategy),
{
}

/// A strategy with a dry-run profile is never submitted.
pub proof fn dry_run_profiles_never_submit(
    engine: AlpacaOptionsRuntimeConfig,
    config: EntryAdmissionConfig,
    i: int,
)
    requires
        admission_of(config, engine),
        0 <= i < engine.strategy_profiles@.len(),
        engine.strategy_profiles@[i].mode is DryRun,
    ensures
        !may_submit(config, engine.strategy_profiles@[i].family.label()),
{
    let name = engine.strategy_profiles@[i].family.label();
    assert(is_dry_run_label(engine.strategy_profiles@, name));
    assert(config.dry_run_strategy_family_names.has(name));
}

} // verus!
