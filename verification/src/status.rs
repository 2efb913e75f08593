//! Operator status of the supervised options engine.
use vstd::prelude::*;

use crate::alerts::alert_views;
use crate::alerts::any_critical;
use crate::alerts::build_alerts;
use crate::alerts::by_severity;
use crate::alerts::has_critical;
use crate::alerts::lifecycle_block_text;
use crate::alerts::raised_alerts;
use crate::alerts::sort_alerts;
use crate::alerts::AlertInputs;
use crate::alerts::OperatorAlert;
use crate::amount::Amount;
use crate::broker::AlpacaAccount;
use crate::broker::AlpacaActivity;
use crate::broker::AlpacaOrder;
use crate::broker::AlpacaPosition;
use crate::calendar::elapsed_nanos;
use crate::calendar::instant_in;
use crate::calendar::instant_text;
use crate::calendar::nanos_since;
use crate::calendar::parse_instant;
use crate::calendar::rfc3339_writing;
use crate::calendar::NANOS_PER_SEC;
use crate::calendar::UtcInstant;
use crate::evidence::chars_or;
use crate::evidence::covers_regime;
use crate::evidence::has_type;
use crate::evidence::in_range;
use crate::evidence::is_ledger_alert;
use crate::evidence::last_where;
use crate::evidence::last_where_bounds;
use crate::evidence::latest_candidate_ledger_alert;
use crate::evidence::latest_candidate_ledger_record;
use crate::evidence::latest_event;
use crate::evidence::latest_value;
use crate::evidence::opt_position;
use crate::evidence::regime_coverage_status;
use crate::evidence::regime_evidence;
use crate::evidence::scan_record;
use crate::evidence::text_or_default;
use crate::evidence::Evidence;
use crate::evidence::EvidenceRef;
use crate::evidence::RegimeCoverageStatus;
use crate::fields::text_or_null;
use crate::fields::Fields;
use crate::json::Json;
use crate::json::JsonTree;
use crate::orders::OptionSpreadPlan;
use crate::preview::build_spread_reconciliation_preview;
use crate::preview::count_multi_leg_orders;
use crate::preview::multi_leg_orders;
use crate::preview::shows_everything;
use crate::preview::sums_up;
use crate::preview::BrokerSymbols;
use crate::preview::ExpectedSpread;
use crate::preview::SpreadReconciliationPreview;
use crate::state::active_entries;
use crate::state::counted_on;
use crate::state::sector_for;
use crate::state::sector_of;
use crate::state::StrategyState;
use crate::state::StrategyStateEntry;
use crate::text::comes_before;
use crate::text::copy_opt;
use crate::text::copy_texts;
use crate::text::is_blank;
use crate::text::is_text;
use crate::text::opt_text;
use crate::text::slices;
use crate::text::text_lt;
use crate::text::text_lt_irreflexive;
use crate::text::text_lt_total;
use crate::text::text_lt_transitive;
use crate::text::texts;
use crate::text::trimmed;
use crate::text_map::count_at;
use crate::text_map::TextMap;
use crate::text_set::filter_step;
use crate::text_set::TextSet;

verus! {

/// Metadata of the stored strategy state.
#[derive(Clone, Debug)]
pub struct StrategyStateMetadata {
    /// Version.
    pub version: i64,
    /// Writer ID.
    pub writer_id: Option<String>,
    /// Run ID.
    pub run_id: Option<String>,
    /// ID of the last event.
    pub last_event_id: Option<String>,
}

/// State of the operational store.
#[derive(Clone, Debug)]
pub struct OperationalStoreStatus {
    /// Whether the store is in use.
    pub enabled: bool,
    /// Schema.
    pub schema: String,
    /// Number of applied migrations.
    pub applied_migrations: Option<i64>,
    /// Version of the latest migration.
    pub latest_migration_version: Option<i64>,
    /// Version of a migration that failed halfway.
    pub dirty_migration_version: Option<i64>,
}

/// Configuration of the status command.
#[derive(Clone, Debug)]
pub struct OperatorConfig {
    /// Service name.
    pub service_name: String,
    /// Path of the strategy state.
    pub state_path: String,
    /// Path of the log.
    pub log_path: String,
    /// Path of the lock file.
    pub lock_path: String,
    /// Age in seconds past which a working order is stale.
    pub stale_order_secs: i64,
    /// Close attempts allowed per entry, zero for no limit.
    pub max_close_attempts: u32,
    /// Market trade date.
    pub trade_date: String,
    /// Whether orders may open risk.
    pub open_orders_enabled: bool,
    /// Whether orders may close risk.
    pub close_orders_enabled: bool,
    /// Order path of closes.
    pub close_order_mode: String,
    /// Strategy families that run dry.
    pub dry_run_families: Vec<String>,
    /// Cap on active entries.
    pub max_active_entries: Option<usize>,
    /// Cap on daily submissions.
    pub max_daily_submits: Option<usize>,
    /// Cap on open orders.
    pub max_open_orders: Option<usize>,
    /// Cap on active entries per underlying.
    pub max_active_entries_per_underlying: Option<usize>,
    /// Cap on active entries per sector.
    pub max_active_entries_per_sector: Option<usize>,
    /// Sectors by underlying.
    pub sectors: TextMap<String>,
    /// Fleet account ID.
    pub fleet_account_id: Option<String>,
    /// Fleet policies that block new entries.
    pub fleet_policy_blocks: Vec<String>,
    /// Operational store.
    pub operational_store: OperationalStoreStatus,
    /// Metadata of the stored strategy state.
    pub strategy_state_metadata: Option<StrategyStateMetadata>,
}

/// What the host says of the service.
#[derive(Clone, Debug)]
pub struct HostFacts {
    /// Whether the service is active.
    pub service_active: Option<bool>,
    /// State of the service.
    pub service_active_state: Option<String>,
    /// Whether the lock file exists.
    pub lock_file_exists: bool,
    /// Whether the log exists.
    pub log_file_exists: bool,
    /// Whether the strategy state file exists.
    pub state_file_exists: bool,
}

/// What the engine is doing.
#[derive(Clone, Copy, Debug, PartialEq, Eq, Structural)]
pub enum EngineState {
    /// Nothing is open.
    Idle,
    /// Orders or positions are open.
    Trading,
    /// New risk is not allowed.
    Blocked,
    /// The operator has to act.
    Broken,
}

/// State of the service.
#[derive(Clone, Debug)]
pub struct ServiceStatus {
    /// Name.
    pub name: String,
    /// Fleet account ID.
    pub fleet_account_id: Option<String>,
    /// Whether the service is active.
    pub active: Option<bool>,
    /// State of the service.
    pub active_state: Option<String>,
    /// Path of the lock file.
    pub lock_file: String,
    /// Whether the lock file exists.
    pub lock_file_exists: bool,
    /// Path of the log.
    pub log_file: String,
    /// Whether the log exists.
    pub log_file_exists: bool,
    /// Whether orders may open risk.
    pub open_orders_enabled: bool,
    /// Whether orders may close risk.
    pub close_orders_enabled: bool,
    /// Order path of closes.
    pub close_order_mode: String,
    /// Strategy families that run dry.
    pub dry_run_families: Vec<String>,
}

/// State of the account.
#[derive(Clone, Debug)]
pub struct AccountStatus {
    /// Status.
    pub status: String,
    /// Currency.
    pub currency: String,
    /// Whether trading is blocked.
    pub trading_blocked: bool,
    /// Whether transfers are blocked.
    pub transfers_blocked: bool,
    /// Whether the account is blocked.
    pub account_blocked: bool,
    /// Whether the user suspended trading.
    pub trade_suspended_by_user: bool,
    /// Buying power.
    pub buying_power: String,
    /// Options buying power.
    pub options_buying_power: String,
    /// Approved options level.
    pub options_approved_level: Option<u8>,
    /// Options trading level.
    pub options_trading_level: Option<u8>,
    /// Portfolio value.
    pub portfolio_value: String,
    /// Cash.
    pub cash: String,
}

/// Numbers of orders.
#[derive(Clone, Copy, Debug, PartialEq, Eq, Structural)]
pub struct OrdersStatus {
    /// Open orders.
    pub open: usize,
    /// Open multi-leg orders.
    pub open_mleg: usize,
    /// Legs of open orders.
    pub nested_legs: usize,
    /// Working orders that are stale.
    pub stale_working: usize,
    /// Working orders that are partly filled.
    pub partial_filled: usize,
    /// Accepted orders without a fill.
    pub accepted_not_filled: usize,
    /// Recent orders that were rejected.
    pub recent_rejected: usize,
}

/// Numbers of positions.
#[derive(Clone, Copy, Debug, PartialEq, Eq, Structural)]
pub struct PositionsStatus {
    /// All positions.
    pub total: usize,
    /// Option positions.
    pub options: usize,
    /// Equity positions.
    pub equities: usize,
    /// Positions that no active entry accounts for.
    pub unmanaged: usize,
}

/// State of the strategy state.
#[derive(Clone, Debug)]
pub struct StrategyStateStatus {
    /// Path.
    pub path: String,
    /// Whether it exists.
    pub exists: bool,
    /// Stored version.
    pub db_version: Option<i64>,
    /// Stored writer ID.
    pub db_writer_id: Option<String>,
    /// Stored run ID.
    pub db_run_id: Option<String>,
    /// Stored ID of the last event.
    pub db_last_event_id: Option<String>,
    /// All entries.
    pub entries: usize,
    /// Active entries.
    pub active_entries: usize,
    /// Closed entries.
    pub closed_entries: usize,
    /// Canceled entries.
    pub canceled_entries: usize,
    /// Latest time of a record.
    pub last_recorded_at_utc: Option<String>,
}

/// Risk counts and their caps.
#[derive(Clone, Debug)]
pub struct RiskStatus {
    /// Market trade date.
    pub trade_date: String,
    /// Active entries.
    pub active_entries: usize,
    /// Cap on active entries.
    pub max_active_entries: Option<usize>,
    /// Submissions of the trade date.
    pub daily_submits: usize,
    /// Cap on daily submissions.
    pub max_daily_submits: Option<usize>,
    /// Open orders.
    pub open_orders: usize,
    /// Cap on open orders.
    pub max_open_orders: Option<usize>,
    /// Active entries by underlying.
    pub active_entries_by_underlying: TextMap<usize>,
    /// Cap on active entries per underlying.
    pub max_active_entries_per_underlying: Option<usize>,
    /// Active entries by sector.
    pub active_entries_by_sector: TextMap<usize>,
    /// Cap on active entries per sector.
    pub max_active_entries_per_sector: Option<usize>,
}

/// An active entry.
#[derive(Clone, Debug)]
pub struct ActiveEntryStatus {
    /// Underlying symbol.
    pub underlying: String,
    /// Strategy name.
    pub strategy: String,
    /// Leg symbols.
    pub symbols: Vec<String>,
    /// Entry credit.
    pub credit: Amount,
    /// Entry debit.
    pub debit: Option<Amount>,
    /// Whether the entry was made for a credit or a debit.
    pub net_premium_kind: &'static str,
    /// Scanner score.
    pub score: Amount,
    /// Reason for the close.
    pub close_reason: Option<String>,
    /// Order-list ID of the working close.
    pub close_order_list_id: Option<String>,
    /// Order path of the close.
    pub close_order_mode: Option<String>,
    /// Identifier of the spread instrument.
    pub spread_instrument_id: Option<String>,
    /// Symbol of the spread instrument.
    pub spread_raw_symbol: Option<String>,
    /// Accepted close submissions.
    pub close_attempts: u32,
    /// Time of the last close submission.
    pub last_close_submitted_at_utc: Option<String>,
    /// Time of the record.
    pub recorded_at_utc: String,
}

/// The latest pieces of evidence of each kind.
#[derive(Clone, Copy, Debug, PartialEq, Eq, Structural)]
pub struct LatestEvidence {
    /// Last scan.
    pub scan: Option<EvidenceRef>,
    /// Last scanner diagnostic.
    pub scanner_diagnostic: Option<usize>,
    /// Last entry decision.
    pub decision: Option<EvidenceRef>,
    /// Last management snapshot.
    pub management_snapshot: Option<usize>,
    /// Last management block.
    pub management_block: Option<usize>,
    /// Last state of the active-risk quote cache.
    pub active_risk_quote_cache: Option<usize>,
    /// Last state of the option market-data stream.
    pub option_market_data_stream: Option<usize>,
    /// Last lifecycle event.
    pub lifecycle_event: Option<usize>,
}

/// The status.
#[derive(Debug)]
pub struct OperatorStatus {
    /// Time of the check, where it has a text.
    pub checked_at_utc: Option<String>,
    /// What the engine is doing.
    pub engine_state: EngineState,
    /// Service.
    pub service: ServiceStatus,
    /// Operational store.
    pub operational_store: OperationalStoreStatus,
    /// Account.
    pub account: AccountStatus,
    /// Orders.
    pub orders: OrdersStatus,
    /// Positions.
    pub positions: PositionsStatus,
    /// Spread preview.
    pub spread_reconciliation_preview: SpreadReconciliationPreview,
    /// Strategy state.
    pub strategy_state: StrategyStateStatus,
    /// Active entries.
    pub active_entries: Vec<ActiveEntryStatus>,
    /// Risk.
    pub risk: RiskStatus,
    /// Regime coverage.
    pub regime_coverage: Option<RegimeCoverageStatus>,
    /// Latest evidence.
    pub latest: LatestEvidence,
    /// Latest sign of the broker.
    pub last_broker_event: Option<Json>,
    /// Alerts, the most serious first.
    pub alerts: Vec<OperatorAlert>,
}

// ---------------------------------------------------------------------------------------------
// Account, orders and positions
// ---------------------------------------------------------------------------------------------

/// Whether a flag is set.
pub open spec fn is_set(flag: Option<bool>) -> bool {
    flag == Some(true)
}

/// Whether a status shows an account.
pub open spec fn shows_account(status: AccountStatus, account: AlpacaAccount) -> bool {
    &&& status.status@ == chars_or(opt_text(account.status), "unknown"@)
    &&& status.currency@ == chars_or(opt_text(account.currency), "unknown"@)
    &&& status.trading_blocked == is_set(account.trading_blocked)
    &&& status.transfers_blocked == is_set(account.transfers_blocked)
    &&& status.account_blocked == is_set(account.account_blocked)
    &&& status.trade_suspended_by_user == is_set(account.trade_suspended_by_user)
    &&& status.buying_power@ == chars_or(opt_text(account.buying_power), "unknown"@)
    &&& status.options_buying_power@ == chars_or(opt_text(account.options_buying_power), "unknown"@)
    &&& status.options_approved_level == account.options_approved_level
    &&& status.options_trading_level == account.options_trading_level
    &&& status.portfolio_value@ == chars_or(opt_text(account.portfolio_value), "unknown"@)
    &&& status.cash@ == chars_or(opt_text(account.cash), "unknown"@)
}

fn flag(value: Option<bool>) -> (set: bool)
    ensures
        set == is_set(value),
{
    match value {
        Some(set) => set,
        None => false,
    }
}

/// Returns the state of an account.
pub fn account_status(account: &AlpacaAccount) -> (status: AccountStatus)
    ensures
        shows_account(status, *account),
{
    AccountStatus {
        status: text_or_default(&account.status, "unknown"),
        currency: text_or_default(&account.currency, "unknown"),
        trading_blocked: flag(account.trading_blocked),
        transfers_blocked: flag(account.transfers_blocked),
        account_blocked: flag(account.account_blocked),
        trade_suspended_by_user: flag(account.trade_suspended_by_user),
        buying_power: text_or_default(&account.buying_power, "unknown"),
        options_buying_power: text_or_default(&account.options_buying_power, "unknown"),
        options_approved_level: account.options_approved_level,
        options_trading_level: account.options_trading_level,
        portfolio_value: text_or_default(&account.portfolio_value, "unknown"),
        cash: text_or_default(&account.cash, "unknown"),
    }
}

/// Whether a working order is older than a number of seconds.
pub open spec fn stale(order: AlpacaOrder, now: UtcInstant, stale_order_secs: int) -> bool {
    order.working && match order.start_text() {
        Some(text) => match instant_in(text) {
            Some(then) => nanos_since(now, then) > stale_order_secs * NANOS_PER_SEC,
            None => false,
        },
        None => false,
    }
}

/// Returns whether a working order is older than a number of seconds.
pub fn order_is_stale(order: &AlpacaOrder, now: UtcInstant, stale_order_secs: i64) -> (yes: bool)
    ensures
        yes == stale(*order, now, stale_order_secs as int),
{
    if !order.working {
        return false;
    }
    match order.start() {
        Some(text) => match parse_instant(text) {
            Some(then) => elapsed_nanos(now, then) > stale_order_secs as i128 * NANOS_PER_SEC,
            None => false,
        },
        None => false,
    }
}

/// Whether a working order is partly filled.
pub open spec fn partly_filled(order: AlpacaOrder) -> bool {
    order.filled.above_zero() && order.working
}

/// Whether an order is accepted without a fill.
pub open spec fn awaits_fill(order: AlpacaOrder) -> bool {
    (opt_text(order.status) == Some("accepted"@) || opt_text(order.status) == Some("new"@))
        && order.filled.magnitude() == 0
}

/// The number of legs of some orders.
pub open spec fn leg_total(orders: Seq<AlpacaOrder>) -> nat
    decreases orders.len(),
{
    if orders.len() == 0 {
        0
    } else {
        leg_total(orders.drop_last()) + match orders.last().legs {
            Some(legs) => legs@.len(),
            None => 0,
        }
    }
}

/// The legs of fewer orders are no more.
proof fn leg_total_grows(orders: Seq<AlpacaOrder>, n: int)
    requires
        0 <= n <= orders.len(),
    ensures
        leg_total(orders.take(n)) <= leg_total(orders),
    decreases orders.len() - n,
{
    if n < orders.len() {
        leg_total_grows(orders, n + 1);
        assert(orders.take(n + 1).drop_last() =~= orders.take(n));
    } else {
        assert(orders.take(n) =~= orders);
    }
}

/// Returns the number of legs of some orders.
pub fn nested_leg_count(orders: &Vec<AlpacaOrder>) -> (count: usize)
    requires
        leg_total(orders@) <= usize::MAX,
    ensures
        count == leg_total(orders@),
{
    let mut count: usize = 0;
    let n: usize = orders.len();
    for i in 0..n
        invariant
            n == orders@.len(),
            leg_total(orders@) <= usize::MAX,
            count == leg_total(orders@.take(i as int)),
    {
        proof {
            let next = orders@.take(i + 1);
            assert(next.drop_last() =~= orders@.take(i as int));
            assert(next.last() == orders@[i as int]);
            leg_total_grows(orders@, i + 1);
        }
        match &orders[i].legs {
            Some(legs) => {
                count += legs.len();
            },
            None => {},
        }
    }
    assert(orders@.take(n as int) =~= orders@);
    count
}

/// The numbers of orders.
pub open spec fn order_numbers(
    open_orders: Seq<AlpacaOrder>,
    recent_orders: Seq<AlpacaOrder>,
    now: UtcInstant,
    stale_order_secs: int,
) -> OrdersStatus {
    OrdersStatus {
        open: open_orders.len() as usize,
        open_mleg: multi_leg_orders(open_orders).len() as usize,
        nested_legs: leg_total(open_orders) as usize,
        stale_working: open_orders.filter(
            |order: AlpacaOrder| stale(order, now, stale_order_secs),
        ).len() as usize,
        partial_filled: open_orders.filter(|order: AlpacaOrder| partly_filled(order)).len() as usize,
        accepted_not_filled: open_orders.filter(
            |order: AlpacaOrder| awaits_fill(order),
        ).len() as usize,
        recent_rejected: recent_orders.filter(
            |order: AlpacaOrder| opt_text(order.status) == Some("rejected"@),
        ).len() as usize,
    }
}

/// Returns the numbers of orders.
pub fn orders_status(
    open_orders: &Vec<AlpacaOrder>,
    recent_orders: &Vec<AlpacaOrder>,
    now: UtcInstant,
    stale_order_secs: i64,
) -> (status: OrdersStatus)
    requires
        leg_total(open_orders@) <= usize::MAX,
    ensures
        status == order_numbers(open_orders@, recent_orders@, now, stale_order_secs as int),
{
    let mut stale_working: usize = 0;
    let mut partial_filled: usize = 0;
    let mut accepted_not_filled: usize = 0;
    let n: usize = open_orders.len();
    for i in 0..n
        invariant
            n == open_orders@.len(),
            stale_working <= i,
            partial_filled <= i,
            accepted_not_filled <= i,
            stale_working == open_orders@.take(i as int).filter(
                |order: AlpacaOrder| stale(order, now, stale_order_secs as int),
            ).len(),
            partial_filled == open_orders@.take(i as int).filter(
                |order: AlpacaOrder| partly_filled(order),
            ).len(),
            accepted_not_filled == open_orders@.take(i as int).filter(
                |order: AlpacaOrder| awaits_fill(order),
            ).len(),
    {
        let order = &open_orders[i];
        proof {
            filter_step(
                open_orders@,
                i as int,
                |order: AlpacaOrder| stale(order, now, stale_order_secs as int),
            );
            filter_step(open_orders@, i as int, |order: AlpacaOrder| partly_filled(order));
            filter_step(open_orders@, i as int, |order: AlpacaOrder| awaits_fill(order));
        }
        if order_is_stale(order, now, stale_order_secs) {
            stale_working += 1;
        }
        if order.filled.is_above_zero() && order.working {
            partial_filled += 1;
        }
        if (is_text(&order.status, "accepted") || is_text(&order.status, "new"))
            && order.filled.is_zero() {
            accepted_not_filled += 1;
        }
    }
    assert(open_orders@.take(n as int) =~= open_orders@);
    let mut recent_rejected: usize = 0;
    let m: usize = recent_orders.len();
    for i in 0..m
        invariant
            m == recent_orders@.len(),
            recent_rejected <= i,
            recent_rejected == recent_orders@.take(i as int).filter(
                |order: AlpacaOrder| opt_text(order.status) == Some("rejected"@),
            ).len(),
    {
        proof {
            filter_step(
                recent_orders@,
                i as int,
                |order: AlpacaOrder| opt_text(order.status) == Some("rejected"@),
            );
        }
        if is_text(&recent_orders[i].status, "rejected") {
            recent_rejected += 1;
        }
    }
    assert(recent_orders@.take(m as int) =~= recent_orders@);
    OrdersStatus {
        open: n,
        open_mleg: count_multi_leg_orders(open_orders),
        nested_legs: nested_leg_count(open_orders),
        stale_working,
        partial_filled,
        accepted_not_filled,
        recent_rejected,
    }
}

/// The positions of an asset class.
pub open spec fn positions_of(positions: Seq<AlpacaPosition>, asset_class: Seq<char>) -> Seq<
    AlpacaPosition,
> {
    positions.filter(|position: AlpacaPosition| opt_text(position.asset_class) == Some(asset_class))
}

/// Whether no active entry accounts for a position.
pub open spec fn unmanaged_position(position: AlpacaPosition, state: StrategyState) -> bool {
    match position.symbol {
        Some(symbol) => !state.has_active_symbol(symbol@),
        None => true,
    }
}

/// Returns the number of positions of an asset class.
pub fn count_asset_class(positions: &Vec<AlpacaPosition>, asset_class: &str) -> (count: usize)
    ensures
        count == positions_of(positions@, asset_class@).len(),
{
    let mut count: usize = 0;
    let n: usize = positions.len();
    for i in 0..n
        invariant
            n == positions@.len(),
            count <= i,
            count == positions_of(positions@.take(i as int), asset_class@).len(),
    {
        proof {
            filter_step(
                positions@,
                i as int,
                |position: AlpacaPosition| opt_text(position.asset_class) == Some(asset_class@),
            );
        }
        if is_text(&positions[i].asset_class, asset_class) {
            count += 1;
        }
    }
    assert(positions@.take(n as int) =~= positions@);
    count
}

/// The numbers of positions.
pub open spec fn position_numbers(positions: Seq<AlpacaPosition>, state: StrategyState) -> PositionsStatus {
    PositionsStatus {
        total: positions.len() as usize,
        options: positions_of(positions, "us_option"@).len() as usize,
        equities: positions_of(positions, "us_equity"@).len() as usize,
        unmanaged: positions.filter(
            |position: AlpacaPosition| unmanaged_position(position, state),
        ).len() as usize,
    }
}

/// Returns the numbers of positions.
pub fn positions_status(positions: &Vec<AlpacaPosition>, state: &StrategyState) -> (status: PositionsStatus)
    ensures
        status == position_numbers(positions@, *state),
{
    let managed: TextSet = state.active_symbols();
    let mut unmanaged: usize = 0;
    let n: usize = positions.len();
    for i in 0..n
        invariant
            n == positions@.len(),
            forall|x: Seq<char>| #[trigger] managed.has(x) <==> state.has_active_symbol(x),
            unmanaged <= i,
            unmanaged == positions@.take(i as int).filter(
                |position: AlpacaPosition| unmanaged_position(position, *state),
            ).len(),
    {
        proof {
            filter_step(
                positions@,
                i as int,
                |position: AlpacaPosition| unmanaged_position(position, *state),
            );
        }
        let known: bool = match &positions[i].symbol {
            Some(symbol) => managed.contains(symbol.as_str()),
            None => false,
        };
        if !known {
            unmanaged += 1;
        }
    }
    assert(positions@.take(n as int) =~= positions@);
    PositionsStatus {
        total: n,
        options: count_asset_class(positions, "us_option"),
        equities: count_asset_class(positions, "us_equity"),
        unmanaged,
    }
}

// ---------------------------------------------------------------------------------------------
// Strategy state and risk
// ---------------------------------------------------------------------------------------------

/// Whether a text is the latest non-blank time of a record.
pub open spec fn is_latest_record(latest: Option<String>, entries: Seq<StrategyStateEntry>) -> bool {
    match latest {
        Some(text) => {
            &&& exists|i: int|
                0 <= i < entries.len() && (#[trigger] entries[i]).recorded_at_utc@ == text@
            &&& trimmed(text@).len() > 0
            &&& forall|i: int|
                0 <= i < entries.len() && trimmed(
                    (#[trigger] entries[i]).recorded_at_utc@,
                ).len() > 0 ==> !text_lt(text@, entries[i].recorded_at_utc@)
        },
        None => forall|i: int|
            0 <= i < entries.len() ==> trimmed((#[trigger] entries[i]).recorded_at_utc@).len() == 0,
    }
}

fn last_recorded(entries: &Vec<StrategyStateEntry>) -> (latest: Option<String>)
    ensures
        is_latest_record(latest, entries@),
{
    let mut latest: Option<String> = None;
    let n: usize = entries.len();
    for i in 0..n
        invariant
            n == entries@.len(),
            is_latest_record(latest, entries@.take(i as int)),
    {
        let text = entries[i].recorded_at_utc.as_str();
        let ghost earlier = entries@.take(i as int);
        let ghost next = entries@.take(i + 1);
        let ghost before = latest;
        assert(next[i as int].recorded_at_utc@ == text@);
        if !is_blank(text) {
            let later: bool = match &latest {
                Some(known) => !comes_before(text, known.as_str()),
                None => true,
            };
            if later {
                latest = Some(entries[i].recorded_at_utc.clone());
            }
        }
        proof {
            assert forall|k: int| 0 <= k < i implies next[k] == #[trigger] earlier[k] by {}
            text_lt_irreflexive(text@);
            match before {
                Some(known) => {
                    let w = choose|k: int|
                        0 <= k < earlier.len() && (#[trigger] earlier[k]).recorded_at_utc@ == known@;
                    assert(next[w].recorded_at_utc@ == known@);
                    text_lt_total(known@, text@);
                    assert forall|k: int|
                        0 <= k < next.len() && trimmed(
                            (#[trigger] next[k]).recorded_at_utc@,
                        ).len() > 0 implies !text_lt(latest->0@, next[k].recorded_at_utc@) by {
                        if k < i {
                            let other = earlier[k].recorded_at_utc@;
                            assert(!text_lt(known@, other));
                            if text_lt(latest->0@, other) && latest->0@ != known@ {
                                text_lt_total(known@, text@);
                                text_lt_transitive(known@, text@, other);
                            }
                        } else if trimmed(text@).len() > 0 && text_lt(latest->0@, text@) {
                            assert(latest == before);
                            text_lt_transitive(known@, text@, known@);
                            text_lt_irreflexive(known@);
                        }
                    }
                },
                None => {
                    assert forall|k: int| 0 <= k < i implies trimmed(
                        (#[trigger] next[k]).recorded_at_utc@,
                    ).len() == 0 by {
                        assert(trimmed(earlier[k].recorded_at_utc@).len() == 0);
                    }
                },
            }
        }
    }
    assert(entries@.take(n as int) =~= entries@);
    latest
}

/// A field of the stored metadata.
pub open spec fn metadata_version(metadata: Option<StrategyStateMetadata>) -> Option<i64> {
    match metadata {
        Some(found) => Some(found.version),
        None => None,
    }
}

/// Whether a status shows the strategy state.
pub open spec fn shows_state(
    status: StrategyStateStatus,
    config: OperatorConfig,
    state_file_exists: bool,
    state: StrategyState,
) -> bool {
    let metadata = config.strategy_state_metadata;
    &&& status.path@ == config.state_path@
    &&& status.exists == (config.operational_store.enabled || state_file_exists)
    &&& status.db_version == metadata_version(metadata)
    &&& status.db_writer_id == match metadata {
        Some(found) => found.writer_id,
        None => None,
    }
    &&& status.db_run_id == match metadata {
        Some(found) => found.run_id,
        None => None,
    }
    &&& status.db_last_event_id == match metadata {
        Some(found) => found.last_event_id,
        None => None,
    }
    &&& status.entries == state.entries@.len()
    &&& status.active_entries == active_entries(state.entries@).len()
    &&& status.closed_entries == state.entries@.filter(
        |entry: StrategyStateEntry| entry.closed,
    ).len()
    &&& status.canceled_entries == state.entries@.filter(
        |entry: StrategyStateEntry| entry.canceled,
    ).len()
    &&& is_latest_record(status.last_recorded_at_utc, state.entries@)
}

/// Returns the state of the strategy state.
pub fn strategy_state_status(
    config: &OperatorConfig,
    state_file_exists: bool,
    state: &StrategyState,
) -> (status: StrategyStateStatus)
    ensures
        shows_state(status, *config, state_file_exists, *state),
{
    let mut closed_entries: usize = 0;
    let mut canceled_entries: usize = 0;
    let n: usize = state.entries.len();
    for i in 0..n
        invariant
            n == state.entries@.len(),
            closed_entries <= i,
            canceled_entries <= i,
            closed_entries == state.entries@.take(i as int).filter(
                |entry: StrategyStateEntry| entry.closed,
            ).len(),
            canceled_entries == state.entries@.take(i as int).filter(
                |entry: StrategyStateEntry| entry.canceled,
            ).len(),
    {
        proof {
            filter_step(state.entries@, i as int, |entry: StrategyStateEntry| entry.closed);
            filter_step(state.entries@, i as int, |entry: StrategyStateEntry| entry.canceled);
        }
        if state.entries[i].closed {
            closed_entries += 1;
        }
        if state.entries[i].canceled {
            canceled_entries += 1;
        }
    }
    assert(state.entries@.take(n as int) =~= state.entries@);
    let (db_version, db_writer_id, db_run_id, db_last_event_id) = match &config.strategy_state_metadata {
        Some(metadata) => (
            Some(metadata.version),
            copy_opt(&metadata.writer_id),
            copy_opt(&metadata.run_id),
            copy_opt(&metadata.last_event_id),
        ),
        None => (None, None, None, None),
    };
    StrategyStateStatus {
        path: config.state_path.clone(),
        exists: config.operational_store.enabled || state_file_exists,
        db_version,
        db_writer_id,
        db_run_id,
        db_last_event_id,
        entries: n,
        active_entries: state.active_count(),
        closed_entries,
        canceled_entries,
        last_recorded_at_utc: last_recorded(&state.entries),
    }
}

/// The active entries with a key.
pub open spec fn active_with_key(
    entries: Seq<StrategyStateEntry>,
    key_of: spec_fn(StrategyStateEntry) -> Option<Seq<char>>,
    key: Seq<char>,
) -> Seq<StrategyStateEntry> {
    entries.filter(
        |entry: StrategyStateEntry| entry.active() && key_of(entry) == Some(key),
    )
}

/// Whether a map counts the active entries by key and holds no other key.
pub open spec fn counts_active(
    counts: TextMap<usize>,
    entries: Seq<StrategyStateEntry>,
    key_of: spec_fn(StrategyStateEntry) -> Option<Seq<char>>,
) -> bool {
    counts.wf() && forall|key: Seq<char>|
        #![trigger counts.at(key)]
        count_at(counts, key) == active_with_key(entries, key_of, key).len() && (counts.at(
            key,
        ) is Some <==> active_with_key(entries, key_of, key).len() > 0)
}

/// Returns the number of active entries by underlying.
pub fn active_entries_by_underlying(state: &StrategyState) -> (counts: TextMap<usize>)
    ensures
        counts_active(
            counts,
            state.entries@,
            |entry: StrategyStateEntry| Some(entry.underlying@),
        ),
{
    let ghost key_of = |entry: StrategyStateEntry| Some(entry.underlying@);
    let mut counts: TextMap<usize> = TextMap::new();
    let n: usize = state.entries.len();
    proof {
        reveal(Seq::filter);
    }
    for i in 0..n
        invariant
            n == state.entries@.len(),
            key_of == (|entry: StrategyStateEntry| Some(entry.underlying@)),
            counts_active(counts, state.entries@.take(i as int), key_of),
    {
        let entry = &state.entries[i];
        let ghost before = counts;
        proof {
            let _ = before.at(entry.underlying@);
            count_stays_below(state.entries@, i as int, key_of, entry.underlying@);
        }
        if entry.is_active() {
            counts.add_count(entry.underlying.as_str(), 1);
        }
        proof {
            count_step(before, counts, state.entries@, i as int, key_of);
        }
    }
    assert(state.entries@.take(n as int) =~= state.entries@);
    counts
}

/// No more entries have a key than there are entries.
proof fn count_stays_below(
    entries: Seq<StrategyStateEntry>,
    i: int,
    key_of: spec_fn(StrategyStateEntry) -> Option<Seq<char>>,
    key: Seq<char>,
)
    requires
        0 <= i <= entries.len(),
    ensures
        active_with_key(entries.take(i), key_of, key).len() <= i,
    decreases i,
{
    reveal(Seq::filter);
    if i > 0 {
        count_stays_below(entries, i - 1, key_of, key);
        filter_step(
            entries,
            i - 1,
            |entry: StrategyStateEntry| entry.active() && key_of(entry) == Some(key),
        );
    }
}

/// Counting one entry more keeps the counts right.
proof fn count_step(
    before: TextMap<usize>,
    after: TextMap<usize>,
    entries: Seq<StrategyStateEntry>,
    i: int,
    key_of: spec_fn(StrategyStateEntry) -> Option<Seq<char>>,
)
    requires
        0 <= i < entries.len(),
        entries.len() <= usize::MAX,
        counts_active(before, entries.take(i), key_of),
        after.wf(),
        !entries[i].active() || key_of(entries[i]) is None ==> after == before,
        entries[i].active() && key_of(entries[i]) is Some ==> after.at(key_of(entries[i])->0) == Some(
            (count_at(before, key_of(entries[i])->0) + 1) as usize,
        ) && (forall|key: Seq<char>|
            key != key_of(entries[i])->0 ==> #[trigger] after.at(key) == before.at(key)),
    ensures
        counts_active(after, entries.take(i + 1), key_of),
{
    assert forall|key: Seq<char>|
        #![trigger after.at(key)]
        count_at(after, key) == active_with_key(entries.take(i + 1), key_of, key).len() && (after.at(
            key,
        ) is Some <==> active_with_key(entries.take(i + 1), key_of, key).len() > 0) by {
        filter_step(
            entries,
            i,
            |entry: StrategyStateEntry| entry.active() && key_of(entry) == Some(key),
        );
        count_stays_below(entries, i, key_of, key);
        let _ = before.at(key);
        assert(count_at(before, key) == active_with_key(entries.take(i), key_of, key).len());
    }
}

/// Returns the number of active entries by sector.
pub fn active_entries_by_sector(state: &StrategyState, sectors: &TextMap<String>) -> (counts: TextMap<
    usize,
>)
    ensures
        counts_active(
            counts,
            state.entries@,
            |entry: StrategyStateEntry| sector_of(*sectors, entry.underlying@),
        ),
{
    let ghost key_of = |entry: StrategyStateEntry| sector_of(*sectors, entry.underlying@);
    let mut counts: TextMap<usize> = TextMap::new();
    let n: usize = state.entries.len();
    proof {
        reveal(Seq::filter);
    }
    for i in 0..n
        invariant
            n == state.entries@.len(),
            key_of == (|entry: StrategyStateEntry| sector_of(*sectors, entry.underlying@)),
            counts_active(counts, state.entries@.take(i as int), key_of),
    {
        let entry = &state.entries[i];
        let ghost before = counts;
        if entry.is_active() {
            match sector_for(sectors, entry.underlying.as_str()) {
                Some(sector) => {
                    proof {
                        let _ = before.at(sector@);
                        count_stays_below(state.entries@, i as int, key_of, sector@);
                    }
                    counts.add_count(sector, 1);
                },
                None => {},
            }
        }
        proof {
            count_step(before, counts, state.entries@, i as int, key_of);
        }
    }
    assert(state.entries@.take(n as int) =~= state.entries@);
    counts
}

/// Whether a status shows an active entry.
pub open spec fn shows_entry(status: ActiveEntryStatus, entry: StrategyStateEntry) -> bool {
    &&& status.underlying == entry.underlying
    &&& status.strategy == entry.strategy
    &&& texts(status.symbols@) == entry.leg_symbols()
    &&& status.credit == entry.credit
    &&& status.debit == entry.debit
    &&& status.net_premium_kind@ == if entry.debit_spread() {
        "debit"@
    } else {
        "credit"@
    }
    &&& status.score == entry.score
    &&& status.close_reason == entry.close_reason
    &&& status.close_order_list_id == entry.close_order_list_id
    &&& status.close_order_mode == entry.close_order_mode
    &&& status.spread_instrument_id == entry.spread_instrument_id
    &&& status.spread_raw_symbol == entry.spread_raw_symbol
    &&& status.close_attempts == entry.close_attempts
    &&& status.last_close_submitted_at_utc == entry.last_close_submitted_at_utc
    &&& status.recorded_at_utc == entry.recorded_at_utc
}

/// Whether statuses show the active entries in order.
pub open spec fn shows_entries(
    statuses: Seq<ActiveEntryStatus>,
    entries: Seq<StrategyStateEntry>,
) -> bool {
    statuses.len() == active_entries(entries).len() && forall|i: int|
        0 <= i < statuses.len() ==> shows_entry(#[trigger] statuses[i], active_entries(entries)[i])
}

fn owned_symbols(entry: &StrategyStateEntry) -> (items: Vec<String>)
    ensures
        texts(items@) == entry.leg_symbols(),
{
    let symbols = entry.symbols();
    let mut items: Vec<String> = Vec::new();
    let n: usize = symbols.len();
    for i in 0..n
        invariant
            n == symbols@.len(),
            items@.len() == i,
            forall|k: int| 0 <= k < i ==> (#[trigger] items@[k])@ == symbols@[k]@,
    {
        items.push(symbols[i].to_owned());
    }
    assert(texts(items@) =~= slices(symbols@));
    items
}

fn active_entry_status(entry: &StrategyStateEntry) -> (status: ActiveEntryStatus)
    ensures
        shows_entry(status, *entry),
{
    ActiveEntryStatus {
        underlying: entry.underlying.clone(),
        strategy: entry.strategy.clone(),
        symbols: owned_symbols(entry),
        credit: entry.credit,
        debit: entry.debit,
        net_premium_kind: if entry.is_debit_spread() {
            "debit"
        } else {
            "credit"
        },
        score: entry.score,
        close_reason: copy_opt(&entry.close_reason),
        close_order_list_id: copy_opt(&entry.close_order_list_id),
        close_order_mode: copy_opt(&entry.close_order_mode),
        spread_instrument_id: copy_opt(&entry.spread_instrument_id),
        spread_raw_symbol: copy_opt(&entry.spread_raw_symbol),
        close_attempts: entry.close_attempts,
        last_close_submitted_at_utc: copy_opt(&entry.last_close_submitted_at_utc),
        recorded_at_utc: entry.recorded_at_utc.clone(),
    }
}

/// Returns the active entries.
pub fn active_entry_statuses(state: &StrategyState) -> (statuses: Vec<ActiveEntryStatus>)
    ensures
        shows_entries(statuses@, state.entries@),
{
    let mut statuses: Vec<ActiveEntryStatus> = Vec::new();
    let n: usize = state.entries.len();
    proof {
        reveal(Seq::filter);
    }
    for i in 0..n
        invariant
            n == state.entries@.len(),
            shows_entries(statuses@, state.entries@.take(i as int)),
    {
        proof {
            filter_step(state.entries@, i as int, |entry: StrategyStateEntry| entry.active());
        }
        if state.entries[i].is_active() {
            statuses.push(active_entry_status(&state.entries[i]));
        }
    }
    assert(state.entries@.take(n as int) =~= state.entries@);
    statuses
}

/// Whether a status shows the risk counts and caps.
pub open spec fn shows_risk(
    risk: RiskStatus,
    config: OperatorConfig,
    state: StrategyState,
    open_orders: int,
) -> bool {
    &&& risk.trade_date@ == config.trade_date@
    &&& risk.active_entries == active_entries(state.entries@).len()
    &&& risk.max_active_entries == config.max_active_entries
    &&& risk.daily_submits == counted_on(state.entries@, config.trade_date@).len()
    &&& risk.max_daily_submits == config.max_daily_submits
    &&& risk.open_orders == open_orders
    &&& risk.max_open_orders == config.max_open_orders
    &&& counts_active(
        risk.active_entries_by_underlying,
        state.entries@,
        |entry: StrategyStateEntry| Some(entry.underlying@),
    )
    &&& risk.max_active_entries_per_underlying == config.max_active_entries_per_underlying
    &&& counts_active(
        risk.active_entries_by_sector,
        state.entries@,
        |entry: StrategyStateEntry| sector_of(config.sectors, entry.underlying@),
    )
    &&& risk.max_active_entries_per_sector == config.max_active_entries_per_sector
}

/// Returns the risk counts and caps.
pub fn risk_status(config: &OperatorConfig, state: &StrategyState, open_orders: usize) -> (risk: RiskStatus)
    ensures
        shows_risk(risk, *config, *state, open_orders as int),
{
    RiskStatus {
        trade_date: config.trade_date.clone(),
        active_entries: state.active_count(),
        max_active_entries: config.max_active_entries,
        daily_submits: state.risk_counted_daily_submits(config.trade_date.as_str()),
        max_daily_submits: config.max_daily_submits,
        open_orders,
        max_open_orders: config.max_open_orders,
        active_entries_by_underlying: active_entries_by_underlying(state),
        max_active_entries_per_underlying: config.max_active_entries_per_underlying,
        active_entries_by_sector: active_entries_by_sector(state, &config.sectors),
        max_active_entries_per_sector: config.max_active_entries_per_sector,
    }
}

/// Whether a status shows the service.
pub open spec fn shows_service(
    service: ServiceStatus,
    config: OperatorConfig,
    host: HostFacts,
) -> bool {
    &&& service.name@ == config.service_name@
    &&& service.fleet_account_id == config.fleet_account_id
    &&& service.active == host.service_active
    &&& service.active_state == host.service_active_state
    &&& service.lock_file@ == config.lock_path@
    &&& service.lock_file_exists == host.lock_file_exists
    &&& service.log_file@ == config.log_path@
    &&& service.log_file_exists == host.log_file_exists
    &&& service.open_orders_enabled == config.open_orders_enabled
    &&& service.close_orders_enabled == config.close_orders_enabled
    &&& service.close_order_mode@ == config.close_order_mode@
    &&& texts(service.dry_run_families@) == texts(config.dry_run_families@)
}

/// Returns the state of the service.
pub fn service_status(config: &OperatorConfig, host: &HostFacts) -> (service: ServiceStatus)
    ensures
        shows_service(service, *config, *host),
{
    ServiceStatus {
        name: config.service_name.clone(),
        fleet_account_id: copy_opt(&config.fleet_account_id),
        active: host.service_active,
        active_state: copy_opt(&host.service_active_state),
        lock_file: config.lock_path.clone(),
        lock_file_exists: host.lock_file_exists,
        log_file: config.log_path.clone(),
        log_file_exists: host.log_file_exists,
        open_orders_enabled: config.open_orders_enabled,
        close_orders_enabled: config.close_orders_enabled,
        close_order_mode: config.close_order_mode.clone(),
        dry_run_families: copy_texts(&config.dry_run_families),
    }
}

// ---------------------------------------------------------------------------------------------
// Evidence
// ---------------------------------------------------------------------------------------------

/// The position of the last event of a type.
pub open spec fn last_of(events: Seq<Evidence>, event_type: Seq<char>) -> Option<int> {
    last_where(events, |value: Json| has_type(value, event_type))
}

/// The place of a piece of evidence.
#[verifier::ext_equal]
pub enum Place {
    /// Position among the events.
    Event(int),
    /// Position among the candidate-ledger records.
    Record(int),
}

/// The place of a reference.
pub open spec fn place_of(at: Option<EvidenceRef>) -> Option<Place> {
    match at {
        Some(EvidenceRef::Event(i)) => Some(Place::Event(i as int)),
        Some(EvidenceRef::Record(i)) => Some(Place::Record(i as int)),
        None => None,
    }
}

/// The first of three finds: an event, a ledger record, another event.
pub open spec fn first_place(event: Option<int>, record: Option<int>, other: Option<int>) -> Option<
    Place,
> {
    match (event, record, other) {
        (Some(i), _, _) => Some(Place::Event(i)),
        (None, Some(i), _) => Some(Place::Record(i)),
        (None, None, Some(i)) => Some(Place::Event(i)),
        (None, None, None) => None,
    }
}

fn first_found(event: Option<usize>, record: Option<usize>, other: Option<usize>) -> (at: Option<
    EvidenceRef,
>)
    ensures
        place_of(at) == first_place(opt_position(event), opt_position(record), opt_position(other)),
        match at {
            Some(EvidenceRef::Event(i)) => event == Some(i) || other == Some(i),
            Some(EvidenceRef::Record(i)) => record == Some(i),
            None => true,
        },
{
    match (event, record, other) {
        (Some(i), _, _) => Some(EvidenceRef::Event(i)),
        (None, Some(i), _) => Some(EvidenceRef::Record(i)),
        (None, None, Some(i)) => Some(EvidenceRef::Event(i)),
        (None, None, None) => None,
    }
}

/// The first of two finds.
pub open spec fn first_find(first: Option<int>, second: Option<int>) -> Option<int> {
    match first {
        Some(i) => Some(i),
        None => second,
    }
}

/// Whether references lead to the latest evidence.
pub open spec fn shows_latest(
    latest: LatestEvidence,
    events: Seq<Evidence>,
    records: Seq<Evidence>,
) -> bool {
    &&& place_of(latest.scan) == first_place(
        last_of(events, "option_chain_candidate_scan"@),
        last_of(records, "scanner_result"@),
        last_of(events, "management_iteration"@),
    )
    &&& in_range(latest.scan, events, records)
    &&& opt_position(latest.scanner_diagnostic) == last_of(events, "scanner_diagnostic"@)
    &&& place_of(latest.decision) == first_place(
        last_of(events, "entry_decision"@),
        last_where(records, |value: Json| is_ledger_alert(value, "selected_candidate"@)),
        last_of(events, "decision"@),
    )
    &&& in_range(latest.decision, events, records)
    &&& opt_position(latest.management_snapshot) == last_of(events, "management_snapshot"@)
    &&& opt_position(latest.management_block) == last_of(events, "management_block"@)
    &&& opt_position(latest.active_risk_quote_cache) == last_of(events, "active_risk_quote_cache"@)
    &&& opt_position(latest.option_market_data_stream) == last_of(
        events,
        "option_market_data_stream"@,
    )
    &&& opt_position(latest.lifecycle_event) == first_find(
        last_of(events, "option_lifecycle_poll"@),
        last_of(events, "option_lifecycle_poll_error"@),
    )
}

/// Finds the latest evidence of each kind.
pub fn latest_evidence(events: &Vec<Evidence>, candidate_ledger_records: &Vec<Evidence>) -> (latest: LatestEvidence)
    ensures
        shows_latest(latest, events@, candidate_ledger_records@),
{
    proof {
        assert forall|event_type: Seq<char>| true implies match #[trigger] last_of(
            events@,
            event_type,
        ) {
            Some(at) => 0 <= at < events@.len(),
            None => true,
        } by {
            last_where_bounds(events@, |value: Json| has_type(value, event_type));
        }
        last_where_bounds(
            candidate_ledger_records@,
            |value: Json| has_type(value, "scanner_result"@),
        );
        last_where_bounds(
            candidate_ledger_records@,
            |value: Json| is_ledger_alert(value, "selected_candidate"@),
        );
    }
    let scan = first_found(
        latest_event(events, "option_chain_candidate_scan"),
        latest_candidate_ledger_record(candidate_ledger_records, "scanner_result"),
        latest_event(events, "management_iteration"),
    );
    let decision = first_found(
        latest_event(events, "entry_decision"),
        latest_candidate_ledger_alert(candidate_ledger_records, "selected_candidate"),
        latest_event(events, "decision"),
    );
    let polled = latest_event(events, "option_lifecycle_poll");
    let lifecycle_event = if polled.is_some() {
        polled
    } else {
        latest_event(events, "option_lifecycle_poll_error")
    };
    LatestEvidence {
        scan,
        scanner_diagnostic: latest_event(events, "scanner_diagnostic"),
        decision,
        management_snapshot: latest_event(events, "management_snapshot"),
        management_block: latest_event(events, "management_block"),
        active_risk_quote_cache: latest_event(events, "active_risk_quote_cache"),
        option_market_data_stream: latest_event(events, "option_market_data_stream"),
        lifecycle_event,
    }
}

/// What is told of an activity as the latest sign of the broker.
pub open spec fn activity_event_tree(activity: AlpacaActivity) -> JsonTree {
    JsonTree::Object(
        seq![
            ("source"@, JsonTree::Text("account_activity"@)),
            ("activity_type"@, text_or_null(opt_text(activity.activity_type))),
            ("symbol"@, text_or_null(opt_text(activity.symbol))),
            ("order_id"@, text_or_null(opt_text(activity.order_id))),
            ("transaction_time"@, text_or_null(opt_text(activity.transaction_time))),
        ],
    )
}

/// What is told of an order as the latest sign of the broker.
pub open spec fn order_event_tree(order: AlpacaOrder) -> JsonTree {
    JsonTree::Object(
        seq![
            ("source"@, JsonTree::Text("order"@)),
            ("id"@, text_or_null(opt_text(order.id))),
            ("client_order_id"@, text_or_null(opt_text(order.client_order_id))),
            ("status"@, text_or_null(opt_text(order.status))),
            ("symbol"@, text_or_null(opt_text(order.symbol))),
            ("updated_at"@, text_or_null(opt_text(order.updated_at))),
            ("submitted_at"@, text_or_null(opt_text(order.submitted_at))),
        ],
    )
}

/// The latest sign of the broker: the first activity, or else the first recent order.
pub open spec fn broker_event_tree(
    orders: Seq<AlpacaOrder>,
    activities: Seq<AlpacaActivity>,
) -> Option<JsonTree> {
    if activities.len() > 0 {
        Some(activity_event_tree(activities[0]))
    } else if orders.len() > 0 {
        Some(order_event_tree(orders[0]))
    } else {
        None
    }
}

/// What an optional payload says.
pub open spec fn opt_tree(payload: Option<Json>) -> Option<JsonTree> {
    match payload {
        Some(found) => Some(found@),
        None => None,
    }
}

/// Returns the latest sign of the broker: the first activity, or else the first recent order.
pub fn latest_broker_event(orders: &Vec<AlpacaOrder>, activities: &Vec<AlpacaActivity>) -> (event: Option<
    Json,
>)
    ensures
        opt_tree(event) == broker_event_tree(orders@, activities@),
{
    if activities.len() > 0 {
        let activity = &activities[0];
        let fields = Fields::new().text("source", "account_activity").opt_text(
            "activity_type",
            &activity.activity_type,
        ).opt_text("symbol", &activity.symbol).opt_text("order_id", &activity.order_id).opt_text(
            "transaction_time",
            &activity.transaction_time,
        );
        assert(fields@ =~= activity_event_tree(activities@[0])->Object_0);
        Some(fields.into_json())
    } else if orders.len() > 0 {
        let order = &orders[0];
        let fields = Fields::new().text("source", "order").opt_text("id", &order.id).opt_text(
            "client_order_id",
            &order.client_order_id,
        ).opt_text("status", &order.status).opt_text("symbol", &order.symbol).opt_text(
            "updated_at",
            &order.updated_at,
        ).opt_text("submitted_at", &order.submitted_at);
        assert(fields@ =~= order_event_tree(orders@[0])->Object_0);
        Some(fields.into_json())
    } else {
        None
    }
}

// ---------------------------------------------------------------------------------------------
// Engine state
// ---------------------------------------------------------------------------------------------

/// What the engine is doing.
pub open spec fn engine_state_of(
    critical: bool,
    open_orders_enabled: bool,
    orders: OrdersStatus,
    positions: PositionsStatus,
    account: AccountStatus,
) -> EngineState {
    if critical {
        EngineState::Broken
    } else if account.trading_blocked || account.trade_suspended_by_user {
        EngineState::Blocked
    } else if orders.open > 0 || positions.total > 0 {
        EngineState::Trading
    } else if !open_orders_enabled {
        EngineState::Blocked
    } else {
        EngineState::Idle
    }
}

/// Returns what the engine is doing.
pub fn classify_engine_state(
    alerts: &Vec<OperatorAlert>,
    open_orders_enabled: bool,
    orders: &OrdersStatus,
    positions: &PositionsStatus,
    account: &AccountStatus,
) -> (state: EngineState)
    ensures
        state == engine_state_of(
            has_critical(alert_views(alerts@)),
            open_orders_enabled,
            *orders,
            *positions,
            *account,
        ),
{
    if any_critical(alerts) {
        EngineState::Broken
    } else if account.trading_blocked || account.trade_suspended_by_user {
        EngineState::Blocked
    } else if orders.open > 0 || positions.total > 0 {
        EngineState::Trading
    } else if !open_orders_enabled {
        EngineState::Blocked
    } else {
        EngineState::Idle
    }
}

// ---------------------------------------------------------------------------------------------
// The whole status
// ---------------------------------------------------------------------------------------------

/// What the broker says.
#[derive(Clone, Copy)]
pub struct BrokerInputs<'a> {
    /// Account.
    pub account: &'a AlpacaAccount,
    /// Positions.
    pub positions: &'a Vec<AlpacaPosition>,
    /// Open orders.
    pub open_orders: &'a Vec<AlpacaOrder>,
    /// Recent orders.
    pub recent_orders: &'a Vec<AlpacaOrder>,
    /// Recent activities.
    pub activities: &'a Vec<AlpacaActivity>,
}

/// What was recorded.
#[derive(Clone, Copy)]
pub struct RecordInputs<'a> {
    /// Strategy state.
    pub state: &'a StrategyState,
    /// The spread of each entry that has one.
    pub plans: &'a Vec<Option<OptionSpreadPlan>>,
    /// Events of the log.
    pub events: &'a Vec<Evidence>,
    /// Candidate-ledger records.
    pub candidate_ledger_records: &'a Vec<Evidence>,
}

/// Whether a preview maps the broker onto the strategy state.
pub open spec fn shows_preview(
    preview: SpreadReconciliationPreview,
    broker: BrokerInputs<'_>,
    records: RecordInputs<'_>,
) -> bool {
    &&& sums_up(preview, broker.positions@, broker.open_orders@)
    &&& exists|spreads: Seq<ExpectedSpread>, managed: TextSet, symbols: BrokerSymbols|
        #[trigger] shows_everything(
            preview,
            *records.state,
            records.plans@,
            broker.positions@,
            broker.open_orders@,
            broker.recent_orders@,
            broker.activities@,
            spreads,
            managed,
            symbols,
        )
}

/// Whether a coverage is that of the latest feature snapshot and the last scan.
pub open spec fn shows_regime(
    coverage: Option<RegimeCoverageStatus>,
    events: Seq<Evidence>,
    records: Seq<Evidence>,
    scan: Option<EvidenceRef>,
) -> bool {
    let snapshot = latest_value(events, "regime_feature_snapshot"@);
    let record = scan_record(events, records, scan);
    (coverage is Some <==> regime_evidence(snapshot, record) is Some) && match coverage {
        Some(found) => covers_regime(found, snapshot, record),
        None => true,
    }
}

fn copy_store(store: &OperationalStoreStatus) -> (copy: OperationalStoreStatus)
    ensures
        copy == *store,
{
    OperationalStoreStatus {
        enabled: store.enabled,
        schema: store.schema.clone(),
        applied_migrations: store.applied_migrations,
        latest_migration_version: store.latest_migration_version,
        dirty_migration_version: store.dirty_migration_version,
    }
}

/// Builds the status.
pub fn build_status(
    config: &OperatorConfig,
    host: &HostFacts,
    broker: BrokerInputs<'_>,
    records: RecordInputs<'_>,
    now: UtcInstant,
) -> (status: OperatorStatus)
    requires
        records.plans@.len() == records.state.entries@.len(),
        leg_total(broker.open_orders@) <= usize::MAX,
    ensures
        opt_text(status.checked_at_utc) == rfc3339_writing(now.secs, now.nanos),
        shows_service(status.service, *config, *host),
        status.operational_store == config.operational_store,
        shows_account(status.account, *broker.account),
        status.orders == order_numbers(
            broker.open_orders@,
            broker.recent_orders@,
            now,
            config.stale_order_secs as int,
        ),
        status.positions == position_numbers(broker.positions@, *records.state),
        shows_preview(status.spread_reconciliation_preview, broker, records),
        shows_state(status.strategy_state, *config, host.state_file_exists, *records.state),
        shows_entries(status.active_entries@, records.state.entries@),
        shows_risk(status.risk, *config, *records.state, broker.open_orders@.len() as int),
        shows_latest(status.latest, records.events@, records.candidate_ledger_records@),
        shows_regime(
            status.regime_coverage,
            records.events@,
            records.candidate_ledger_records@,
            status.latest.scan,
        ),
        opt_tree(status.last_broker_event) == broker_event_tree(
            broker.recent_orders@,
            broker.activities@,
        ),
        alert_views(status.alerts@) == by_severity(
            raised_alerts(
                (AlertInputs {
                    config,
                    service: &status.service,
                    account: &status.account,
                    orders: &status.orders,
                    positions: &status.positions,
                    strategy_state: &status.strategy_state,
                    active_entries: &status.active_entries,
                    risk: &status.risk,
                    open_orders: broker.open_orders,
                    events: records.events,
                    now,
                }),
                lifecycle_block_text(records.events@, now),
            ),
        ),
        status.engine_state == engine_state_of(
            has_critical(alert_views(status.alerts@)),
            config.open_orders_enabled,
            status.orders,
            status.positions,
            status.account,
        ),
{
    let account = account_status(broker.account);
    let orders = orders_status(
        broker.open_orders,
        broker.recent_orders,
        now,
        config.stale_order_secs,
    );
    let positions = positions_status(broker.positions, records.state);
    let preview = build_spread_reconciliation_preview(
        records.state,
        records.plans,
        broker.positions,
        broker.open_orders,
        broker.recent_orders,
        broker.activities,
    );
    let strategy_state = strategy_state_status(config, host.state_file_exists, records.state);
    let entries = active_entry_statuses(records.state);
    let risk = risk_status(config, records.state, broker.open_orders.len());
    let service = service_status(config, host);
    let latest = latest_evidence(records.events, records.candidate_ledger_records);
    let coverage = regime_coverage_status(
        records.events,
        records.candidate_ledger_records,
        latest.scan,
    );
    let last_broker_event = latest_broker_event(broker.recent_orders, broker.activities);
    let inputs = AlertInputs {
        config,
        service: &service,
        account: &account,
        orders: &orders,
        positions: &positions,
        strategy_state: &strategy_state,
        active_entries: &entries,
        risk: &risk,
        open_orders: broker.open_orders,
        events: records.events,
        now,
    };
    let alerts = sort_alerts(&build_alerts(inputs));
    let engine_state = classify_engine_state(
        &alerts,
        config.open_orders_enabled,
        &orders,
        &positions,
        &account,
    );
    OperatorStatus {
        checked_at_utc: instant_text(now),
        engine_state,
        service,
        operational_store: copy_store(&config.operational_store),
        account,
        orders,
        positions,
        spread_reconciliation_preview: preview,
        strategy_state,
        active_entries: entries,
        risk,
        regime_coverage: coverage,
        latest,
        last_broker_event,
        alerts,
    }
}

/// An engine whose account is blocked from trading never reads as trading or idle.
pub proof fn blocked_accounts_never_read_as_trading(
    critical: bool,
    open_orders_enabled: bool,
    orders: OrdersStatus,
    positions: PositionsStatus,
    account: AccountStatus,
)
    requires
        account.trading_blocked || account.trade_suspended_by_user,
    ensures
        engine_state_of(critical, open_orders_enabled, orders, positions, account)
            == EngineState::Broken || engine_state_of(
            critical,
            open_orders_enabled,
            orders,
            positions,
            account,
        ) == EngineState::Blocked,
{
}

} // verus!
