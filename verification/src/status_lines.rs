//! The operator status as lines of text.
use vstd::prelude::*;

use crate::alerts::severity_name;
use crate::alerts::OperatorAlert;
use crate::evidence::chars_or;
use crate::evidence::compact_chars;
use crate::evidence::compact_json;
use crate::evidence::in_range;
use crate::evidence::regime_chars;
use crate::evidence::regime_coverage_line;
use crate::evidence::text_or_default;
use crate::evidence::Evidence;
use crate::evidence::EvidenceRef;
use crate::preview::BrokerLegPreview;
use crate::preview::BrokerOrderMappingPreview;
use crate::preview::SpreadReconciliationSummary;
use crate::preview::StateSpreadPreview;
use crate::status::AccountStatus;
use crate::status::ActiveEntryStatus;
use crate::status::EngineState;
use crate::status::LatestEvidence;
use crate::status::OperationalStoreStatus;
use crate::status::OperatorStatus;
use crate::status::OrdersStatus;
use crate::status::PositionsStatus;
use crate::status::RiskStatus;
use crate::status::ServiceStatus;
use crate::status::StrategyStateStatus;
use crate::text::bool_chars;
use crate::text::bool_text;
use crate::text::count_text;
use crate::text::decimal;
use crate::text::decimal_text;
use crate::text::format_list;
use crate::text::join;
use crate::text::joined;
use crate::text::list_or_none;
use crate::text::opt_text;
use crate::text::signed_decimal;
use crate::text::signed_text;
use crate::text::texts;

verus! {

/// The name of an engine state.
pub open spec fn state_name(state: EngineState) -> Seq<char> {
    match state {
        EngineState::Idle => "Idle"@,
        EngineState::Trading => "Trading"@,
        EngineState::Blocked => "Blocked"@,
        EngineState::Broken => "Broken"@,
    }
}

fn engine_state_name(state: EngineState) -> (name: &'static str)
    ensures
        name@ == state_name(state),
{
    match state {
        EngineState::Idle => "Idle",
        EngineState::Trading => "Trading",
        EngineState::Blocked => "Blocked",
        EngineState::Broken => "Broken",
    }
}

/// A cap, or `unlimited`.
pub open spec fn limit_chars(limit: Option<usize>) -> Seq<char> {
    match limit {
        Some(value) => decimal(value as nat),
        None => "unlimited"@,
    }
}

/// Writes a cap, or `unlimited`.
pub fn format_limit(limit: Option<usize>) -> (text: String)
    ensures
        text@ == limit_chars(limit),
{
    match limit {
        Some(value) => count_text(value),
        None => "unlimited".to_owned(),
    }
}

/// An integer, or `none`.
pub open spec fn version_chars(value: Option<i64>) -> Seq<char> {
    match value {
        Some(number) => signed_decimal(number as int),
        None => "none"@,
    }
}

fn version_text(value: Option<i64>) -> (text: String)
    ensures
        text@ == version_chars(value),
{
    match value {
        Some(number) => signed_text(number),
        None => "none".to_owned(),
    }
}

/// An options level, or `unknown`.
pub open spec fn level_chars(value: Option<u8>) -> Seq<char> {
    match value {
        Some(number) => decimal(number as nat),
        None => "unknown"@,
    }
}

fn level_text(value: Option<u8>) -> (text: String)
    ensures
        text@ == level_chars(value),
{
    match value {
        Some(number) => decimal_text(number as u64),
        None => "unknown".to_owned(),
    }
}

/// A text, or `none`.
pub open spec fn or_none(value: Option<String>) -> Seq<char> {
    chars_or(opt_text(value), "none"@)
}

fn text_or_none(value: &Option<String>) -> (text: String)
    ensures
        text@ == or_none(*value),
{
    text_or_default(value, "none")
}

// ---------------------------------------------------------------------------------------------
// Single lines
// ---------------------------------------------------------------------------------------------

/// The line of the engine.
pub open spec fn engine_chars(state: EngineState, checked_at: Option<String>) -> Seq<char> {
    "engine: state="@ + state_name(state) + " checked_at_utc="@ + or_none(checked_at)
}

fn engine_line(state: EngineState, checked_at: &Option<String>) -> (line: String)
    ensures
        line@ == engine_chars(state, *checked_at),
{
    "engine: state=".to_owned().concat(engine_state_name(state)).concat(" checked_at_utc=").concat(
        text_or_none(checked_at).as_str(),
    )
}

/// The line of the service.
pub open spec fn service_chars(service: ServiceStatus) -> Seq<char> {
    "service: name="@ + service.name@ + " active="@ + chars_or(
        opt_text(service.active_state),
        "unknown"@,
    ) + " open_orders="@ + bool_chars(service.open_orders_enabled) + " close_orders="@ + bool_chars(
        service.close_orders_enabled,
    ) + " close_order_mode="@ + service.close_order_mode@ + " dry_run_families="@ + joined(
        texts(service.dry_run_families@),
        ","@,
    ) + " lock="@ + service.lock_file@ + " log="@ + service.log_file@
}

fn service_line(service: &ServiceStatus) -> (line: String)
    ensures
        line@ == service_chars(*service),
{
    "service: name=".to_owned().concat(service.name.as_str()).concat(" active=").concat(
        text_or_default(&service.active_state, "unknown").as_str(),
    ).concat(" open_orders=").concat(bool_text(service.open_orders_enabled)).concat(
        " close_orders=",
    ).concat(bool_text(service.close_orders_enabled)).concat(" close_order_mode=").concat(
        service.close_order_mode.as_str(),
    ).concat(" dry_run_families=").concat(join(&service.dry_run_families, ",").as_str()).concat(
        " lock=",
    ).concat(service.lock_file.as_str()).concat(" log=").concat(service.log_file.as_str())
}

/// The line of the operational store.
pub open spec fn store_chars(store: OperationalStoreStatus) -> Seq<char> {
    "operational_store: enabled="@ + bool_chars(store.enabled) + " schema="@ + store.schema@
        + " applied_migrations="@ + version_chars(store.applied_migrations)
        + " latest_migration_version="@ + version_chars(store.latest_migration_version)
        + " dirty_migration_version="@ + version_chars(store.dirty_migration_version)
}

fn store_line(store: &OperationalStoreStatus) -> (line: String)
    ensures
        line@ == store_chars(*store),
{
    "operational_store: enabled=".to_owned().concat(bool_text(store.enabled)).concat(
        " schema=",
    ).concat(store.schema.as_str()).concat(" applied_migrations=").concat(
        version_text(store.applied_migrations).as_str(),
    ).concat(" latest_migration_version=").concat(
        version_text(store.latest_migration_version).as_str(),
    ).concat(" dirty_migration_version=").concat(
        version_text(store.dirty_migration_version).as_str(),
    )
}

/// The line of the account.
pub open spec fn account_chars(account: AccountStatus) -> Seq<char> {
    "account: status="@ + account.status@ + " trading_blocked="@ + bool_chars(
        account.trading_blocked,
    ) + " account_blocked="@ + bool_chars(account.account_blocked) + " suspended="@ + bool_chars(
        account.trade_suspended_by_user,
    ) + " buying_power="@ + account.buying_power@ + " options_buying_power="@
        + account.options_buying_power@ + " options_approved_level="@ + level_chars(
        account.options_approved_level,
    ) + " options_trading_level="@ + level_chars(account.options_trading_level)
        + " portfolio_value="@ + account.portfolio_value@ + " cash="@ + account.cash@
}

fn account_line(account: &AccountStatus) -> (line: String)
    ensures
        line@ == account_chars(*account),
{
    "account: status=".to_owned().concat(account.status.as_str()).concat(
        " trading_blocked=",
    ).concat(bool_text(account.trading_blocked)).concat(" account_blocked=").concat(
        bool_text(account.account_blocked),
    ).concat(" suspended=").concat(bool_text(account.trade_suspended_by_user)).concat(
        " buying_power=",
    ).concat(account.buying_power.as_str()).concat(" options_buying_power=").concat(
        account.options_buying_power.as_str(),
    ).concat(" options_approved_level=").concat(
        level_text(account.options_approved_level).as_str(),
    ).concat(" options_trading_level=").concat(
        level_text(account.options_trading_level).as_str(),
    ).concat(" portfolio_value=").concat(account.portfolio_value.as_str()).concat(" cash=").concat(
        account.cash.as_str(),
    )
}

/// The line of the orders.
pub open spec fn orders_chars(orders: OrdersStatus) -> Seq<char> {
    "orders: open="@ + decimal(orders.open as nat) + " mleg="@ + decimal(orders.open_mleg as nat)
        + " nested_legs="@ + decimal(orders.nested_legs as nat) + " stale_working="@ + decimal(
        orders.stale_working as nat,
    ) + " partial_filled="@ + decimal(orders.partial_filled as nat) + " accepted_not_filled="@
        + decimal(orders.accepted_not_filled as nat) + " recent_rejected="@ + decimal(
        orders.recent_rejected as nat,
    )
}

fn orders_line(orders: &OrdersStatus) -> (line: String)
    ensures
        line@ == orders_chars(*orders),
{
    "orders: open=".to_owned().concat(count_text(orders.open).as_str()).concat(" mleg=").concat(
        count_text(orders.open_mleg).as_str(),
    ).concat(" nested_legs=").concat(count_text(orders.nested_legs).as_str()).concat(
        " stale_working=",
    ).concat(count_text(orders.stale_working).as_str()).concat(" partial_filled=").concat(
        count_text(orders.partial_filled).as_str(),
    ).concat(" accepted_not_filled=").concat(
        count_text(orders.accepted_not_filled).as_str(),
    ).concat(" recent_rejected=").concat(count_text(orders.recent_rejected).as_str())
}

/// The line of the positions.
pub open spec fn positions_chars(positions: PositionsStatus) -> Seq<char> {
    "positions: total="@ + decimal(positions.total as nat) + " options="@ + decimal(
        positions.options as nat,
    ) + " equities="@ + decimal(positions.equities as nat) + " unmanaged="@ + decimal(
        positions.unmanaged as nat,
    )
}

fn positions_line(positions: &PositionsStatus) -> (line: String)
    ensures
        line@ == positions_chars(*positions),
{
    "positions: total=".to_owned().concat(count_text(positions.total).as_str()).concat(
        " options=",
    ).concat(count_text(positions.options).as_str()).concat(" equities=").concat(
        count_text(positions.equities).as_str(),
    ).concat(" unmanaged=").concat(count_text(positions.unmanaged).as_str())
}

/// The line of the spread preview.
pub open spec fn summary_chars(summary: SpreadReconciliationSummary) -> Seq<char> {
    "spread_reconciliation_preview: state_spreads="@ + decimal(summary.state_spreads as nat)
        + " matched="@ + decimal(summary.matched_spreads as nat) + " partial="@ + decimal(
        summary.partial_spreads as nat,
    ) + " missing="@ + decimal(summary.missing_spreads as nat) + " broker_mleg_orders="@ + decimal(
        summary.broker_mleg_orders as nat,
    ) + " broker_position_legs="@ + decimal(summary.broker_position_legs as nat)
        + " unmanaged_extra_legs="@ + decimal(summary.unmanaged_extra_legs as nat)
        + " unknown_parent_leg_mappings="@ + decimal(summary.unknown_parent_leg_mappings as nat)
}

fn summary_line(summary: &SpreadReconciliationSummary) -> (line: String)
    ensures
        line@ == summary_chars(*summary),
{
    "spread_reconciliation_preview: state_spreads=".to_owned().concat(
        count_text(summary.state_spreads).as_str(),
    ).concat(" matched=").concat(count_text(summary.matched_spreads).as_str()).concat(
        " partial=",
    ).concat(count_text(summary.partial_spreads).as_str()).concat(" missing=").concat(
        count_text(summary.missing_spreads).as_str(),
    ).concat(" broker_mleg_orders=").concat(
        count_text(summary.broker_mleg_orders).as_str(),
    ).concat(" broker_position_legs=").concat(
        count_text(summary.broker_position_legs).as_str(),
    ).concat(" unmanaged_extra_legs=").concat(
        count_text(summary.unmanaged_extra_legs).as_str(),
    ).concat(" unknown_parent_leg_mappings=").concat(
        count_text(summary.unknown_parent_leg_mappings).as_str(),
    )
}

/// The line of a spread.
pub open spec fn spread_chars(spread: StateSpreadPreview) -> Seq<char> {
    "spread_preview: status="@ + spread.status@ + " underlying="@ + spread.underlying@
        + " strategy="@ + spread.strategy@ + " order_list_id="@ + spread.order_list_id@
        + " spread_symbol="@ + spread.spread_symbol@ + " position_status="@
        + spread.position_status@ + " open_order_status="@ + spread.open_order_status@
        + " missing_symbols="@ + list_or_none(texts(spread.missing_symbols@)) + " open_orders="@
        + decimal(spread.open_orders@.len()) + " recent_activities="@ + decimal(
        spread.recent_activities@.len(),
    )
}

fn spread_line(spread: &StateSpreadPreview) -> (line: String)
    ensures
        line@ == spread_chars(*spread),
{
    "spread_preview: status=".to_owned().concat(spread.status).concat(" underlying=").concat(
        spread.underlying.as_str(),
    ).concat(" strategy=").concat(spread.strategy.as_str()).concat(" order_list_id=").concat(
        spread.order_list_id.as_str(),
    ).concat(" spread_symbol=").concat(spread.spread_symbol.as_str()).concat(
        " position_status=",
    ).concat(spread.position_status).concat(" open_order_status=").concat(
        spread.open_order_status,
    ).concat(" missing_symbols=").concat(format_list(&spread.missing_symbols).as_str()).concat(
        " open_orders=",
    ).concat(count_text(spread.open_orders.len()).as_str()).concat(" recent_activities=").concat(
        count_text(spread.recent_activities.len()).as_str(),
    )
}

/// The line of an unmanaged leg.
pub open spec fn leg_chars(leg: BrokerLegPreview) -> Seq<char> {
    "spread_preview_unmanaged_leg: source="@ + leg.source@ + " symbol="@ + leg.symbol@ + " qty="@
        + or_none(leg.qty) + " side="@ + or_none(leg.side) + " order_id="@ + or_none(leg.order_id)
        + " status="@ + or_none(leg.status)
}

fn leg_line(leg: &BrokerLegPreview) -> (line: String)
    ensures
        line@ == leg_chars(*leg),
{
    "spread_preview_unmanaged_leg: source=".to_owned().concat(leg.source).concat(
        " symbol=",
    ).concat(leg.symbol.as_str()).concat(" qty=").concat(text_or_none(&leg.qty).as_str()).concat(
        " side=",
    ).concat(text_or_none(&leg.side).as_str()).concat(" order_id=").concat(
        text_or_none(&leg.order_id).as_str(),
    ).concat(" status=").concat(text_or_none(&leg.status).as_str())
}

/// The line of an unknown mapping.
pub open spec fn mapping_chars(mapping: BrokerOrderMappingPreview) -> Seq<char> {
    "spread_preview_unknown_mapping: reason="@ + mapping.reason@ + " order_id="@ + or_none(
        mapping.id,
    ) + " client_order_id="@ + or_none(mapping.client_order_id) + " symbols="@ + list_or_none(
        texts(mapping.symbols@),
    ) + " candidates="@ + list_or_none(texts(mapping.candidate_order_list_ids@))
}

fn mapping_line(mapping: &BrokerOrderMappingPreview) -> (line: String)
    ensures
        line@ == mapping_chars(*mapping),
{
    "spread_preview_unknown_mapping: reason=".to_owned().concat(mapping.reason).concat(
        " order_id=",
    ).concat(text_or_none(&mapping.id).as_str()).concat(" client_order_id=").concat(
        text_or_none(&mapping.client_order_id).as_str(),
    ).concat(" symbols=").concat(format_list(&mapping.symbols).as_str()).concat(
        " candidates=",
    ).concat(format_list(&mapping.candidate_order_list_ids).as_str())
}

/// The line of the strategy state.
pub open spec fn state_chars(state: StrategyStateStatus) -> Seq<char> {
    "strategy_state: exists="@ + bool_chars(state.exists) + " db_version="@ + version_chars(
        state.db_version,
    ) + " db_last_event_id="@ + or_none(state.db_last_event_id) + " entries="@ + decimal(
        state.entries as nat,
    ) + " active="@ + decimal(state.active_entries as nat) + " closed="@ + decimal(
        state.closed_entries as nat,
    ) + " canceled="@ + decimal(state.canceled_entries as nat) + " path="@ + state.path@
}

fn state_line(state: &StrategyStateStatus) -> (line: String)
    ensures
        line@ == state_chars(*state),
{
    "strategy_state: exists=".to_owned().concat(bool_text(state.exists)).concat(
        " db_version=",
    ).concat(version_text(state.db_version).as_str()).concat(" db_last_event_id=").concat(
        text_or_none(&state.db_last_event_id).as_str(),
    ).concat(" entries=").concat(count_text(state.entries).as_str()).concat(" active=").concat(
        count_text(state.active_entries).as_str(),
    ).concat(" closed=").concat(count_text(state.closed_entries).as_str()).concat(
        " canceled=",
    ).concat(count_text(state.canceled_entries).as_str()).concat(" path=").concat(
        state.path.as_str(),
    )
}

/// The premium texts of an entry, with two decimals.
#[derive(Clone, Debug)]
pub struct EntryFigures {
    /// Credit.
    pub credit: String,
    /// Debit.
    pub debit: Option<String>,
}

/// The spread of an entry: its instrument, or its symbol.
pub open spec fn spread_of(entry: ActiveEntryStatus) -> Seq<char> {
    match entry.spread_instrument_id {
        Some(id) => id@,
        None => or_none(entry.spread_raw_symbol),
    }
}

/// The line of an active entry.
pub open spec fn entry_chars(entry: ActiveEntryStatus, figures: EntryFigures) -> Seq<char> {
    "active_entry: underlying="@ + entry.underlying@ + " strategy="@ + entry.strategy@
        + " symbols="@ + joined(texts(entry.symbols@), ","@) + " net_premium_kind="@
        + entry.net_premium_kind@ + " credit="@ + figures.credit@ + " debit="@ + or_none(
        figures.debit,
    ) + " spread="@ + spread_of(entry) + " close_attempts="@ + decimal(entry.close_attempts as nat)
        + " close_reason="@ + or_none(entry.close_reason) + " close_order_mode="@ + or_none(
        entry.close_order_mode,
    ) + " close_order_list_id="@ + or_none(entry.close_order_list_id)
        + " last_close_submitted_at="@ + or_none(entry.last_close_submitted_at_utc)
}

fn entry_line(entry: &ActiveEntryStatus, figures: &EntryFigures) -> (line: String)
    ensures
        line@ == entry_chars(*entry, *figures),
{
    let spread = match &entry.spread_instrument_id {
        Some(id) => id.clone(),
        None => text_or_none(&entry.spread_raw_symbol),
    };
    "active_entry: underlying=".to_owned().concat(entry.underlying.as_str()).concat(
        " strategy=",
    ).concat(entry.strategy.as_str()).concat(" symbols=").concat(
        join(&entry.symbols, ",").as_str(),
    ).concat(" net_premium_kind=").concat(entry.net_premium_kind).concat(" credit=").concat(
        figures.credit.as_str(),
    ).concat(" debit=").concat(text_or_none(&figures.debit).as_str()).concat(" spread=").concat(
        spread.as_str(),
    ).concat(" close_attempts=").concat(decimal_text(entry.close_attempts as u64).as_str()).concat(
        " close_reason=",
    ).concat(text_or_none(&entry.close_reason).as_str()).concat(" close_order_mode=").concat(
        text_or_none(&entry.close_order_mode).as_str(),
    ).concat(" close_order_list_id=").concat(
        text_or_none(&entry.close_order_list_id).as_str(),
    ).concat(" last_close_submitted_at=").concat(
        text_or_none(&entry.last_close_submitted_at_utc).as_str(),
    )
}

/// The line of the risk counts.
pub open spec fn risk_chars(risk: RiskStatus) -> Seq<char> {
    "risk: trade_date="@ + risk.trade_date@ + " active_entries="@ + decimal(
        risk.active_entries as nat,
    ) + "/"@ + limit_chars(risk.max_active_entries) + " daily_submits="@ + decimal(
        risk.daily_submits as nat,
    ) + "/"@ + limit_chars(risk.max_daily_submits) + " open_orders="@ + decimal(
        risk.open_orders as nat,
    ) + "/"@ + limit_chars(risk.max_open_orders) + " per_underlying="@ + limit_chars(
        risk.max_active_entries_per_underlying,
    ) + " per_sector="@ + limit_chars(risk.max_active_entries_per_sector)
}

fn risk_line(risk: &RiskStatus) -> (line: String)
    ensures
        line@ == risk_chars(*risk),
{
    "risk: trade_date=".to_owned().concat(risk.trade_date.as_str()).concat(
        " active_entries=",
    ).concat(count_text(risk.active_entries).as_str()).concat("/").concat(
        format_limit(risk.max_active_entries).as_str(),
    ).concat(" daily_submits=").concat(count_text(risk.daily_submits).as_str()).concat("/").concat(
        format_limit(risk.max_daily_submits).as_str(),
    ).concat(" open_orders=").concat(count_text(risk.open_orders).as_str()).concat("/").concat(
        format_limit(risk.max_open_orders).as_str(),
    ).concat(" per_underlying=").concat(
        format_limit(risk.max_active_entries_per_underlying).as_str(),
    ).concat(" per_sector=").concat(format_limit(risk.max_active_entries_per_sector).as_str())
}

/// The line of an alert.
pub open spec fn alert_chars(alert: OperatorAlert) -> Seq<char> {
    "alert: severity="@ + severity_name(alert.severity) + " code="@ + alert.code@ + " message="@
        + alert.message@
}

fn alert_line(alert: &OperatorAlert) -> (line: String)
    ensures
        line@ == alert_chars(*alert),
{
    "alert: severity=".to_owned().concat(alert.severity.name()).concat(" code=").concat(
        alert.code,
    ).concat(" message=").concat(alert.message.as_str())
}

// ---------------------------------------------------------------------------------------------
// Evidence lines
// ---------------------------------------------------------------------------------------------

/// The compact texts of the latest evidence.
#[derive(Clone, Debug)]
pub struct EvidenceTexts {
    /// Last scan.
    pub scan: Option<String>,
    /// Last scanner diagnostic.
    pub scanner_diagnostic: Option<String>,
    /// Last entry decision.
    pub decision: Option<String>,
    /// Last management snapshot.
    pub management_snapshot: Option<String>,
    /// Last management block.
    pub management_block: Option<String>,
    /// Last state of the active-risk quote cache.
    pub active_risk_quote_cache: Option<String>,
    /// Last state of the option market-data stream.
    pub option_market_data_stream: Option<String>,
    /// Last lifecycle event.
    pub lifecycle_event: Option<String>,
    /// Latest sign of the broker.
    pub broker_event: Option<String>,
}

/// The compact text at a position.
pub open spec fn event_chars(at: Option<usize>, events: Seq<Evidence>) -> Option<Seq<char>> {
    match at {
        Some(i) => Some(compact_chars(events[i as int].raw@)),
        None => None,
    }
}

/// The compact text at a reference.
pub open spec fn ref_chars(
    at: Option<EvidenceRef>,
    events: Seq<Evidence>,
    records: Seq<Evidence>,
) -> Option<Seq<char>> {
    match at {
        Some(EvidenceRef::Event(i)) => Some(compact_chars(events[i as int].raw@)),
        Some(EvidenceRef::Record(i)) => Some(compact_chars(records[i as int].raw@)),
        None => None,
    }
}

/// Whether a position lies within some events.
pub open spec fn event_in_range(at: Option<usize>, events: Seq<Evidence>) -> bool {
    match at {
        Some(i) => i < events.len(),
        None => true,
    }
}

/// Whether references lead to evidence.
pub open spec fn latest_in_range(
    latest: LatestEvidence,
    events: Seq<Evidence>,
    records: Seq<Evidence>,
) -> bool {
    &&& in_range(latest.scan, events, records)
    &&& in_range(latest.decision, events, records)
    &&& event_in_range(latest.scanner_diagnostic, events)
    &&& event_in_range(latest.management_snapshot, events)
    &&& event_in_range(latest.management_block, events)
    &&& event_in_range(latest.active_risk_quote_cache, events)
    &&& event_in_range(latest.option_market_data_stream, events)
    &&& event_in_range(latest.lifecycle_event, events)
}

fn event_text(at: Option<usize>, events: &Vec<Evidence>) -> (text: Option<String>)
    requires
        event_in_range(at, events@),
    ensures
        opt_text(text) == event_chars(at, events@),
{
    match at {
        Some(i) => Some(compact_json(events[i].raw.as_str())),
        None => None,
    }
}

fn ref_text(at: Option<EvidenceRef>, events: &Vec<Evidence>, records: &Vec<Evidence>) -> (text: Option<
    String,
>)
    requires
        in_range(at, events@, records@),
    ensures
        opt_text(text) == ref_chars(at, events@, records@),
{
    match at {
        Some(EvidenceRef::Event(i)) => Some(compact_json(events[i].raw.as_str())),
        Some(EvidenceRef::Record(i)) => Some(compact_json(records[i].raw.as_str())),
        None => None,
    }
}

/// Returns the compact texts of the latest evidence. `broker_event` is the JSON text of the latest
/// sign of the broker.
pub fn evidence_texts(
    latest: &LatestEvidence,
    events: &Vec<Evidence>,
    records: &Vec<Evidence>,
    broker_event: Option<&str>,
) -> (found: EvidenceTexts)
    requires
        latest_in_range(*latest, events@, records@),
    ensures
        opt_text(found.scan) == ref_chars(latest.scan, events@, records@),
        opt_text(found.scanner_diagnostic) == event_chars(latest.scanner_diagnostic, events@),
        opt_text(found.decision) == ref_chars(latest.decision, events@, records@),
        opt_text(found.management_snapshot) == event_chars(latest.management_snapshot, events@),
        opt_text(found.management_block) == event_chars(latest.management_block, events@),
        opt_text(found.active_risk_quote_cache) == event_chars(
            latest.active_risk_quote_cache,
            events@,
        ),
        opt_text(found.option_market_data_stream) == event_chars(
            latest.option_market_data_stream,
            events@,
        ),
        opt_text(found.lifecycle_event) == event_chars(latest.lifecycle_event, events@),
        opt_text(found.broker_event) == match broker_event {
            Some(raw) => Some(compact_chars(raw@)),
            None => None,
        },
{
    EvidenceTexts {
        scan: ref_text(latest.scan, events, records),
        scanner_diagnostic: event_text(latest.scanner_diagnostic, events),
        decision: ref_text(latest.decision, events, records),
        management_snapshot: event_text(latest.management_snapshot, events),
        management_block: event_text(latest.management_block, events),
        active_risk_quote_cache: event_text(latest.active_risk_quote_cache, events),
        option_market_data_stream: event_text(latest.option_market_data_stream, events),
        lifecycle_event: event_text(latest.lifecycle_event, events),
        broker_event: match broker_event {
            Some(raw) => Some(compact_json(raw)),
            None => None,
        },
    }
}

// ---------------------------------------------------------------------------------------------
// All lines
// ---------------------------------------------------------------------------------------------

/// The lines on the service, the account and the broker.
pub open spec fn first_lines(status: OperatorStatus) -> Seq<Seq<char>> {
    seq![
        engine_chars(status.engine_state, status.checked_at_utc),
        service_chars(status.service),
        store_chars(status.operational_store),
        account_chars(status.account),
        orders_chars(status.orders),
        positions_chars(status.positions),
        summary_chars(status.spread_reconciliation_preview.summary),
    ]
}

/// The lines of the spread preview.
pub open spec fn preview_lines(status: OperatorStatus) -> Seq<Seq<char>> {
    let preview = status.spread_reconciliation_preview;
    Seq::new(preview.state_spreads@.len(), |i: int| spread_chars(preview.state_spreads@[i]))
        + Seq::new(
        preview.unmanaged_extra_legs@.len(),
        |i: int| leg_chars(preview.unmanaged_extra_legs@[i]),
    ) + Seq::new(
        preview.unknown_parent_leg_mappings@.len(),
        |i: int| mapping_chars(preview.unknown_parent_leg_mappings@[i]),
    )
}

/// The lines of the active entries.
pub open spec fn entry_lines(
    entries: Seq<ActiveEntryStatus>,
    figures: Seq<EntryFigures>,
) -> Seq<Seq<char>> {
    Seq::new(entries.len(), |i: int| entry_chars(entries[i], figures[i]))
}

/// The lines of the risk counts and the evidence.
pub open spec fn evidence_lines(status: OperatorStatus, evidence: EvidenceTexts) -> Seq<Seq<char>> {
    seq![
        risk_chars(status.risk),
        "last_scan: "@ + or_none(evidence.scan),
        "regime_coverage: "@ + match status.regime_coverage {
            Some(coverage) => regime_chars(coverage),
            None => "none"@,
        },
        "last_scanner_diagnostic: "@ + or_none(evidence.scanner_diagnostic),
        "last_decision: "@ + or_none(evidence.decision),
        "last_management_snapshot: "@ + or_none(evidence.management_snapshot),
        "last_management_block: "@ + or_none(evidence.management_block),
        "last_active_risk_quote_cache: "@ + or_none(evidence.active_risk_quote_cache),
        "last_option_market_data_stream: "@ + or_none(evidence.option_market_data_stream),
        "last_lifecycle_event: "@ + or_none(evidence.lifecycle_event),
        "last_broker_event: "@ + or_none(evidence.broker_event),
    ]
}

/// The lines of the alerts.
pub open spec fn alert_lines(alerts: Seq<OperatorAlert>) -> Seq<Seq<char>> {
    seq!["alerts: count="@ + decimal(alerts.len())] + Seq::new(
        alerts.len(),
        |i: int| alert_chars(alerts[i]),
    )
}

/// All lines of a status.
pub open spec fn status_chars(
    status: OperatorStatus,
    figures: Seq<EntryFigures>,
    evidence: EvidenceTexts,
) -> Seq<Seq<char>> {
    first_lines(status) + preview_lines(status) + seq![state_chars(status.strategy_state)]
        + entry_lines(status.active_entries@, figures) + evidence_lines(status, evidence)
        + alert_lines(status.alerts@)
}

fn push_line(lines: &mut Vec<String>, line: String)
    ensures
        texts(final(lines)@) == texts(old(lines)@).push(line@),
{
    lines.push(line);
    assert(texts(lines@) =~= texts(old(lines)@).push(line@));
}

fn push_first_lines(lines: &mut Vec<String>, status: &OperatorStatus)
    ensures
        texts(final(lines)@) == texts(old(lines)@) + first_lines(*status),
{
    push_line(lines, engine_line(status.engine_state, &status.checked_at_utc));
    push_line(lines, service_line(&status.service));
    push_line(lines, store_line(&status.operational_store));
    push_line(lines, account_line(&status.account));
    push_line(lines, orders_line(&status.orders));
    push_line(lines, positions_line(&status.positions));
    push_line(lines, summary_line(&status.spread_reconciliation_preview.summary));
    assert(texts(lines@) =~= texts(old(lines)@) + first_lines(*status));
}

fn push_preview_lines(lines: &mut Vec<String>, status: &OperatorStatus)
    ensures
        texts(final(lines)@) == texts(old(lines)@) + preview_lines(*status),
{
    let preview = &status.spread_reconciliation_preview;
    let ghost start = texts(lines@);
    let spreads: usize = preview.state_spreads.len();
    assert(texts(lines@) =~= start + Seq::new(
        0,
        |k: int| spread_chars(preview.state_spreads@[k]),
    ));
    for i in 0..spreads
        invariant
            spreads == preview.state_spreads@.len(),
            texts(lines@) == start + Seq::new(
                i as nat,
                |k: int| spread_chars(preview.state_spreads@[k]),
            ),
    {
        push_line(lines, spread_line(&preview.state_spreads[i]));
        assert(texts(lines@) =~= start + Seq::new(
            (i + 1) as nat,
            |k: int| spread_chars(preview.state_spreads@[k]),
        ));
    }
    let ghost second = texts(lines@);
    let legs: usize = preview.unmanaged_extra_legs.len();
    assert(texts(lines@) =~= second + Seq::new(
        0,
        |k: int| leg_chars(preview.unmanaged_extra_legs@[k]),
    ));
    for i in 0..legs
        invariant
            legs == preview.unmanaged_extra_legs@.len(),
            texts(lines@) == second + Seq::new(
                i as nat,
                |k: int| leg_chars(preview.unmanaged_extra_legs@[k]),
            ),
    {
        push_line(lines, leg_line(&preview.unmanaged_extra_legs[i]));
        assert(texts(lines@) =~= second + Seq::new(
            (i + 1) as nat,
            |k: int| leg_chars(preview.unmanaged_extra_legs@[k]),
        ));
    }
    let ghost third = texts(lines@);
    let mappings: usize = preview.unknown_parent_leg_mappings.len();
    assert(texts(lines@) =~= third + Seq::new(
        0,
        |k: int| mapping_chars(preview.unknown_parent_leg_mappings@[k]),
    ));
    for i in 0..mappings
        invariant
            mappings == preview.unknown_parent_leg_mappings@.len(),
            texts(lines@) == third + Seq::new(
                i as nat,
                |k: int| mapping_chars(preview.unknown_parent_leg_mappings@[k]),
            ),
    {
        push_line(lines, mapping_line(&preview.unknown_parent_leg_mappings[i]));
        assert(texts(lines@) =~= third + Seq::new(
            (i + 1) as nat,
            |k: int| mapping_chars(preview.unknown_parent_leg_mappings@[k]),
        ));
    }
    assert(texts(lines@) =~= start + preview_lines(*status));
}

fn push_entry_lines(
    lines: &mut Vec<String>,
    entries: &Vec<ActiveEntryStatus>,
    figures: &Vec<EntryFigures>,
)
    requires
        figures@.len() == entries@.len(),
    ensures
        texts(final(lines)@) == texts(old(lines)@) + entry_lines(entries@, figures@),
{
    let ghost start = texts(lines@);
    let n: usize = entries.len();
    assert(texts(lines@) =~= start + Seq::new(
        0,
        |k: int| entry_chars(entries@[k], figures@[k]),
    ));
    for i in 0..n
        invariant
            n == entries@.len() == figures@.len(),
            texts(lines@) == start + Seq::new(
                i as nat,
                |k: int| entry_chars(entries@[k], figures@[k]),
            ),
    {
        push_line(lines, entry_line(&entries[i], &figures[i]));
        assert(texts(lines@) =~= start + Seq::new(
            (i + 1) as nat,
            |k: int| entry_chars(entries@[k], figures@[k]),
        ));
    }
    assert(texts(lines@) =~= start + entry_lines(entries@, figures@));
}

fn labelled(label: &str, text: &Option<String>) -> (line: String)
    ensures
        line@ == label@ + or_none(*text),
{
    label.to_owned().concat(text_or_none(text).as_str())
}

fn push_evidence_lines(lines: &mut Vec<String>, status: &OperatorStatus, evidence: &EvidenceTexts)
    ensures
        texts(final(lines)@) == texts(old(lines)@) + evidence_lines(*status, *evidence),
{
    let coverage = match &status.regime_coverage {
        Some(coverage) => regime_coverage_line(coverage),
        None => "none".to_owned(),
    };
    push_line(lines, risk_line(&status.risk));
    push_line(lines, labelled("last_scan: ", &evidence.scan));
    push_line(lines, "regime_coverage: ".to_owned().concat(coverage.as_str()));
    push_line(lines, labelled("last_scanner_diagnostic: ", &evidence.scanner_diagnostic));
    push_line(lines, labelled("last_decision: ", &evidence.decision));
    push_line(lines, labelled("last_management_snapshot: ", &evidence.management_snapshot));
    push_line(lines, labelled("last_management_block: ", &evidence.management_block));
    push_line(
        lines,
        labelled("last_active_risk_quote_cache: ", &evidence.active_risk_quote_cache),
    );
    push_line(
        lines,
        labelled("last_option_market_data_stream: ", &evidence.option_market_data_stream),
    );
    push_line(lines, labelled("last_lifecycle_event: ", &evidence.lifecycle_event));
    push_line(lines, labelled("last_broker_event: ", &evidence.broker_event));
    assert(texts(lines@) =~= texts(old(lines)@) + evidence_lines(*status, *evidence));
}

fn push_alert_lines(lines: &mut Vec<String>, alerts: &Vec<OperatorAlert>)
    ensures
        texts(final(lines)@) == texts(old(lines)@) + alert_lines(alerts@),
{
    let ghost start = texts(lines@);
    let n: usize = alerts.len();
    push_line(lines, "alerts: count=".to_owned().concat(count_text(n).as_str()));
    let ghost headed = texts(lines@);
    assert(headed =~= headed + Seq::new(0, |k: int| alert_chars(alerts@[k])));
    for i in 0..n
        invariant
            n == alerts@.len(),
            texts(lines@) == headed + Seq::new(i as nat, |k: int| alert_chars(alerts@[k])),
    {
        push_line(lines, alert_line(&alerts[i]));
        assert(texts(lines@) =~= headed + Seq::new(
            (i + 1) as nat,
            |k: int| alert_chars(alerts@[k]),
        ));
    }
    assert(texts(lines@) =~= start + alert_lines(alerts@));
}

/// Writes a status as lines. `figures` holds the premium texts of the active entries.
pub fn human_status_lines(
    status: &OperatorStatus,
    figures: &Vec<EntryFigures>,
    evidence: &EvidenceTexts,
) -> (lines: Vec<String>)
    requires
        figures@.len() == status.active_entries@.len(),
    ensures
        texts(lines@) == status_chars(*status, figures@, *evidence),
{
    let mut lines: Vec<String> = Vec::new();
    assert(texts(lines@) =~= Seq::<Seq<char>>::empty());
    push_first_lines(&mut lines, status);
    assert(texts(lines@) =~= first_lines(*status));
    push_preview_lines(&mut lines, status);
    push_line(&mut lines, state_line(&status.strategy_state));
    assert(texts(lines@) =~= first_lines(*status) + preview_lines(*status) + seq![
        state_chars(status.strategy_state),
    ]);
    push_entry_lines(&mut lines, &status.active_entries, figures);
    push_evidence_lines(&mut lines, status, evidence);
    push_alert_lines(&mut lines, &status.alerts);
    lines
}

} // verus!
