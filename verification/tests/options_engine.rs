//! Gates, orders and reconciliation of the options engine.
use alpaca_options::admission::admission_block_reason;
use alpaca_options::admission::entry_gate_decision;
use alpaca_options::admission::submission_block_for_selected;
use alpaca_options::admission::EntryAdmissionConfig;
use alpaca_options::admission::EntryAdmissionSnapshot;
use alpaca_options::admission::EntryGateDecision;
use alpaca_options::admission::RiskCapitalFigures;
use alpaca_options::admission::UNCOVERED_OPTION_PERMISSION_REJECTION_REASON;
use alpaca_options::amount::Amount;
use alpaca_options::amount::Figure;
use alpaca_options::calendar::TimeOfDay;
use alpaca_options::calendar::UtcInstant;
use alpaca_options::candidates::credit_spread_strategy_name;
use alpaca_options::candidates::debit_spread_strategy_name;
use alpaca_options::candidates::naked_option_strategy_name;
use alpaca_options::candidates::CreditSpreadKind;
use alpaca_options::candidates::DebitSpreadKind;
use alpaca_options::candidates::NakedOptionCandidate;
use alpaca_options::candidates::NakedOptionKind;
use alpaca_options::candidates::ScoredContract;
use alpaca_options::engine::close_submission_gate_decision;
use alpaca_options::engine::CloseSubmissionGateDecision;
use alpaca_options::entry::SelectedNakedOptionEntry;
use alpaca_options::entry::SelectedOptionsEntry;
use alpaca_options::management::close_attempts_exhausted;
use alpaca_options::management::close_reprice_cooldown_remaining_secs;
use alpaca_options::management::debit_spread_close_reason;
use alpaca_options::management::AlpacaOptionsManagementConfig;
use alpaca_options::management::CloseOrderMode;
use alpaca_options::management::CloseQuote;
use alpaca_options::management::CloseThresholds;
use alpaca_options::orders::build_close_entry_orders;
use alpaca_options::orders::build_selected_entry_orders;
use alpaca_options::planner::AlpacaOptionsPlanSide;
use alpaca_options::reconciliation::reconciliation_action;
use alpaca_options::reconciliation::ReconciliationAction;
use alpaca_options::runtime::AlpacaOptionsRuntimeConfig;
use alpaca_options::runtime::EventShockStatus;
use alpaca_options::runtime::FleetRisk;
use alpaca_options::state::StrategyState;
use alpaca_options::state::StrategyStateEntry;
use alpaca_options::text_map::TextMap;
use alpaca_options::text_set::TextSet;

fn amount(value: f64) -> Amount {
    Amount { bits: value.to_bits() }
}

fn figure(value: f64) -> Figure {
    Figure { amount: amount(value), text: format!("{value:.2}") }
}

fn instant(text: &str) -> UtcInstant {
    let moment = chrono::DateTime::parse_from_rfc3339(text).unwrap();
    UtcInstant { secs: moment.timestamp(), nanos: moment.timestamp_subsec_nanos() }
}

fn now() -> UtcInstant {
    let moment = chrono::Utc::now();
    UtcInstant { secs: moment.timestamp(), nanos: moment.timestamp_subsec_nanos() }
}

fn time(hour: u32, minute: u32) -> TimeOfDay {
    TimeOfDay { secs: hour * 3600 + minute * 60, nanos: 0 }
}

fn config_for_gate_tests() -> AlpacaOptionsRuntimeConfig {
    AlpacaOptionsRuntimeConfig {
        underlyings: vec!["SPY".to_string()],
        universe_groups: TextMap::new(),
        strategy_profiles: Vec::new(),
        spread_kinds: vec![CreditSpreadKind::Put],
        iron_condor_enabled: false,
        debit_kinds: Vec::new(),
        naked_kinds: Vec::new(),
        max_active_entries: None,
        max_daily_submits: None,
        max_open_orders: None,
        max_active_entries_per_underlying: None,
        max_active_entries_per_sector: None,
        max_single_entry_risk_capital_usd: None,
        max_portfolio_risk_capital_usd: None,
        block_unestimated_risk_capital: true,
        event_shock: EventShockStatus {
            required: false,
            dry_run_only: false,
            source: "none".to_string(),
            freshness: "fresh".to_string(),
            unavailable_reason: None,
        },
        event_shock_earnings_events: Vec::new(),
        event_shock_block_days_before_earnings: 1,
        event_shock_block_days_after_earnings: 1,
        sectors: TextMap::new(),
        interval_secs: 60,
        quantity: 1,
        open_orders_enabled: false,
        kill_switch: false,
        force_flatten: false,
        stale_entry_secs: 900,
        stale_close_secs: 120,
        close_orders_enabled: false,
        close_order_mode: CloseOrderMode::LegacyLegOrderList,
        close_regular_hours_only: true,
        close_start: time(9, 30),
        close_end: time(16, 0),
        close_price_cushion: amount(0.02),
        close_reprice_step: amount(0.0),
        max_close_price_cushion: amount(0.0),
        max_close_attempts: 3,
        close_reprice_cooldown_secs: 30,
        active_risk_candidate_quote_limit: 5,
        active_risk_quote_stale_secs: 30,
        profit_target_close_fraction: amount(0.50),
        stop_loss_close_multiple: amount(2.0),
        max_hold_secs: 0,
        expiration_exit_days: 1,
        lifecycle_poll_secs: 300,
        lifecycle_activity_lookback_hours: 72,
        lifecycle_activity_block_hours: 24,
        expiration_entry_block_days: -1,
        ignore_entry_window: false,
        entry_start: time(9, 45),
        entry_end: time(14, 30),
        entry_timezone: "America/New_York".to_string(),
        candidate_ledger_enabled: false,
        candidate_ledger_max_candidates: 10,
        fleet: None,
        fleet_account_id: None,
        fleet_policy_blocks: Vec::new(),
        operational_account_id: None,
    }
}

fn management(config: &AlpacaOptionsRuntimeConfig) -> AlpacaOptionsManagementConfig {
    AlpacaOptionsManagementConfig::from_runtime_config(config)
}

fn config_with_fleet_underlying_limit(limit: usize) -> AlpacaOptionsRuntimeConfig {
    let mut active_entries_by_underlying: TextMap<usize> = TextMap::new();
    active_entries_by_underlying.insert("SPY".to_string(), 1);
    let mut config = config_for_gate_tests();
    config.fleet = Some(FleetRisk {
        max_active_entries: None,
        active_entries: 1,
        max_active_entries_per_underlying: Some(limit),
        active_entries_by_underlying,
        max_active_entries_per_sector: None,
        sectors: TextMap::new(),
        active_entries_by_sector: TextMap::new(),
    });
    config
}

fn state_entry() -> StrategyStateEntry {
    StrategyStateEntry {
        trade_date: "2026-05-04".to_string(),
        underlying: "SPY".to_string(),
        strategy: credit_spread_strategy_name(CreditSpreadKind::Put).to_string(),
        order_list_id: "open-list-1".to_string(),
        short_symbol: "SPY260512P00708000".to_string(),
        long_symbol: "SPY260512P00705000".to_string(),
        short_call_symbol: None,
        long_call_symbol: None,
        quantity: 1,
        credit: amount(0.50),
        debit: None,
        risk_capital_usd: None,
        score: amount(60.0),
        parent_order_id: Some("open-parent-1".to_string()),
        submitted_at_utc: None,
        spread_instrument_id: None,
        spread_raw_symbol: None,
        spread_legs: Vec::new(),
        entry_pricing_source: None,
        close_order_list_id: None,
        close_parent_order_id: None,
        close_reason: None,
        close_order_mode: None,
        close_attempts: 0,
        last_close_submitted_at_utc: None,
        submitted: true,
        canceled: false,
        closed: false,
        recorded_at_utc: "2026-05-04T14:00:00Z".to_string(),
        closed_at_utc: None,
    }
}

fn debit_state_entry_expiring_in_days(days: i64) -> StrategyStateEntry {
    let expiration = (chrono::Utc::now().date_naive() + chrono::Duration::days(days))
        .format("%y%m%d")
        .to_string();
    let mut entry = state_entry();
    entry.strategy = debit_spread_strategy_name(DebitSpreadKind::Call).to_string();
    entry.short_symbol = format!("SPY{expiration}C00713000");
    entry.long_symbol = format!("SPY{expiration}C00710000");
    entry.credit = amount(0.0);
    entry.debit = Some(amount(1.00));
    entry
}

fn debit_thresholds(config: &AlpacaOptionsRuntimeConfig, debit: f64) -> CloseThresholds {
    let profit = f64::from_bits(config.profit_target_close_fraction.bits);
    let stop = f64::from_bits(config.stop_loss_close_multiple.bits);
    CloseThresholds { profit_target: amount(debit * profit), stop_loss: amount(debit * stop) }
}

fn naked_option_candidate() -> NakedOptionCandidate {
    NakedOptionCandidate {
        short: ScoredContract {
            symbol: "SPY260512P00708000".to_string(),
            expiration_date: "2026-05-12".to_string(),
            dte: 7,
            strike: amount(708.0),
            bid: amount(0.71),
            ask: amount(0.92),
            delta_abs: amount(0.16),
            spread_pct: amount(0.08),
            bid_size: 10,
            ask_size: 10,
            volume: 100,
            open_interest: 1_200,
            implied_volatility: Some(amount(0.22)),
        },
        credit: amount(0.71),
        capital_requirement_model: Some("cash_secured_put".to_string()),
        estimated_buying_power_requirement: amount(70_800.0),
        buying_power_usage_pct: Some(amount(0.0708)),
        return_on_buying_power: amount(0.001003),
        score: amount(72.0),
    }
}

fn naked_entry(kind: NakedOptionKind) -> SelectedOptionsEntry {
    SelectedOptionsEntry::NakedOption(SelectedNakedOptionEntry {
        underlying: "SPY".to_string(),
        kind,
        candidate: naked_option_candidate(),
    })
}

fn no_risk_figures() -> RiskCapitalFigures {
    RiskCapitalFigures {
        candidate: Some(figure(70_800.0)),
        active_known: figure(0.0),
        projected: figure(70_800.0),
    }
}

#[test]
fn entry_gate_allows_inside_window() {
    let config = config_for_gate_tests();
    let admission_config = EntryAdmissionConfig::from_runtime_config(&config);
    assert_eq!(
        entry_gate_decision(&admission_config, instant("2026-05-04T14:00:00Z")),
        EntryGateDecision::Continue
    );
}

#[test]
fn entry_gate_blocks_outside_window_without_credentials() {
    let config = config_for_gate_tests();
    let admission_config = EntryAdmissionConfig::from_runtime_config(&config);
    assert_eq!(
        entry_gate_decision(&admission_config, instant("2026-05-04T21:00:00Z")),
        EntryGateDecision::OutsideEntryWindow
    );
}

#[test]
fn entry_gate_prefers_kill_switch() {
    let mut config = config_for_gate_tests();
    config.kill_switch = true;
    let admission_config = EntryAdmissionConfig::from_runtime_config(&config);
    assert_eq!(
        entry_gate_decision(&admission_config, instant("2026-05-04T21:00:00Z")),
        EntryGateDecision::KillSwitch
    );
}

#[test]
fn close_submission_gate_blocks_after_regular_hours() {
    let config = config_for_gate_tests();
    assert_eq!(
        close_submission_gate_decision(&management(&config), instant("2026-05-04T21:00:00Z")),
        CloseSubmissionGateDecision::OutsideCloseWindow,
    );
}

#[test]
fn close_submission_gate_allows_force_flatten_after_regular_hours() {
    let mut config = config_for_gate_tests();
    config.force_flatten = true;
    assert_eq!(
        close_submission_gate_decision(&management(&config), instant("2026-05-04T21:00:00Z")),
        CloseSubmissionGateDecision::Continue,
    );
}

#[test]
fn reconciliation_action_marks_closed_when_broker_is_flat() {
    assert_eq!(
        reconciliation_action(
            &state_entry(),
            &TextSet::new(),
            &TextSet::new(),
            &Some("filled".to_string()),
        ),
        ReconciliationAction::MarkClosed,
    );
}

#[test]
fn reconciliation_action_marks_canceled_for_terminal_entry_without_position() {
    assert_eq!(
        reconciliation_action(
            &state_entry(),
            &TextSet::new(),
            &TextSet::new(),
            &Some("canceled".to_string()),
        ),
        ReconciliationAction::MarkCanceled,
    );
}

#[test]
fn reconciliation_action_detects_partial_position_match() {
    let mut position_symbols = TextSet::new();
    position_symbols.insert("SPY260512P00708000".to_string());
    assert_eq!(
        reconciliation_action(&state_entry(), &position_symbols, &TextSet::new(), &None),
        ReconciliationAction::PartialPosition,
    );
}

#[test]
fn close_attempt_limit_blocks_non_forced_submission() {
    let config = config_for_gate_tests();
    let mut entry = state_entry();
    entry.close_attempts = config.max_close_attempts;
    assert!(close_attempts_exhausted(&management(&config), &entry));

    let mut forced = config_for_gate_tests();
    forced.force_flatten = true;
    assert!(!close_attempts_exhausted(&management(&forced), &entry));
}

#[test]
fn close_reprice_cooldown_reports_remaining_time() {
    let mut config = config_for_gate_tests();
    config.close_reprice_cooldown_secs = 60;
    let mut entry = state_entry();
    entry.last_close_submitted_at_utc = Some(chrono::Utc::now().to_rfc3339());
    assert!(close_reprice_cooldown_remaining_secs(&management(&config), &entry, now()).is_some());
}

#[test]
fn fleet_underlying_limit_allows_same_underlying_below_limit() {
    let config = config_with_fleet_underlying_limit(2);
    let admission_config = EntryAdmissionConfig::from_runtime_config(&config);
    assert!(submission_block_for_selected(
        &admission_config,
        &StrategyState::default(),
        &naked_entry(NakedOptionKind::Call),
        "2026-05-04",
        &EntryAdmissionSnapshot::default(),
        &no_risk_figures(),
    )
    .is_none());
}

#[test]
fn fleet_underlying_limit_blocks_at_configured_limit() {
    let config = config_with_fleet_underlying_limit(1);
    let admission_config = EntryAdmissionConfig::from_runtime_config(&config);
    let block = submission_block_for_selected(
        &admission_config,
        &StrategyState::default(),
        &naked_entry(NakedOptionKind::Call),
        "2026-05-04",
        &EntryAdmissionSnapshot::default(),
        &no_risk_figures(),
    )
    .unwrap();
    assert_eq!(block.reason, "fleet_max_active_entries_per_underlying");
    assert_eq!(block.current, Some(1));
    assert_eq!(block.limit, Some(1));
}

#[test]
fn admission_block_reason_classifies_underlying_position_conflicts() {
    let reasons =
        vec!["existing open option position on underlying SLV: SLV260515P00067000".to_string()];
    assert_eq!(admission_block_reason(&reasons), "existing_underlying_position");
}

#[test]
fn admission_block_reason_classifies_working_underlying_orders() {
    let reasons =
        vec!["working order already references underlying SLV: SLV260515P00067000".to_string()];
    assert_eq!(admission_block_reason(&reasons), "working_underlying_order");
}

#[test]
fn admission_block_reason_prefers_account_state_blocks() {
    let reasons = vec![
        "existing open option position on underlying SLV: SLV260515P00067000".to_string(),
        "account trading_blocked is true".to_string(),
    ];
    assert_eq!(admission_block_reason(&reasons), "account_not_tradable");
}

#[test]
fn broker_permission_guard_blocks_naked_after_uncovered_rejection() {
    let mut rejected = state_entry();
    rejected.strategy = naked_option_strategy_name(NakedOptionKind::Call).to_string();
    rejected.long_symbol.clear();
    rejected.mark_canceled();
    rejected.close_reason = Some(UNCOVERED_OPTION_PERMISSION_REJECTION_REASON.to_string());
    let state = StrategyState { entries: vec![rejected] };
    let admission_config = EntryAdmissionConfig::from_runtime_config(&config_for_gate_tests());
    let block = submission_block_for_selected(
        &admission_config,
        &state,
        &naked_entry(NakedOptionKind::Call),
        "2026-05-04",
        &EntryAdmissionSnapshot::default(),
        &no_risk_figures(),
    )
    .unwrap();
    assert_eq!(block.reason, "broker_uncovered_option_permission");
    assert_eq!(block.details, vec!["alpaca_http_40310000"]);
}

#[test]
fn debit_close_reason_detects_expiration_risk() {
    let mut config = config_for_gate_tests();
    config.expiration_exit_days = 1;
    config.profit_target_close_fraction = amount(10.0);
    config.stop_loss_close_multiple = amount(0.0);
    let entry = debit_state_entry_expiring_in_days(1);
    assert_eq!(
        debit_spread_close_reason(
            &management(&config),
            &entry,
            amount(1.0),
            &debit_thresholds(&config, 1.0),
            now(),
        ),
        Some("expiration_risk".to_string()),
    );
}

#[test]
fn debit_close_reason_uses_manual_flatten_reason() {
    let mut config = config_for_gate_tests();
    config.force_flatten = true;
    let entry = debit_state_entry_expiring_in_days(30);
    assert_eq!(
        debit_spread_close_reason(
            &management(&config),
            &entry,
            amount(1.0),
            &debit_thresholds(&config, 1.0),
            now(),
        ),
        Some("manual_flatten".to_string()),
    );
}

#[test]
fn naked_option_order_builders_use_simple_open_and_close_orders() {
    let candidate = naked_option_candidate();
    let selected = naked_entry(NakedOptionKind::Put);
    let opens = build_selected_entry_orders(&selected, "open-list-1", 2).unwrap();
    assert_eq!(opens.len(), 1);
    let open = &opens[0];
    assert_eq!(open.client_order_id, "open-list-1");
    assert_eq!(open.side, AlpacaOptionsPlanSide::Sell);
    assert!(!open.reduce_only);
    assert_eq!(open.quantity, 2);
    assert_eq!(open.limit_price, amount(0.71));

    let mut entry = state_entry();
    entry.strategy = naked_option_strategy_name(NakedOptionKind::Put).into();
    entry.short_symbol = candidate.short.symbol.clone();
    entry.long_symbol.clear();
    entry.quantity = 2;
    let quote = CloseQuote {
        short_ask: amount(0.92),
        long_bid: amount(0.0),
        short_call_ask: None,
        long_call_bid: None,
        debit: amount(0.92),
    };
    let closes = build_close_entry_orders(&entry, &quote, "close-list-1").unwrap();
    assert_eq!(closes.len(), 1);
    let close = &closes[0];
    assert_eq!(close.client_order_id, "close-list-1");
    assert_eq!(close.side, AlpacaOptionsPlanSide::Buy);
    assert!(close.reduce_only);
    assert_eq!(close.quantity, 2);
    assert_eq!(close.limit_price, amount(0.92));
}
