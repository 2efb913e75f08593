//! Operator events, payloads and runtime settings.
use alpaca_options::active_entry::ActiveEntryDecision;
use alpaca_options::active_entry::SpreadPricingSource;
use alpaca_options::active_entry::SpreadQuote;
use alpaca_options::admission::EntryAdmissionConfig;
use alpaca_options::admission::SubmissionBlock;
use alpaca_options::amount::Amount;
use alpaca_options::amount::Figure;
use alpaca_options::calendar::CalendarDate;
use alpaca_options::calendar::TimeOfDay;
use alpaca_options::calendar::UtcInstant;
use alpaca_options::candidate_data::OptionsCandidateData;
use alpaca_options::candidate_data::OptionsOpportunityData;
use alpaca_options::candidate_set::AlpacaOptionsCandidateProfile;
use alpaca_options::candidate_set::OptionsCandidateSet;
use alpaca_options::candidate_set::OptionsScanReport;
use alpaca_options::candidate_set::ProfiledOptionsEntry;
use alpaca_options::candidates::CreditSpreadKind;
use alpaca_options::candidates::ScoredContract;
use alpaca_options::candidates::SpreadCandidate;
use alpaca_options::engine_events::runner_start_line;
use alpaca_options::engine_events::RunnerSettings;
use alpaca_options::entry::EntryPremiumKind;
use alpaca_options::entry::SelectedEntry;
use alpaca_options::entry::SelectedOptionsEntry;
use alpaca_options::entry_strategy::AlpacaOptionsEntryStrategyConfig;
use alpaca_options::events::active_entry_event;
use alpaca_options::events::dry_run_event;
use alpaca_options::events::entry_block_event;
use alpaca_options::events::lifecycle_poll_error_event;
use alpaca_options::events::lifecycle_poll_event;
use alpaca_options::events::management_snapshot_event;
use alpaca_options::events::skipped_event;
use alpaca_options::events::spread_close_block_event;
use alpaca_options::events::spread_close_submit_event;
use alpaca_options::events::ProfitFigures;
use alpaca_options::json::candidate_alert_record;
use alpaca_options::json::Json;
use alpaca_options::json::JsonNumber;
use alpaca_options::lifecycle::OptionLifecycleEvent;
use alpaca_options::lifecycle::OptionLifecycleEventKind;
use alpaca_options::management::AlpacaOptionsManagementConfig;
use alpaca_options::management::CloseOrderMode;
use alpaca_options::management::CloseQuote;
use alpaca_options::mutation::close_accepted_state_mutation;
use alpaca_options::mutation::close_cleared_state_mutation;
use alpaca_options::mutation::entry_canceled_state_mutation;
use alpaca_options::mutation::entry_closed_state_mutation;
use alpaca_options::operator_config::join_path;
use alpaca_options::operator_config::operator_config;
use alpaca_options::operator_config::status_ledger_since;
use alpaca_options::operator_config::AccountRuntimeDefaults;
use alpaca_options::operator_config::OperatorEnvironment;
use alpaca_options::operator_config::StoreFacts;
use alpaca_options::orders::build_vertical_spread_entry_order;
use alpaca_options::orders::OptionSpreadLeg;
use alpaca_options::orders::OptionSpreadPlan;
use alpaca_options::payloads::close_accepted_payload;
use alpaca_options::payloads::close_cleared_payload;
use alpaca_options::payloads::price_spread_close;
use alpaca_options::payloads::price_spread_entry;
use alpaca_options::payloads::spread_quote_snapshot_payload;
use alpaca_options::payloads::state_entry_payload;
use alpaca_options::payloads::vertical_spread_close_order_draft_payload;
use alpaca_options::payloads::vertical_spread_order_draft_payload;
use alpaca_options::payloads::ObservedQuote;
use alpaca_options::payloads::OrderAcceptance;
use alpaca_options::payloads::OrderFigures;
use alpaca_options::payloads::VerticalSpreadCloseOrderDraft;
use alpaca_options::payloads::VerticalSpreadOrderDraft;
use alpaca_options::planner::plan_selected_entry;
use alpaca_options::profile::AlpacaOptionsStrategyFamily;
use alpaca_options::profile::AlpacaOptionsStrategyMode;
use alpaca_options::profile::AlpacaOptionsStrategyProfile;
use alpaca_options::profile::AlpacaOptionsStrategyRiskOverrides;
use alpaca_options::profile::AlpacaOptionsStrategyScannerConfig;
use alpaca_options::runtime::option_chain_scan_config_from_engine;
use alpaca_options::runtime::resolve_account_id;
use alpaca_options::runtime::AlpacaOptionsRuntimeConfig;
use alpaca_options::runtime::EventShockStatus;
use alpaca_options::runtime::LedgerStep;
use alpaca_options::state::StrategyStateEntry;
use alpaca_options::text_map::TextMap;
use alpaca_options::universe_plan::build_plan;
use alpaca_options::universe_plan::universe_plan_lines;

const NOW: UtcInstant = UtcInstant { secs: 1_777_906_800, nanos: 0 };

fn amount(value: f64) -> Amount {
    Amount { bits: value.to_bits() }
}

fn owned(items: &[&str]) -> Vec<String> {
    items.iter().map(|item| item.to_string()).collect()
}

fn keys(value: &Json) -> Vec<&str> {
    match value {
        Json::Object(fields) => fields.iter().map(|(name, _)| name.as_str()).collect(),
        _ => panic!("not an object"),
    }
}

fn float(value: &Json, name: &str) -> f64 {
    match value.get(name) {
        Some(Json::Number(JsonNumber::Float(amount))) => f64::from_bits(amount.bits),
        other => panic!("{name}: {other:?}"),
    }
}

fn is_null(value: &Json, name: &str) -> bool {
    matches!(value.get(name), Some(Json::Null))
}

fn entry() -> StrategyStateEntry {
    StrategyStateEntry {
        trade_date: "2026-05-04".to_string(),
        underlying: "SPY".to_string(),
        strategy: "put_credit".to_string(),
        order_list_id: "list-1".to_string(),
        short_symbol: "SPY260512P00708000".to_string(),
        long_symbol: "SPY260512P00705000".to_string(),
        short_call_symbol: None,
        long_call_symbol: None,
        quantity: 1,
        credit: amount(0.5),
        debit: None,
        risk_capital_usd: None,
        score: amount(60.0),
        parent_order_id: None,
        submitted_at_utc: None,
        spread_instrument_id: None,
        spread_raw_symbol: None,
        spread_legs: Vec::new(),
        entry_pricing_source: None,
        close_order_list_id: Some("close-1".to_string()),
        close_parent_order_id: None,
        close_reason: None,
        close_order_mode: None,
        close_attempts: 2,
        last_close_submitted_at_utc: None,
        submitted: true,
        canceled: false,
        closed: false,
        recorded_at_utc: "2026-05-04T14:00:00Z".to_string(),
        closed_at_utc: None,
    }
}

fn contract(symbol: &str) -> ScoredContract {
    ScoredContract {
        symbol: symbol.to_string(),
        expiration_date: "2026-05-12".to_string(),
        dte: 8,
        strike: amount(708.0),
        bid: amount(1.0),
        ask: amount(1.1),
        delta_abs: amount(0.20),
        spread_pct: amount(0.05),
        bid_size: 10,
        ask_size: 10,
        volume: 100,
        open_interest: 1_000,
        implied_volatility: None,
    }
}

fn credit() -> SelectedOptionsEntry {
    SelectedOptionsEntry::Credit(SelectedEntry {
        underlying: "SPY".to_string(),
        kind: CreditSpreadKind::Put,
        candidate: SpreadCandidate {
            short: contract("SPY260512P00708000"),
            long: contract("SPY260512P00705000"),
            width: amount(3.0),
            credit: amount(0.5),
            max_loss: amount(2.5),
            return_on_risk: amount(0.2),
            score: amount(70.0),
        },
    })
}

fn leg(symbol: &str, ratio: i64) -> OptionSpreadLeg {
    OptionSpreadLeg {
        symbol: symbol.to_string(),
        instrument_id: format!("{symbol}.ALPACA"),
        ratio,
    }
}

fn plan() -> OptionSpreadPlan {
    OptionSpreadPlan {
        instrument_id: "SPY-SPREAD.ALPACA".to_string(),
        raw_symbol: "SPY-SPREAD".to_string(),
        underlying: "SPY".to_string(),
        strategy: "put_credit".to_string(),
        legs: vec![leg("SPY260512P00708000", -1), leg("SPY260512P00705000", 1)],
        scanner_premium_kind: EntryPremiumKind::Credit,
        scanner_premium: amount(0.5),
    }
}

fn observed(bid: f64, ask: f64) -> ObservedQuote {
    ObservedQuote {
        quote: SpreadQuote {
            bid: amount(bid),
            ask: amount(ask),
            ts_event: NOW.secs as u64 * 1_000_000_000,
        },
        mid: amount((bid + ask) / 2.0),
        ts_init: 9,
    }
}

fn profile(id: &str, family: AlpacaOptionsStrategyFamily) -> AlpacaOptionsStrategyProfile {
    AlpacaOptionsStrategyProfile {
        id: id.to_string(),
        family,
        mode: AlpacaOptionsStrategyMode::Live,
        universe_groups: Vec::new(),
        include_underlyings: owned(&["SPY"]),
        exclude_underlyings: Vec::new(),
        underlyings: owned(&["SPY"]),
        quantity: 1,
        scanner: AlpacaOptionsStrategyScannerConfig::Naked,
        risk: AlpacaOptionsStrategyRiskOverrides::default(),
    }
}

fn runtime() -> AlpacaOptionsRuntimeConfig {
    let mut dry = profile("dry", AlpacaOptionsStrategyFamily::PutCredit);
    dry.mode = AlpacaOptionsStrategyMode::DryRun;
    let mut universe_groups: TextMap<Vec<String>> = TextMap::new();
    universe_groups.insert("tech".to_string(), owned(&["AAPL", "MSFT"]));
    AlpacaOptionsRuntimeConfig {
        underlyings: owned(&["SPY"]),
        universe_groups,
        strategy_profiles: vec![profile("naked", AlpacaOptionsStrategyFamily::NakedPut), dry],
        spread_kinds: vec![CreditSpreadKind::Put],
        iron_condor_enabled: true,
        debit_kinds: Vec::new(),
        naked_kinds: Vec::new(),
        max_active_entries: Some(4),
        max_daily_submits: None,
        max_open_orders: None,
        max_active_entries_per_underlying: None,
        max_active_entries_per_sector: None,
        max_single_entry_risk_capital_usd: Some(Figure {
            amount: amount(500.0),
            text: "500.00".to_string(),
        }),
        max_portfolio_risk_capital_usd: None,
        block_unestimated_risk_capital: true,
        event_shock: EventShockStatus {
            required: false,
            dry_run_only: false,
            source: "none".to_string(),
            freshness: "fresh".to_string(),
            unavailable_reason: None,
        },
        event_shock_earnings_events: Vec::new(),
        event_shock_block_days_before_earnings: 1,
        event_shock_block_days_after_earnings: 1,
        sectors: TextMap::new(),
        interval_secs: 60,
        quantity: 2,
        open_orders_enabled: true,
        kill_switch: false,
        force_flatten: false,
        stale_entry_secs: 900,
        stale_close_secs: 120,
        close_orders_enabled: true,
        close_order_mode: CloseOrderMode::OptionSpread,
        close_regular_hours_only: true,
        close_start: TimeOfDay { secs: 34_200, nanos: 0 },
        close_end: TimeOfDay { secs: 57_600, nanos: 0 },
        close_price_cushion: amount(0.02),
        close_reprice_step: amount(0.01),
        max_close_price_cushion: amount(0.05),
        max_close_attempts: 3,
        close_reprice_cooldown_secs: 30,
        active_risk_candidate_quote_limit: 5,
        active_risk_quote_stale_secs: 30,
        profit_target_close_fraction: amount(0.5),
        stop_loss_close_multiple: amount(2.0),
        max_hold_secs: 7,
        expiration_exit_days: 1,
        lifecycle_poll_secs: 300,
        lifecycle_activity_lookback_hours: 72,
        lifecycle_activity_block_hours: 24,
        expiration_entry_block_days: 2,
        ignore_entry_window: false,
        entry_start: TimeOfDay { secs: 35_100, nanos: 0 },
        entry_end: TimeOfDay { secs: 52_200, nanos: 0 },
        entry_timezone: "America/New_York".to_string(),
        candidate_ledger_enabled: true,
        candidate_ledger_max_candidates: 3,
        fleet: None,
        fleet_account_id: Some("paper-main".to_string()),
        fleet_policy_blocks: Vec::new(),
        operational_account_id: None,
    }
}

#[test]
fn profiles_are_written_with_their_overrides() {
    let mut context = AlpacaOptionsCandidateProfile::synthetic(
        "core".to_string(),
        AlpacaOptionsStrategyFamily::PutCredit,
        2,
    );
    assert_eq!(
        keys(&context.to_json_value()),
        vec!["profile_id", "profile_family", "profile_mode", "profile_quantity"],
    );
    context.risk.max_daily_submits = Some(4);
    let payload = context.to_json_value();
    let risk = payload.get("profile_risk").unwrap();
    assert_eq!(keys(risk), vec!["max_daily_submits"]);
    assert_eq!(risk.get_number("max_daily_submits"), Some(4));
}

#[test]
fn candidate_data_shows_scans_and_the_selection() {
    let context = AlpacaOptionsCandidateProfile::synthetic(
        "core".to_string(),
        AlpacaOptionsStrategyFamily::PutCredit,
        1,
    );
    let mut rejections: TextMap<usize> = TextMap::new();
    rejections.add_count("spread_too_wide", 2);
    let mut set = OptionsCandidateSet::new("2026-05-04");
    let empty = OptionsOpportunityData::new(OptionsCandidateSet::new("2026-05-04"), 1, 2);
    assert!(is_null(&empty.to_json(), "selected"));
    assert!(empty.same_data(&empty.clone()));
    set.push_scan(OptionsScanReport::new(
        context.copy(),
        "SPY",
        "put_credit",
        0,
        5,
        4,
        3,
        rejections,
        "no_liquidity",
    ));
    set.consider_candidate(ProfiledOptionsEntry::new(context, credit()));
    let regime = || Json::Object(vec![("label".to_string(), Json::Text("calm".to_string()))]);
    let data = OptionsCandidateData::new(set.clone(), Some(regime()), 1, 2);
    assert!(data.same_data(&OptionsCandidateData::new(set.clone(), Some(regime()), 1, 2)));
    assert!(!data.same_data(&OptionsCandidateData::new(set.clone(), Some(Json::Null), 1, 2)));
    assert!(!data.same_data(&OptionsCandidateData::new(set, None, 1, 2)));
    assert_eq!(OptionsCandidateData::data_name(), "OptionsCandidateData");
    let payload = data.to_json();
    assert_eq!(payload.get("regime_context").unwrap().get_str("label"), Some("calm"));
    let scan = &payload.get_list("scans").unwrap()[0];
    assert_eq!(scan.get_str("outcome"), Some("no_candidate"));
    assert_eq!(scan.get_str("reason"), Some("no_liquidity"));
    assert_eq!(scan.get("rejections").unwrap().get_number("spread_too_wide"), Some(2));
    let selected = payload.get("selected").unwrap();
    assert_eq!(selected.get_str("premium_kind"), Some("credit"));
    assert_eq!(float(selected, "premium"), 0.5);
}

#[test]
fn entry_decisions_name_the_plan() {
    let entry_plan = plan_selected_entry(credit()).unwrap();
    let event = dry_run_event("open_orders_disabled", "2026-05-04", &entry_plan);
    assert_eq!(event.event_type, "entry_decision");
    assert_eq!(event.payload.get_str("action"), Some("dry_run"));
    assert_eq!(float(&event.payload, "score"), 70.0);
    let legs = event.payload.get_list("planned_order_legs").unwrap();
    assert_eq!(legs[0].get_str("side"), Some("sell"));
    let event = skipped_event(
        "duplicate_pending_submission",
        Some("2026-05-04:put_credit:SPY"),
        "2026-05-04",
        &entry_plan,
    );
    assert_eq!(event.payload.get_str("key"), Some("2026-05-04:put_credit:SPY"));
    assert!(event.payload.get("score").is_none());
    let block = SubmissionBlock {
        reason: "risk_max_open_orders".to_string(),
        current: Some(3),
        limit: None,
        details: Vec::new(),
    };
    let event = entry_block_event("2026-05-04", &credit(), &block);
    assert_eq!(event.payload.get_number("current"), Some(3));
    assert!(is_null(&event.payload, "limit"));
}

#[test]
fn blocked_closes_say_why() {
    let config = AlpacaOptionsManagementConfig::default();
    let trigger = Some("stop_loss".to_string());
    let event = active_entry_event(
        &config,
        &entry(),
        ActiveEntryDecision::OutsideCloseWindow,
        &trigger,
        &Vec::new(),
    )
    .unwrap();
    assert_eq!(event.event_type, "management_block");
    assert_eq!(event.payload.get_str("reason"), Some("outside_close_window"));
    assert_eq!(event.payload.get_str("window_start"), Some("09:30:00"));
    assert_eq!(event.payload.get_str("window_end"), Some("16:00:00"));
    assert_eq!(event.payload.get_str("timezone"), Some("America/New_York"));
    let event = active_entry_event(
        &config,
        &entry(),
        ActiveEntryDecision::CancelClose { age_secs: 1_000 },
        &None,
        &Vec::new(),
    )
    .unwrap();
    assert_eq!(event.event_type, "management_snapshot");
    assert_eq!(
        keys(&event.payload),
        vec![
            "action",
            "underlying",
            "strategy",
            "order_list_id",
            "close_order_list_id",
            "age_secs",
            "limit_secs",
        ],
    );
    let event = active_entry_event(
        &config,
        &entry(),
        ActiveEntryDecision::QuoteStale,
        &None,
        &owned(&["SPY260512P00708000"]),
    )
    .unwrap();
    assert_eq!(event.payload.get_list("symbols").unwrap().len(), 1);
    for quiet in [ActiveEntryDecision::Hold, ActiveEntryDecision::Wait, ActiveEntryDecision::MarkClosed] {
        assert!(active_entry_event(&config, &entry(), quiet, &None, &Vec::new()).is_none());
    }
}

#[test]
fn snapshots_show_the_profit_of_the_entry() {
    let quote = CloseQuote {
        short_ask: amount(0.3),
        long_bid: amount(0.1),
        short_call_ask: None,
        long_call_bid: None,
        debit: amount(-0.2),
    };
    let profit = ProfitFigures { pnl: amount(0.3), pnl_fraction: amount(0.6) };
    let event =
        management_snapshot_event(&entry(), &quote, &None, profit, Some(-1), Some(60));
    assert_eq!(event.payload.get_str("net_premium_kind"), Some("credit"));
    assert_eq!(float(&event.payload, "unrealized_pnl_fraction"), 0.6);
    assert!(matches!(
        event.payload.get("days_to_expiration"),
        Some(Json::Number(JsonNumber::Negative(-1))),
    ));
    let mut debit = entry();
    debit.strategy = "call_debit".to_string();
    let event = management_snapshot_event(&debit, &quote, &None, profit, None, None);
    assert!(is_null(&event.payload, "entry_net_premium"));
    assert!(is_null(&event.payload, "unrealized_pnl"));
    assert_eq!(float(&event.payload, "close_net_premium"), 0.2);
}

#[test]
fn spread_drafts_show_their_prices() {
    let entry_plan = plan_selected_entry(credit()).unwrap();
    let pricing = price_spread_entry(&plan(), Some(observed(-0.6, 0.0)));
    assert_eq!(pricing.pricing_source, SpreadPricingSource::ScannerSnapshot);
    assert_eq!(pricing.signed_limit_price, amount(-0.5));
    let pricing = price_spread_entry(&plan(), Some(observed(-0.6, -0.4)));
    assert_eq!(pricing.signed_limit_price, amount(-0.4));
    let order = build_vertical_spread_entry_order(&plan(), "list-1", 1, amount(-0.4)).unwrap();
    let draft = VerticalSpreadOrderDraft {
        plan: plan(),
        order,
        figures: OrderFigures { quantity: amount(1.0), limit_price: amount(-0.4) },
        pricing,
        scanner_vs_order_limit: amount(-0.1),
    };
    let payload =
        vertical_spread_order_draft_payload("2026-05-04", &entry_plan, "regime", &draft);
    assert_eq!(payload.get_str("pricing_source"), Some("nautilus_spread_quote"));
    assert_eq!(float(&payload, "scanner_signed_price"), -0.5);
    assert_eq!(payload.get("order").unwrap().get_str("side"), Some("buy"));
    assert_eq!(payload.get_number("quote_ts_init"), Some(9));
    let missing = spread_quote_snapshot_payload("2026-05-04", &entry_plan, &plan(), None);
    assert_eq!(missing.get_str("reason"), Some("spread_quote_missing"));
    let ratio = &missing.get_list("legs").unwrap()[0];
    assert!(matches!(ratio.get("ratio"), Some(Json::Number(JsonNumber::Negative(-1)))));
}

#[test]
fn spread_closes_show_why_they_have_no_limit() {
    let pricing = price_spread_close(None, amount(-0.5), amount(0.02), 30, NOW);
    let draft = VerticalSpreadCloseOrderDraft { plan: plan(), order: None, pricing };
    let payload = vertical_spread_close_order_draft_payload(
        &entry(),
        "close-2",
        &draft,
        CloseOrderMode::LegacyLegOrderList,
    );
    assert_eq!(payload.get_str("action"), Some("unavailable"));
    assert_eq!(payload.get_str("reason"), Some("spread_quote_missing"));
    assert!(payload.get("spread_bid").is_none());
    assert_eq!(payload.get_number("quote_stale_limit_secs"), Some(30));
    let event = spread_close_block_event(&entry(), "close-2", "stop_loss", &plan(), &pricing);
    assert_eq!(event.payload.get_str("reason"), Some("spread_quote_missing"));
    assert!(is_null(&event.payload, "spread_bid"));
    let priced =
        price_spread_close(Some(observed(-0.6, -0.4)), amount(-0.62), amount(0.02), 30, NOW);
    let event = spread_close_submit_event(
        &entry(),
        "close-2",
        "stop_loss",
        "close-2-spread-close",
        &plan(),
        &priced,
    );
    assert_eq!(event.event_type, "management_action");
    assert_eq!(event.payload.get_number("close_attempt"), Some(3));
    assert_eq!(float(&event.payload, "signed_close_limit"), -0.62);
}

fn acceptance(client_order_id: &str) -> OrderAcceptance {
    OrderAcceptance {
        event_id: "event-1".to_string(),
        client_order_id: client_order_id.to_string(),
        venue_order_id: "venue-1".to_string(),
        instrument_id: "SPY260512P00708000.ALPACA".to_string(),
        account_id: "ALPACA-001".to_string(),
        reconciliation: 0,
        ts_event: 1_000_000_007,
    }
}

fn spread_entry() -> StrategyStateEntry {
    let mut held = entry();
    held.spread_legs = plan().legs;
    held.entry_pricing_source = Some("scanner_snapshot_fallback".to_string());
    held
}

#[test]
fn state_payloads_hold_the_entry() {
    let state = state_entry_payload(&spread_entry());
    assert_eq!(keys(&state).len(), 30);
    assert_eq!(float(&state, "credit"), 0.5);
    assert_eq!(state.get_number("close_attempts"), Some(2));
    assert_eq!(state.get_str("entry_pricing_source"), Some("scanner_snapshot_fallback"));
    assert_eq!(state.get_list("spread_legs").unwrap().len(), plan().legs.len());
    let accepted = close_accepted_payload(
        &acceptance("close-2-short"),
        &spread_entry(),
        "close-2",
        &Some("venue-1".to_string()),
        "stop_loss",
        "legacy_leg_order_list",
    );
    assert_eq!(
        keys(&accepted),
        vec![
            "order_list_id",
            "close_order_list_id",
            "close_parent_order_id",
            "client_order_id",
            "venue_order_id",
            "instrument_id",
            "account_id",
            "reconciliation",
            "close_reason",
            "close_order_mode",
            "entry",
        ],
    );
    assert_eq!(accepted.get("entry").unwrap().get_str("underlying"), Some("SPY"));
    let cleared = close_cleared_payload(&spread_entry(), &None, "close_terminal_without_fill");
    assert!(is_null(&cleared, "close_order_list_id"));
    assert_eq!(cleared.get_str("reason"), Some("close_terminal_without_fill"));
}

#[test]
fn changes_of_state_say_what_happened() {
    let held = spread_entry();
    let accepted = close_accepted_state_mutation(
        &acceptance("close-2-short"),
        &held,
        "close-2",
        &Some("venue-1".to_string()),
        "stop_loss",
        "legacy_leg_order_list",
    );
    assert_eq!(accepted.event_id.as_deref(), Some("event-1"));
    assert_eq!(accepted.ts_event, UtcInstant { secs: 1, nanos: 7 });
    assert_eq!(accepted.order_list_id, "close-2");
    assert_eq!(accepted.payload.get_str("order_list_id"), Some(held.order_list_id.as_str()));
    let canceled = entry_canceled_state_mutation(&held, "entry_canceled", NOW);
    assert!(canceled.event_id.is_none());
    assert_eq!(canceled.ts_event, NOW);
    assert_eq!(keys(&canceled.payload), vec!["order_list_id", "reason", "entry"]);
    assert_eq!(canceled.payload.get_str("reason"), Some("entry_canceled"));
    let closed = entry_closed_state_mutation(&held, "close-2", None, NOW);
    assert!(is_null(&closed.payload, "close_parent_order_id"));
    assert!(closed.venue_order_id.is_none());
    let cleared = close_cleared_state_mutation(&held, &None, "close_canceled", NOW);
    assert_eq!(cleared.order_list_id, held.order_list_id);
    let cleared =
        close_cleared_state_mutation(&held, &Some("close-2".to_string()), "close_canceled", NOW);
    assert_eq!(cleared.order_list_id, "close-2");
    assert_eq!(cleared.payload.get_str("close_order_list_id"), Some("close-2"));
}

#[test]
fn alert_records_carry_their_type_over_the_payload() {
    let payload = Json::Object(vec![
        ("severity".to_string(), Json::Text("old".to_string())),
        ("score".to_string(), Json::Number(JsonNumber::Natural(7))),
    ]);
    let record = candidate_alert_record(payload, "high_score_candidate", "info", "key-1".to_string());
    assert_eq!(record.get_str("severity"), Some("info"));
    assert_eq!(record.get_str("alert_type"), Some("high_score_candidate"));
    assert_eq!(record.get_number("score"), Some(7));
    let record = candidate_alert_record(Json::Bool(true), "a", "info", "key-2".to_string());
    assert!(matches!(record.get("payload"), Some(Json::Bool(true))));
}

#[test]
fn lifecycle_polls_are_written_with_their_events() {
    let event = OptionLifecycleEvent {
        kind: OptionLifecycleEventKind::Assignment,
        id: Some("assign-1".to_string()),
        symbol: None,
        occurred_at_utc: Some(NOW),
        activity_date: None,
        quantity: Some("1".to_string()),
    };
    let poll = lifecycle_poll_event(&vec![event], &owned(&["assignment activity"]));
    assert_eq!(poll.payload.get_number("event_count"), Some(1));
    let shown = &poll.payload.get_list("events").unwrap()[0];
    assert_eq!(shown.get_str("kind"), Some("assignment"));
    assert_eq!(shown.get_str("activity_type"), Some("OPASN"));
    assert_eq!(shown.get_str("occurred_at_utc"), Some("2026-05-04T15:00:00+00:00"));
    let error = lifecycle_poll_error_event("timeout");
    assert_eq!(error.payload.get_str("reason"), Some("activity_poll_failed"));
}

#[test]
fn runtime_settings_are_handed_on() {
    let engine = runtime();
    let admission = EntryAdmissionConfig::from_runtime_config(&engine);
    assert!(admission.submit_enabled);
    assert!(admission.dry_run_strategy_family_names.contains("put_credit"));
    assert!(!admission.dry_run_strategy_family_names.contains("naked_put"));
    assert_eq!(admission.max_active_entries, Some(4));
    assert_eq!(admission.fleet_active_entries, 0);
    assert_eq!(admission.entry_window.zone, "America/New_York");
    let management = AlpacaOptionsManagementConfig::from_runtime_config(&engine);
    assert_eq!(management.close_order_mode, CloseOrderMode::OptionSpread);
    assert_eq!(management.max_hold_secs, 7);
    assert_eq!(engine.management_config().max_hold_secs, 7);
    assert_eq!(engine.lifecycle_risk_config().expiration_entry_block_days, 2);
    let strategy = AlpacaOptionsEntryStrategyConfig::from_engine_config(&engine);
    assert_eq!(strategy.quantity, 2);
    assert!(option_chain_scan_config_from_engine(&engine).iron_condor_enabled);
    assert_eq!(engine.dry_run_strategy_family_names(), vec!["put_credit"]);
    assert_eq!(engine.enabled_strategy_family_names(), vec!["naked_put", "put_credit"]);
}

#[test]
fn ledgers_take_a_limited_number_of_candidates() {
    let mut engine = runtime();
    assert_eq!(engine.candidate_ledger_candidate_limit(10), 3);
    assert_eq!(engine.candidate_ledger_candidate_limit(2), 2);
    engine.candidate_ledger_max_candidates = 0;
    assert_eq!(engine.candidate_ledger_candidate_limit(10), 10);
    assert_eq!(engine.record_candidate_ledger(true), LedgerStep::Append);
    assert_eq!(engine.record_candidate_ledger(false), LedgerStep::ReportNotConnected);
    engine.candidate_ledger_enabled = false;
    assert_eq!(engine.record_candidate_ledger(true), LedgerStep::Skip);
}

#[test]
fn account_ids_fall_back_in_order() {
    let mut engine = runtime();
    assert_eq!(engine.operational_account_id("default"), "paper-main");
    engine.operational_account_id = Some("own".to_string());
    assert_eq!(engine.operational_account_id("default"), "own");
    assert_eq!(
        resolve_account_id(None, Some("  ".to_string()), Some("second".to_string())),
        Some("second".to_string()),
    );
    assert_eq!(
        resolve_account_id(Some("own".to_string()), Some("first".to_string()), None),
        Some("own".to_string()),
    );
    assert_eq!(resolve_account_id(None, None, None), None);
}

#[test]
fn universe_plans_warn_of_live_undefined_risk() {
    let built = build_plan(&runtime(), Vec::new(), NOW);
    assert_eq!(
        built.warnings,
        vec![
            "profile_naked_uses_direct_underlyings_only",
            "profile_naked_is_live_undefined_risk",
            "profile_dry_uses_direct_underlyings_only",
        ],
    );
    let lines = universe_plan_lines(&built);
    assert_eq!(
        lines[0],
        "universe_plan checked_at=2026-05-04T15:00:00+00:00 groups=1 profiles=2 unique_underlyings=1 intents=0 warnings=3",
    );
    assert_eq!(lines[1], "group tech members=2 [AAPL,MSFT]");
    assert_eq!(
        lines[2],
        "profile naked family=naked_put mode=live qty=1 groups= include=SPY exclude= resolved=1 [SPY]",
    );
}

#[test]
fn status_paths_fall_back_from_environment_to_fleet_to_home() {
    let mut env = OperatorEnvironment {
        service: None,
        log_dir: Some("/var/log/alpaca/".to_string()),
        lock_dir: None,
        state_home: None,
        home: Some("/home/op".to_string()),
    };
    let defaults = Some(AccountRuntimeDefaults {
        service_name: "alpaca-paper.service".to_string(),
        log_dir: Some("/fleet/logs".to_string()),
        lock_dir: None,
    });
    let build = |env: &OperatorEnvironment| {
        operator_config(
            &runtime(),
            env,
            &defaults,
            &Some(StoreFacts {
                schema: "operational".to_string(),
                applied_count: 5,
                latest_version: Some(5),
                dirty_version: None,
            }),
            "public",
            None,
            "/state.json".to_string(),
            CalendarDate { year: 2026, month: 5, day: 4 },
        )
    };
    let config = build(&env);
    assert_eq!(config.log_path, "/var/log/alpaca/alpaca-options.log");
    assert_eq!(
        config.lock_path,
        "/home/op/.local/state/nautilus_trader/locks/alpaca-options.lock",
    );
    assert_eq!(config.service_name, "alpaca-paper.service");
    assert_eq!(config.trade_date, "2026-05-04");
    assert_eq!(config.dry_run_families, vec!["put_credit"]);
    assert!(config.operational_store.enabled);
    env.log_dir = None;
    assert_eq!(build(&env).log_path, "/fleet/logs/alpaca-options.log");
    assert_eq!(join_path("", "a"), "a");
    assert_eq!(
        status_ledger_since(CalendarDate { year: 2026, month: 5, day: 4 }),
        Some(CalendarDate { year: 2026, month: 4, day: 27 }),
    );
}

#[test]
fn data_is_routed_by_its_name() {
    assert_eq!(OptionsCandidateData::data_name(), "OptionsCandidateData");
    assert_eq!(OptionsOpportunityData::data_name(), "AlpacaOptionsOpportunityData");
}

#[test]
fn a_runtime_starts_with_a_line() {
    let settings = RunnerSettings {
        manage_enabled: true,
        close_enabled: false,
        state_path: "/state/state.json".to_string(),
    };
    assert_eq!(
        runner_start_line(&runtime(), &settings),
        "options_engine_management: underlyings=SPY strategies=naked_put,put_credit submit_enabled=true manage_enabled=true close_enabled=false kill_switch=false quantity=2 state_path=/state/state.json",
    );
}
