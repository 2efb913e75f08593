//! Status, scanner report, configuration check and validation.
use alpaca_options::alerts::sort_alerts;
use alpaca_options::alerts::AlertSeverity;
use alpaca_options::alerts::OperatorAlert;
use alpaca_options::amount::Amount;
use alpaca_options::broker::AlpacaAccount;
use alpaca_options::broker::AlpacaActivity;
use alpaca_options::broker::AlpacaOrder;
use alpaca_options::broker::AlpacaPosition;
use alpaca_options::calendar::CalendarDate;
use alpaca_options::calendar::UtcInstant;
use alpaca_options::doctor::doctor_lines;
use alpaca_options::doctor::doctor_verdict;
use alpaca_options::doctor::CollectedStatus;
use alpaca_options::doctor::DoctorSections;
use alpaca_options::entry::EntryPremiumKind;
use alpaca_options::evidence::compact_json;
use alpaca_options::evidence::compact_json_or;
use alpaca_options::evidence::regime_coverage;
use alpaca_options::evidence::regime_coverage_line;
use alpaca_options::evidence::Evidence;
use alpaca_options::evidence::EvidenceRef;
use alpaca_options::json::Json;
use alpaca_options::json::JsonNumber;
use alpaca_options::lint::build_config_lint_report;
use alpaca_options::lint::config_error_code;
use alpaca_options::lint::ConfigLintReport;
use alpaca_options::lint::LoadedConfig;
use alpaca_options::lint_lines::lint_report_lines;
use alpaca_options::operator::account_order_lines;
use alpaca_options::operator::option_snapshot_line;
use alpaca_options::operator::snapshot_underlyings;
use alpaca_options::operator::SnapshotFacts;
use alpaca_options::orders::OptionSpreadLeg;
use alpaca_options::orders::OptionSpreadPlan;
use alpaca_options::preroll::build_pre_roll_report;
use alpaca_options::preroll::check_bind_mount;
use alpaca_options::preroll::check_container_mount;
use alpaca_options::preroll::check_volume_mount;
use alpaca_options::preroll::container_mount_specs;
use alpaca_options::preroll::docker_mount_specs;
use alpaca_options::preroll::looks_like_bind_source;
use alpaca_options::preroll::mode_text;
use alpaca_options::preroll::mount_source;
use alpaca_options::preroll::MountSource;
use alpaca_options::preroll::PathFacts;
use alpaca_options::preview::build_spread_reconciliation_preview;
use alpaca_options::preview::symbol_set_status;
use alpaca_options::scanner_lines::format_counts;
use alpaca_options::scanner_lines::scanner_report_lines;
use alpaca_options::scanner_report::ledger_since_date;
use alpaca_options::scanner_report::scanner_quality_report;
use alpaca_options::state::StrategyState;
use alpaca_options::state::StrategyStateEntry;
use alpaca_options::status::build_status;
use alpaca_options::status::latest_broker_event;
use alpaca_options::status::BrokerInputs;
use alpaca_options::status::EngineState;
use alpaca_options::status::HostFacts;
use alpaca_options::status::OperationalStoreStatus;
use alpaca_options::status::OperatorConfig;
use alpaca_options::status::OperatorStatus;
use alpaca_options::status::RecordInputs;
use alpaca_options::status_lines::evidence_texts;
use alpaca_options::status_lines::human_status_lines;
use alpaca_options::status_lines::EntryFigures;
use alpaca_options::text_map::TextMap;
use alpaca_options::text_set::TextSet;

fn amount(value: f64) -> Amount {
    Amount { bits: value.to_bits() }
}

fn instant(text: &str) -> UtcInstant {
    let moment = chrono::DateTime::parse_from_rfc3339(text).unwrap();
    UtcInstant { secs: moment.timestamp(), nanos: moment.timestamp_subsec_nanos() }
}

fn now() -> UtcInstant {
    instant("2026-05-04T15:00:00Z")
}

fn text(value: &str) -> Json {
    Json::Text(value.to_string())
}

fn number(value: u64) -> Json {
    Json::Number(JsonNumber::Natural(value))
}

fn object(fields: Vec<(&str, Json)>) -> Json {
    Json::Object(fields.into_iter().map(|(name, value)| (name.to_string(), value)).collect())
}

fn evidence(value: Json, raw: &str) -> Evidence {
    Evidence { value, raw: raw.to_string() }
}

fn event(kind: &str, ts: &str) -> Evidence {
    evidence(
        object(vec![("type", text(kind)), ("ts_utc", text(ts))]),
        &format!("{{\"type\": \"{kind}\", \"ts_utc\": \"{ts}\"}}"),
    )
}

fn entry() -> StrategyStateEntry {
    StrategyStateEntry {
        trade_date: "2026-05-04".to_string(),
        underlying: "SPY".to_string(),
        strategy: "put_credit".to_string(),
        order_list_id: "list-1".to_string(),
        short_symbol: "SPY260512P00708000".to_string(),
        long_symbol: "SPY260512P00705000".to_string(),
        short_call_symbol: None,
        long_call_symbol: None,
        quantity: 1,
        credit: amount(0.5),
        debit: None,
        risk_capital_usd: None,
        score: amount(60.0),
        parent_order_id: None,
        submitted_at_utc: None,
        spread_instrument_id: None,
        spread_raw_symbol: Some("SPY-SPREAD".to_string()),
        spread_legs: Vec::new(),
        entry_pricing_source: None,
        close_order_list_id: None,
        close_parent_order_id: None,
        close_reason: None,
        close_order_mode: None,
        close_attempts: 0,
        last_close_submitted_at_utc: None,
        submitted: true,
        canceled: false,
        closed: false,
        recorded_at_utc: "2026-05-04T14:00:00Z".to_string(),
        closed_at_utc: None,
    }
}

fn leg(symbol: &str, ratio: i64) -> OptionSpreadLeg {
    OptionSpreadLeg {
        symbol: symbol.to_string(),
        instrument_id: format!("{symbol}.ALPACA"),
        ratio,
    }
}

fn plan() -> OptionSpreadPlan {
    OptionSpreadPlan {
        instrument_id: "SPY-SPREAD.ALPACA".to_string(),
        raw_symbol: "SPY-SPREAD".to_string(),
        underlying: "SPY".to_string(),
        strategy: "put_credit".to_string(),
        legs: vec![leg("SPY260512P00708000", -1), leg("SPY260512P00705000", 1)],
        scanner_premium_kind: EntryPremiumKind::Credit,
        scanner_premium: amount(0.5),
    }
}

fn position(symbol: &str, class: &str) -> AlpacaPosition {
    AlpacaPosition {
        symbol: Some(symbol.to_string()),
        asset_class: Some(class.to_string()),
        qty: Some("1".to_string()),
        side: Some("long".to_string()),
    }
}

fn order(id: &str, symbol: Option<&str>, legs: Option<Vec<AlpacaOrder>>) -> AlpacaOrder {
    AlpacaOrder {
        id: Some(id.to_string()),
        client_order_id: Some(format!("client-{id}")),
        status: Some("new".to_string()),
        order_class: legs.as_ref().map(|_| "mleg".to_string()),
        asset_class: symbol.map(|_| "us_option".to_string()),
        symbol: symbol.map(str::to_string),
        qty: Some("1".to_string()),
        side: Some("sell".to_string()),
        submitted_at: Some("2026-05-04T14:00:00Z".to_string()),
        created_at: None,
        updated_at: None,
        working: true,
        filled: amount(0.0),
        legs,
    }
}

fn account() -> AlpacaAccount {
    AlpacaAccount {
        status: Some("ACTIVE".to_string()),
        currency: None,
        trading_blocked: Some(false),
        transfers_blocked: None,
        account_blocked: None,
        trade_suspended_by_user: None,
        buying_power: Some("1000".to_string()),
        options_buying_power: None,
        options_approved_level: Some(3),
        options_trading_level: None,
        portfolio_value: None,
        cash: None,
    }
}

fn config() -> OperatorConfig {
    OperatorConfig {
        service_name: "alpaca-options.service".to_string(),
        state_path: "/state/state.json".to_string(),
        log_path: "/state/logs/alpaca-options.log".to_string(),
        lock_path: "/state/locks/alpaca-options.lock".to_string(),
        stale_order_secs: 900,
        max_close_attempts: 3,
        trade_date: "2026-05-04".to_string(),
        open_orders_enabled: true,
        close_orders_enabled: true,
        close_order_mode: "legacy_leg_order_list".to_string(),
        dry_run_families: Vec::new(),
        max_active_entries: Some(1),
        max_daily_submits: None,
        max_open_orders: None,
        max_active_entries_per_underlying: Some(1),
        max_active_entries_per_sector: None,
        sectors: TextMap::new(),
        fleet_account_id: None,
        fleet_policy_blocks: Vec::new(),
        operational_store: OperationalStoreStatus {
            enabled: false,
            schema: "operational".to_string(),
            applied_migrations: None,
            latest_migration_version: None,
            dirty_migration_version: None,
        },
        strategy_state_metadata: None,
    }
}

fn host() -> HostFacts {
    HostFacts {
        service_active: Some(true),
        service_active_state: Some("active".to_string()),
        lock_file_exists: true,
        log_file_exists: true,
        state_file_exists: true,
    }
}

fn status(
    config: &OperatorConfig,
    positions: Vec<AlpacaPosition>,
    open_orders: Vec<AlpacaOrder>,
    state: &StrategyState,
    events: &Vec<Evidence>,
) -> OperatorStatus {
    let plans = state.entries.iter().map(|_| Some(plan())).collect();
    build_status(
        config,
        &host(),
        BrokerInputs {
            account: &account(),
            positions: &positions,
            open_orders: &open_orders,
            recent_orders: &Vec::new(),
            activities: &Vec::new(),
        },
        RecordInputs {
            state,
            plans: &plans,
            events,
            candidate_ledger_records: &Vec::new(),
        },
        now(),
    )
}

fn codes(status: &OperatorStatus) -> Vec<&'static str> {
    status.alerts.iter().map(|alert| alert.code).collect()
}

#[test]
fn a_quiet_engine_is_idle() {
    let status =
        status(&config(), Vec::new(), Vec::new(), &StrategyState::default(), &Vec::new());
    assert_eq!(status.engine_state, EngineState::Idle);
    assert!(status.alerts.is_empty());
    assert_eq!(status.checked_at_utc.as_deref(), Some("2026-05-04T15:00:00+00:00"));
    assert_eq!(status.account.currency, "unknown");
}

#[test]
fn held_spreads_are_trading_and_matched() {
    let state = StrategyState { entries: vec![entry()] };
    let positions = vec![
        position("SPY260512P00708000", "us_option"),
        position("SPY260512P00705000", "us_option"),
    ];
    let status = status(&config(), positions, Vec::new(), &state, &Vec::new());
    assert_eq!(status.engine_state, EngineState::Trading);
    assert_eq!(status.spread_reconciliation_preview.summary.matched_spreads, 1);
    assert_eq!(status.positions.unmanaged, 0);
    assert_eq!(
        codes(&status),
        vec!["risk_max_active_entries", "risk_max_active_entries_per_underlying"],
    );
    assert_eq!(status.alerts[1].message, "SPY active entries are at the per-underlying cap: 1/1");
    assert_eq!(
        status.strategy_state.last_recorded_at_utc.as_deref(),
        Some("2026-05-04T14:00:00Z"),
    );
}

#[test]
fn unmanaged_positions_break_the_engine() {
    let positions = vec![position("AAPL", "us_equity")];
    let status =
        status(&config(), positions, Vec::new(), &StrategyState::default(), &Vec::new());
    assert_eq!(status.engine_state, EngineState::Broken);
    assert_eq!(codes(&status), vec!["unmanaged_positions"]);
    assert_eq!(status.positions.equities, 1);
}

#[test]
fn stale_orders_and_recent_events_are_reported() {
    let events = vec![
        event("runner_start", "2026-05-04T14:30:00Z"),
        event("runner_start", "2026-05-04T14:40:00Z"),
        event("websocket_disconnect", "2026-05-04T12:00:00Z"),
        evidence(
            object(vec![
                ("type", text("option_lifecycle_poll")),
                ("ts_utc", text("2026-05-04T10:00:00Z")),
                ("blocks", Json::List(vec![text("assignment activity")])),
            ]),
            "{ \"type\" : \"option_lifecycle_poll\" }",
        ),
        evidence(
            object(vec![
                ("type", text("management_block")),
                ("ts_utc", text("2026-05-04T14:59:00Z")),
                ("reason", text("active_risk_quote_stale")),
            ]),
            "{}",
        ),
    ];
    let orders = vec![order("1", Some("SPY260512P00708000"), None)];
    let status = status(&config(), Vec::new(), orders, &StrategyState::default(), &events);
    assert_eq!(status.orders.stale_working, 1);
    assert_eq!(status.orders.accepted_not_filled, 1);
    assert_eq!(
        codes(&status),
        vec![
            "option_lifecycle_block",
            "stale_working_orders",
            "active_risk_quote_stale",
            "service_restart_recent",
            "accepted_not_filled_orders",
        ],
    );
    assert_eq!(
        status.alerts[0].message,
        "recent option lifecycle block: {\"type\":\"option_lifecycle_poll\"}",
    );
}

#[test]
fn alerts_are_sorted_by_severity_and_keep_their_order() {
    let alert = |severity, code| OperatorAlert { severity, code, message: String::new() };
    let sorted = sort_alerts(&vec![
        alert(AlertSeverity::Info, "a"),
        alert(AlertSeverity::Critical, "b"),
        alert(AlertSeverity::Warning, "c"),
        alert(AlertSeverity::Critical, "d"),
    ]);
    let codes: Vec<&str> = sorted.iter().map(|alert| alert.code).collect();
    assert_eq!(codes, vec!["b", "d", "c", "a"]);
}

#[test]
fn a_status_is_written_line_by_line() {
    let state = StrategyState { entries: vec![entry()] };
    let events = vec![event("scanner_diagnostic", "2026-05-04T14:00:00Z")];
    let status = status(&config(), Vec::new(), Vec::new(), &state, &events);
    let texts = evidence_texts(&status.latest, &events, &Vec::new(), None);
    let figures = vec![EntryFigures { credit: "0.50".to_string(), debit: None }];
    let lines = human_status_lines(&status, &figures, &texts);
    assert_eq!(lines[0], "engine: state=Idle checked_at_utc=2026-05-04T15:00:00+00:00");
    assert_eq!(
        lines[3],
        "account: status=ACTIVE trading_blocked=false account_blocked=false suspended=false buying_power=1000 options_buying_power=unknown options_approved_level=3 options_trading_level=unknown portfolio_value=unknown cash=unknown",
    );
    assert!(lines.contains(
        &"active_entry: underlying=SPY strategy=put_credit symbols=SPY260512P00708000,SPY260512P00705000 net_premium_kind=credit credit=0.50 debit=none spread=SPY-SPREAD close_attempts=0 close_reason=none close_order_mode=none close_order_list_id=none last_close_submitted_at=none".to_string()
    ));
    assert!(lines.contains(
        &"risk: trade_date=2026-05-04 active_entries=1/1 daily_submits=1/unlimited open_orders=0/unlimited per_underlying=1 per_sector=unlimited".to_string()
    ));
    assert!(lines.contains(
        &"last_scanner_diagnostic: {\"ts_utc\":\"2026-05-04T14:00:00Z\",\"type\":\"scanner_diagnostic\"}".to_string()
    ));
    assert!(lines.contains(&"last_scan: none".to_string()));
    assert!(lines.last().unwrap().starts_with("alert: severity=Warning code="));
}

#[test]
fn json_texts_are_compacted() {
    assert_eq!(compact_json("{ \"a\" : [1, 2.50] }"), "{\"a\":[1,2.5]}");
    assert_eq!(compact_json("not json"), "unprintable");
    assert_eq!(compact_json_or("", "unavailable"), "unavailable");
}

#[test]
fn previews_tell_matched_partial_and_missing_apart() {
    assert_eq!(symbol_set_status(0, 2), "missing");
    assert_eq!(symbol_set_status(1, 2), "partial");
    assert_eq!(symbol_set_status(2, 2), "matched");
    let mut closed = entry();
    closed.closed = true;
    let state = StrategyState { entries: vec![entry(), closed] };
    let plans = vec![Some(plan()), Some(plan())];
    let orders = vec![
        order("1", None, Some(vec![order("1a", Some(" SPY260512P00708000 "), None)])),
        order("2", None, Some(Vec::new())),
        order("3", None, Some(vec![order("3a", Some("QQQ260512P00400000"), None)])),
    ];
    let activities = vec![AlpacaActivity {
        activity_type: Some("FILL".to_string()),
        id: Some("fill-1".to_string()),
        price: None,
        qty: None,
        side: None,
        symbol: Some("SPY260512P00705000".to_string()),
        transaction_time: None,
        order_id: None,
        date: None,
    }];
    let preview = build_spread_reconciliation_preview(
        &state,
        &plans,
        &vec![position("IWM", "us_equity")],
        &orders,
        &Vec::new(),
        &activities,
    );
    assert_eq!(preview.summary.state_spreads, 1);
    assert_eq!(preview.summary.partial_spreads, 1);
    assert_eq!(preview.summary.broker_mleg_orders, 3);
    assert_eq!(preview.summary.broker_position_legs, 0);
    let spread = &preview.state_spreads[0];
    assert_eq!(spread.missing_symbols, vec!["SPY260512P00705000"]);
    assert_eq!(spread.open_orders[0].mapping, "partial");
    assert!(spread.legs[1].recent_activity_seen);
    let reasons: Vec<&str> =
        preview.unknown_parent_leg_mappings.iter().map(|mapping| mapping.reason).collect();
    assert_eq!(
        reasons,
        vec!["partial_spread_leg_mapping", "missing_leg_symbols", "unmanaged_mleg_parent"],
    );
    let legs: Vec<(&str, &str)> = preview
        .unmanaged_extra_legs
        .iter()
        .map(|leg| (leg.source, leg.symbol.as_str()))
        .collect();
    assert_eq!(legs, vec![("position", "IWM"), ("open_order", "QQQ260512P00400000")]);
}

#[test]
fn regime_features_come_from_the_snapshot_first() {
    let group = |name: &str, status: &str| {
        object(vec![("group", text(name)), ("status", text(status))])
    };
    let snapshot = object(vec![
        ("underlying", text("SPY")),
        (
            "feature_freshness",
            Json::List(vec![
                group("underlying_bars", "fresh"),
                group("event_load", "stale"),
                group("underlying_bars", "degraded"),
            ]),
        ),
        ("unavailable_features", Json::List(vec![text("event_load"), number(3)])),
    ]);
    let record = object(vec![
        ("trade_date", text("2026-05-04")),
        (
            "regime_context",
            object(vec![
                ("label", text("calm")),
                ("dry_run_only", Json::Bool(true)),
                ("explanation_codes", Json::List(vec![text("low_vol")])),
            ]),
        ),
    ]);
    let status = regime_coverage(Some(&snapshot), Some(&record)).unwrap();
    assert!(status.has_underlying_bars);
    assert!(!status.has_event_load);
    assert_eq!(
        regime_coverage_line(&status),
        "source=operator_event underlying=SPY trade_date=2026-05-04 label=calm action=unknown dry_run=true features=underlying_bars:true,underlying_trend_vol:false,option_liquidity:false,event_load:false freshness=event_load:stale,underlying_bars:degraded unavailable=event_load explanations=low_vol",
    );
    assert!(regime_coverage(None, None).is_none());
    assert_eq!(regime_coverage(None, Some(&record)).unwrap().source, "candidate_ledger");
}

fn scan(profile: &str, underlying: &str, candidates: u64, reason: &str) -> Json {
    object(vec![
        ("profile_id", text(profile)),
        ("strategy", text("put_credit")),
        ("underlying", text(underlying)),
        ("outcome", text(if candidates > 0 { "candidate" } else { "no_candidate" })),
        ("candidate_count", number(candidates)),
        ("contracts", number(10)),
        ("snapshots", number(8)),
        ("scoreable", number(4)),
        ("reason", text(reason)),
        ("rejections", object(vec![("spread_too_wide", number(3))])),
    ])
}

fn scans(kind: &str, ts: &str, scans: Vec<Json>) -> Evidence {
    evidence(
        object(vec![
            ("type", text(kind)),
            ("ts_utc", text(ts)),
            ("series_id", text("s")),
            ("underlying", text("SPY")),
            ("ranked_entries", number(2)),
            ("scans", Json::List(scans)),
        ]),
        "{}",
    )
}

#[test]
fn scanner_evidence_is_summed_by_profile_and_underlying() {
    let events = vec![
        scans(
            "option_chain_candidate_scan",
            "2026-05-04T14:00:00Z",
            vec![scan("b", "SPY", 2, ""), scan("a", "QQQ", 0, "no_liquidity")],
        ),
        scans(
            "option_chain_candidate_scan",
            "2026-05-04T14:00:00Z",
            vec![scan("b", "SPY", 2, "")],
        ),
        scans("option_chain_candidate_scan", "2026-05-01T14:00:00Z", vec![scan("c", "IWM", 1, "")]),
    ];
    let records =
        vec![scans("scanner_result", "2026-05-04T14:30:00Z", vec![scan("a", "SPY", 1, "")])];
    let report = scanner_quality_report(
        "/log",
        true,
        &events,
        &records,
        None,
        86_400,
        now(),
    )
    .unwrap();
    assert_eq!(report.scan_events, 2);
    assert_eq!(report.operator_event_scan_events, 1);
    assert_eq!(report.candidate_ledger_scan_records, 1);
    assert_eq!(report.ranked_entries, 4);
    assert_eq!(report.total.scans, 3);
    assert_eq!(report.total.candidate_scans, 2);
    assert_eq!(report.total.no_candidate_scans, 1);
    assert_eq!(report.total.candidate_count, 3);
    assert_eq!(report.total.contract_count, 30);
    assert_eq!(report.total.rejection_counts.count("spread_too_wide"), 9);
    assert_eq!(report.total.reason_counts.count("no_liquidity"), 1);
    let ids: Vec<&str> =
        report.profile_summaries.iter().map(|profile| profile.profile_id.as_str()).collect();
    assert_eq!(ids, vec!["a", "b"]);
    assert_eq!(report.profile_summaries[0].underlyings, 2);
    assert_eq!(report.profile_summaries[0].profile_family, "put_credit");
    assert_eq!(report.profile_summaries[0].profile_mode, "unknown");
    assert_eq!(report.underlying_summaries[1].underlying, "SPY");
    assert_eq!(report.underlying_summaries[1].profile_count, 2);
    assert_eq!(report.latest_scan, Some(EvidenceRef::Record(0)));
    let lines = scanner_report_lines(&report);
    assert_eq!(lines[1], "scanner_rejections: spread_too_wide=9");
    assert_eq!(lines[2], "scanner_reasons: no_liquidity=1");
    assert_eq!(
        lines[3],
        "scanner_profile: profile_id=a family=put_credit mode=unknown scans=2 underlyings=2 candidate_scans=1 no_candidate_scans=1 candidate_count=1 scoreable_count=8 rejections=spread_too_wide=6 reasons=no_liquidity=1 latest_ts_utc=2026-05-04T14:30:00Z",
    );
    let all = scanner_quality_report("/log", true, &events, &records, None, 0, now()).unwrap();
    assert_eq!(all.scan_events, 3);
}

#[test]
fn sums_past_the_machine_word_are_refused() {
    let events = vec![scans(
        "option_chain_candidate_scan",
        "2026-05-04T14:00:00Z",
        vec![scan("a", "SPY", u64::MAX, ""), scan("a", "SPY", 1, "")],
    )];
    assert!(scanner_quality_report("/log", true, &events, &Vec::new(), None, 0, now()).is_none());
}

#[test]
fn ledger_lookbacks_are_whole_days() {
    let date = |day| Some(CalendarDate { year: 2026, month: 5, day });
    assert_eq!(ledger_since_date(0, now()), None);
    assert_eq!(ledger_since_date(1, now()), date(3));
    assert_eq!(ledger_since_date(86_400, now()), date(3));
    assert_eq!(ledger_since_date(86_401, now()), date(2));
    assert_eq!(format_counts(&TextMap::new()), "none");
}

fn failed_config() -> LoadedConfig {
    LoadedConfig::Failed {
        message: "profile core references unknown universe group tech".to_string(),
        path: Some("/config/options.toml".to_string()),
    }
}

fn lint(set_vars: &[&str]) -> ConfigLintReport {
    let names: Vec<String> = set_vars.iter().map(|name| name.to_string()).collect();
    build_config_lint_report(&failed_config(), &TextSet::from_texts(&names), None, now())
}

#[test]
fn configuration_errors_have_codes() {
    assert_eq!(config_error_code("retired Alpaca order capability env vars: A"), "retired_order_capability_env_vars");
    assert_eq!(config_error_code("x: unknown field `y`"), "unknown_config_field");
    assert_eq!(config_error_code("boom"), "runtime_config_invalid");
    let report = lint(&[]);
    assert!(!report.ok);
    assert_eq!(report.issue_count, 1);
    assert_eq!(report.issues[0].code, "unknown_universe_group");
    assert_eq!(report.issues[0].path.as_deref(), Some("/config/options.toml"));
}

#[test]
fn retired_variables_are_issues() {
    let report = lint(&["ALPACA_QTY", "ALPACA_CLOSE", "ALPACA_SUBMIT", "HOME"]);
    assert_eq!(report.issues.len(), 3);
    assert_eq!(
        report.issues[0].message,
        "retired order capability env vars are set: ALPACA_SUBMIT, ALPACA_CLOSE; use ALPACA_OPEN_ORDERS and ALPACA_CLOSE_ORDERS",
    );
    assert_eq!(report.issues[1].code, "retired_strategy_composition_env_vars");
    let lines = lint_report_lines(&report);
    assert_eq!(
        lines[0],
        "config_lint: ok=false issues=3 universe_groups=0 strategy_profiles=0 submitting_profiles=none",
    );
    assert!(lines[1].starts_with(
        "issue: severity=error code=retired_order_capability_env_vars path=none message=",
    ));
}

#[test]
fn mounts_are_checked_for_the_container() {
    let file = |mode| Some(PathFacts { is_dir: false, is_file: true, mode });
    let hosts = docker_mount_specs();
    let containers = container_mount_specs();
    let checks = vec![
        check_volume_mount(hosts[0], "alpaca-scheduled-events".to_string()),
        check_bind_mount(hosts[2], "/deploy/fleet.toml".to_string(), file(0o100644)),
        check_bind_mount(hosts[3], "/deploy/base.toml".to_string(), file(0o100640)),
        check_bind_mount(hosts[4], "/deploy/options.toml".to_string(), None),
    ];
    assert_eq!(checks[1].mode.as_deref(), Some("644"));
    let report = build_pre_roll_report(checks, false, now());
    assert!(!report.ok);
    let codes: Vec<&str> = report.issues.iter().map(|issue| issue.code).collect();
    assert_eq!(codes, vec!["docker_mount_not_container_readable", "docker_mount_missing"]);
    assert_eq!(
        report.issues[1].message,
        "runtime_config host source /deploy/options.toml does not exist",
    );
    let inside = check_container_mount(containers[0], file(0o644));
    assert_eq!(inside.status, "not_container_readable");
    let report = build_pre_roll_report(vec![inside], true, now());
    assert_eq!(report.issues[0].code, "container_mount_not_readable");
    assert_eq!(mode_text(0o100755), "755");
}

#[test]
fn mount_sources_are_paths_or_volumes() {
    assert!(looks_like_bind_source("./a"));
    assert!(looks_like_bind_source("dir/file"));
    assert!(!looks_like_bind_source("volume"));
    let spec = docker_mount_specs()[0];
    match mount_source(spec.default_source, Some("  ".to_string())) {
        MountSource::NamedVolume(name) => assert_eq!(name, "alpaca-scheduled-events"),
        MountSource::Bind(_) => panic!("a blank value falls back to the default"),
    }
    assert!(matches!(
        mount_source(spec.default_source, Some("/srv/events".to_string())),
        MountSource::Bind(path) if path == "/srv/events",
    ));
}

#[test]
fn a_failed_status_is_broken() {
    let mut healthy_config = lint(&[]);
    healthy_config.ok = true;
    let failed = CollectedStatus::Failed("timeout".to_string());
    let verdict = doctor_verdict(&failed, &healthy_config, false);
    assert_eq!(verdict.health, "broken");
    assert_eq!(verdict.health_reasons, vec!["status_collect_failed: timeout"]);
    assert_eq!(verdict.next_action, "inspect_alpaca_account_config_and_broker_connectivity");
}

#[test]
fn a_failed_configuration_is_fixed_first() {
    let collected = CollectedStatus::Collected(object(vec![("health", text("healthy"))]));
    let verdict = doctor_verdict(&collected, &lint(&[]), true);
    assert_eq!(verdict.health, "broken");
    assert_eq!(verdict.health_reasons, vec!["config_lint_failed"]);
    assert_eq!(
        verdict.next_action,
        "fix_unknown_universe_group: profile core references unknown universe group tech",
    );
}

#[test]
fn a_missing_scanner_report_degrades_health() {
    let mut healthy_config = lint(&[]);
    healthy_config.ok = true;
    let collected = CollectedStatus::Collected(object(vec![("health", text("healthy"))]));
    let verdict = doctor_verdict(&collected, &healthy_config, true);
    assert_eq!(verdict.health, "degraded");
    assert_eq!(verdict.next_action, "inspect_scanner_report");
    let verdict = doctor_verdict(&collected, &healthy_config, false);
    assert_eq!(verdict.health_reasons, vec!["no_operator_alerts"]);
    let sections = DoctorSections {
        account: Some("{ \"status\": \"ACTIVE\" }".to_string()),
        broker: None,
        runtime_runner: None,
        scanner_lifecycle: None,
        event_shock: None,
        universe: None,
        scanner: Some("broken".to_string()),
    };
    let lines =
        doctor_lines(&verdict, "2026-05-04T15:00:00+00:00", &healthy_config, &None, &None, &sections);
    assert_eq!(
        lines[0],
        "doctor: health=healthy next_action=inspect_operator_status checked_at_utc=2026-05-04T15:00:00+00:00",
    );
    assert_eq!(lines[3], "account: {\"status\":\"ACTIVE\"}");
    assert_eq!(lines[4], "scanner: unavailable");
}

#[test]
fn accounts_and_snapshots_are_written_as_lines() {
    let lines = account_order_lines(
        &account(),
        &vec![position("AAPL", "us_equity"), position("SPY260512P00708000", "us_option")],
        &vec![order("1", None, Some(vec![order("1a", Some("SPY260512P00708000"), None)]))],
    );
    assert_eq!(lines[1], "positions: total=2 options=1 equities=1");
    assert_eq!(lines[2], "orders: open=1 mleg=1 nested_legs=1");
    let facts = |valid_quote, delta| SnapshotFacts {
        valid_quote,
        greek_inputs: delta,
        delta,
        implied_volatility: false,
    };
    assert_eq!(
        option_snapshot_line("SPY", 2, 100, &vec![facts(true, false), facts(true, true)]),
        "SPY: requested 2 snapshots from 100 contracts; snapshots=2, quotes=2, greeks_or_iv=1, delta=1, iv=0",
    );
    assert_eq!(snapshot_underlyings(Vec::new()), vec!["SPY", "QQQ"]);
}

fn shown(event: &Json) -> Vec<(&str, Option<&str>)> {
    match event {
        Json::Object(fields) => {
            fields.iter().map(|(name, _)| (name.as_str(), event.get_str(name))).collect()
        }
        _ => panic!("not an object"),
    }
}

#[test]
fn the_latest_sign_of_the_broker_is_an_activity_or_else_an_order() {
    let mut filled = order("1", Some("SPY260512P00708000"), None);
    filled.updated_at = Some("2026-05-04T14:00:05Z".to_string());
    let orders = vec![filled, order("2", None, None)];
    let activities = vec![AlpacaActivity {
        activity_type: Some("FILL".to_string()),
        id: Some("activity-1".to_string()),
        price: Some("0.50".to_string()),
        qty: Some("1".to_string()),
        side: Some("sell".to_string()),
        symbol: None,
        transaction_time: Some("2026-05-04T14:00:06Z".to_string()),
        order_id: Some("1".to_string()),
        date: None,
    }];
    assert_eq!(
        shown(&latest_broker_event(&orders, &activities).unwrap()),
        vec![
            ("source", Some("account_activity")),
            ("activity_type", Some("FILL")),
            ("symbol", None),
            ("order_id", Some("1")),
            ("transaction_time", Some("2026-05-04T14:00:06Z")),
        ],
    );
    assert_eq!(
        shown(&latest_broker_event(&orders, &Vec::new()).unwrap()),
        vec![
            ("source", Some("order")),
            ("id", Some("1")),
            ("client_order_id", Some("client-1")),
            ("status", Some("new")),
            ("symbol", Some("SPY260512P00708000")),
            ("updated_at", Some("2026-05-04T14:00:05Z")),
            ("submitted_at", Some("2026-05-04T14:00:00Z")),
        ],
    );
    assert!(latest_broker_event(&Vec::new(), &Vec::new()).is_none());
}
