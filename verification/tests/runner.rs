//! Passes of the management runtime, and the evidence that scans and strategies leave.
use alpaca_options::account_strategy::CandidateOutcome;
use alpaca_options::account_strategy::SubmitRejectedAlert;
use alpaca_options::active_entry::order_list_status;
use alpaca_options::active_entry::CachedOrder;
use alpaca_options::active_entry::OrderListRuntimeStatus;
use alpaca_options::admission::SubmissionBlock;
use alpaca_options::amount::Amount;
use alpaca_options::broker::AlpacaOrder;
use alpaca_options::calendar::UtcInstant;
use alpaca_options::candidate_set::AlpacaOptionsCandidateProfile;
use alpaca_options::candidate_set::OptionsCandidateSet;
use alpaca_options::candidate_set::ProfiledOptionsEntry;
use alpaca_options::candidate_set::ScanCandidates;
use alpaca_options::candidate_set::ScanResult;
use alpaca_options::candidates::CreditSpreadKind;
use alpaca_options::candidates::DebitSpreadKind;
use alpaca_options::candidates::NakedOptionCandidate;
use alpaca_options::candidates::NakedOptionKind;
use alpaca_options::candidates::ScoredContract;
use alpaca_options::candidates::SpreadCandidate;
use alpaca_options::chain::scan_credit_spread_option_chain;
use alpaca_options::chain::scan_debit_spread_option_chain;
use alpaca_options::chain::CandidateContract;
use alpaca_options::chain::OptionChainCandidateInput;
use alpaca_options::chain::OptionChainCandidateSide;
use alpaca_options::chain::OptionSeries;
use alpaca_options::chain::ScoredSide;
use alpaca_options::chain::SeriesInstrument;
use alpaca_options::engine::parent_to_cancel;
use alpaca_options::engine::CloseDecision;
use alpaca_options::engine::CloseOrderStep;
use alpaca_options::engine::EngineManagementConfig;
use alpaca_options::engine::EntryOrderStep;
use alpaca_options::engine::ExecutionNotice;
use alpaca_options::engine::ExecutionTally;
use alpaca_options::engine::OrderLookup;
use alpaca_options::engine::SubmitOutcome;
use alpaca_options::engine_events::close_decision_event;
use alpaca_options::engine_events::close_decision_line;
use alpaca_options::engine_events::close_limit_line;
use alpaca_options::engine_events::close_order_event;
use alpaca_options::engine_events::close_order_lines;
use alpaca_options::engine_events::entry_order_line;
use alpaca_options::engine_events::management_iteration_event;
use alpaca_options::engine_events::performance_ledger_error_event;
use alpaca_options::engine_events::performance_ledger_event;
use alpaca_options::engine_events::position_line;
use alpaca_options::engine_events::reconciliation_event;
use alpaca_options::engine_events::reconciliation_line;
use alpaca_options::engine_events::unmanaged_positions_event;
use alpaca_options::engine_events::unmanaged_positions_line;
use alpaca_options::engine_events::PerformanceRecord;
use alpaca_options::engine_pass::next_iteration;
use alpaca_options::engine_pass::ManagementPass;
use alpaca_options::engine_pass::PassStage;
use alpaca_options::entry::SelectedEntry;
use alpaca_options::entry::SelectedOptionsEntry;
use alpaca_options::entry_strategy::AlpacaOptionsEntryStrategy;
use alpaca_options::entry_strategy::AlpacaOptionsEntryStrategyConfig;
use alpaca_options::fields::Fields;
use alpaca_options::json::Json;
use alpaca_options::json::JsonNumber;
use alpaca_options::lifecycle::OptionLifecycleEvent;
use alpaca_options::lifecycle::OptionLifecycleEventKind;
use alpaca_options::lifecycle::OptionLifecycleRiskConfig;
use alpaca_options::lifecycle::OptionLifecycleRiskHandle;
use alpaca_options::management::AlpacaOptionsManagementConfig;
use alpaca_options::management::CloseOrderMode;
use alpaca_options::management::CloseQuote;
use alpaca_options::management::CloseThresholds;
use alpaca_options::management::RaisedPrices;
use alpaca_options::order_cache::cancellable_order_ids;
use alpaca_options::order_cache::close_ticks_from_cache;
use alpaca_options::order_cache::order_list_orders;
use alpaca_options::order_cache::order_statuses;
use alpaca_options::order_cache::KnownOrder;
use alpaca_options::order_cache::LegQuote;
use alpaca_options::orders::OrderSubmission;
use alpaca_options::pending::PendingCloseSubmission;
use alpaca_options::pending::PendingEntrySubmission;
use alpaca_options::planner::plan_selected_entry;
use alpaca_options::profile::AlpacaOptionsStrategyFamily;
use alpaca_options::quotes::QuoteSubscriptions;
use alpaca_options::reconciliation::ReconciliationAction;
use alpaca_options::scan_actor::series_request;
use alpaca_options::scan_actor::OptionChainOpportunityScanActor;
use alpaca_options::scan_actor::OptionChainOpportunityScanActorConfig;
use alpaca_options::scan_actor::SeriesStart;
use alpaca_options::scan_events::scan_line;
use alpaca_options::scan_events::scanner_diagnostic_event;
use alpaca_options::scan_events::scanner_ledger_payload;
use alpaca_options::scan_events::CandidateTexts;
use alpaca_options::scan_events::MetricTexts;
use alpaca_options::scan_events::NakedOptionFigures;
use alpaca_options::scan_events::NakedOptionMetrics;
use alpaca_options::state::SpreadRecord;
use alpaca_options::state::StrategyState;
use alpaca_options::state::StrategyStateEntry;
use alpaca_options::strategy_events::candidate_ledger_error_event;
use alpaca_options::strategy_events::candidate_note;
use alpaca_options::strategy_events::candidate_outcome_event;
use alpaca_options::strategy_events::close_rejected_event;
use alpaca_options::strategy_events::close_submit_event;
use alpaca_options::strategy_events::quote_cache_event;
use alpaca_options::strategy_events::selected_candidate_alert;
use alpaca_options::strategy_events::spread_close_draft_error_event;
use alpaca_options::strategy_events::spread_order_draft_error_event;
use alpaca_options::strategy_events::spread_plan_error_event;
use alpaca_options::strategy_events::state_persistence_error_event;
use alpaca_options::strategy_events::submit_rejected_candidate_alert;
use alpaca_options::strategy_events::vertical_required_event;
use alpaca_options::text_map::TextMap;
use alpaca_options::text_set::TextSet;

const NOW: UtcInstant = UtcInstant { secs: 1_777_906_800, nanos: 0 };

fn amount(value: f64) -> Amount {
    Amount { bits: value.to_bits() }
}

fn owned(items: &[&str]) -> Vec<String> {
    items.iter().map(|item| item.to_string()).collect()
}

fn keys(value: &Json) -> Vec<&str> {
    match value {
        Json::Object(fields) => fields.iter().map(|(name, _)| name.as_str()).collect(),
        _ => panic!("not an object"),
    }
}

fn float(value: &Json, name: &str) -> f64 {
    match value.get(name) {
        Some(Json::Number(JsonNumber::Float(amount))) => f64::from_bits(amount.bits),
        other => panic!("{name}: {other:?}"),
    }
}

fn is_null(value: &Json, name: &str) -> bool {
    matches!(value.get(name), Some(Json::Null))
}

fn entry() -> StrategyStateEntry {
    StrategyStateEntry {
        trade_date: "2026-05-04".to_string(),
        underlying: "SPY".to_string(),
        strategy: "put_credit".to_string(),
        order_list_id: "list-1".to_string(),
        short_symbol: "SPY260512P00708000".to_string(),
        long_symbol: "SPY260512P00705000".to_string(),
        short_call_symbol: None,
        long_call_symbol: None,
        quantity: 1,
        credit: amount(0.5),
        debit: None,
        risk_capital_usd: None,
        score: amount(60.0),
        parent_order_id: None,
        submitted_at_utc: None,
        spread_instrument_id: None,
        spread_raw_symbol: None,
        spread_legs: Vec::new(),
        entry_pricing_source: None,
        close_order_list_id: Some("close-1".to_string()),
        close_parent_order_id: None,
        close_reason: None,
        close_order_mode: None,
        close_attempts: 2,
        last_close_submitted_at_utc: None,
        submitted: true,
        canceled: false,
        closed: false,
        recorded_at_utc: "2026-05-04T14:00:00Z".to_string(),
        closed_at_utc: None,
    }
}

fn contract(symbol: &str) -> ScoredContract {
    ScoredContract {
        symbol: symbol.to_string(),
        expiration_date: "2026-05-12".to_string(),
        dte: 8,
        strike: amount(708.0),
        bid: amount(1.0),
        ask: amount(1.1),
        delta_abs: amount(0.20),
        spread_pct: amount(0.05),
        bid_size: 10,
        ask_size: 10,
        volume: 100,
        open_interest: 1_000,
        implied_volatility: None,
    }
}

fn credit() -> SelectedOptionsEntry {
    SelectedOptionsEntry::Credit(SelectedEntry {
        underlying: "SPY".to_string(),
        kind: CreditSpreadKind::Put,
        candidate: SpreadCandidate {
            short: contract("SPY260512P00708000"),
            long: contract("SPY260512P00705000"),
            width: amount(3.0),
            credit: amount(0.5),
            max_loss: amount(2.5),
            return_on_risk: amount(0.2),
            score: amount(70.0),
        },
    })
}

fn open_entry() -> StrategyStateEntry {
    let mut open = entry();
    open.close_order_list_id = None;
    open
}

fn order(id: &str, status: &str, working: bool) -> AlpacaOrder {
    AlpacaOrder {
        id: Some(id.to_string()),
        client_order_id: None,
        status: Some(status.to_string()),
        order_class: None,
        asset_class: None,
        symbol: None,
        qty: None,
        side: None,
        submitted_at: Some("2026-05-04T14:00:00Z".to_string()),
        created_at: None,
        updated_at: None,
        working,
        filled: amount(0.0),
        legs: None,
    }
}

fn settings() -> EngineManagementConfig {
    EngineManagementConfig {
        manage_enabled: true,
        close_enabled: true,
        management: AlpacaOptionsManagementConfig::default(),
    }
}

fn quote() -> CloseQuote {
    CloseQuote {
        short_ask: amount(0.3),
        long_bid: amount(0.1),
        short_call_ask: None,
        long_call_bid: None,
        debit: amount(0.2),
    }
}

fn thresholds() -> CloseThresholds {
    CloseThresholds { profit_target: amount(0.25), stop_loss: amount(1.0) }
}

fn figures() -> NakedOptionFigures {
    NakedOptionFigures {
        account_options_buying_power: None,
        annualized_premium_yield: None,
        metrics: None,
    }
}

fn scan(candidates: ScanCandidates) -> ScanResult {
    let mut rejection_counts: TextMap<usize> = TextMap::new();
    rejection_counts.add_count("spread_too_wide", 2);
    rejection_counts.add_count("delta", 1);
    ScanResult {
        underlying: "SPY".to_string(),
        contract_count: 9,
        snapshot_count: 8,
        scoreable_count: 7,
        rejection_counts,
        candidates,
        no_candidate_reason: "no_spread".to_string(),
    }
}

fn printed() -> CandidateTexts {
    CandidateTexts {
        premium: "0.50".to_string(),
        ratio: "20.0".to_string(),
        score: "70.0".to_string(),
        delta: "0.20".to_string(),
        requirement: "1500".to_string(),
        usage: "3.0%".to_string(),
        metrics: None,
    }
}

fn put_credit() -> AlpacaOptionsCandidateProfile {
    AlpacaOptionsCandidateProfile::synthetic(
        "core".to_string(),
        AlpacaOptionsStrategyFamily::PutCredit,
        1,
    )
}

fn naked() -> NakedOptionCandidate {
    NakedOptionCandidate {
        short: contract("SPY260512P00708000"),
        credit: amount(1.0),
        capital_requirement_model: Some("reg_t".to_string()),
        estimated_buying_power_requirement: amount(1500.0),
        buying_power_usage_pct: Some(amount(0.03)),
        return_on_buying_power: amount(0.01),
        score: amount(96.0),
    }
}

fn credit_candidate() -> SpreadCandidate {
    match credit() {
        SelectedOptionsEntry::Credit(selected) => selected.candidate,
        _ => panic!("not a credit spread"),
    }
}

#[test]
fn passes_visit_active_entries_in_order() {
    let mut closed = open_entry();
    closed.closed = true;
    let mut state = StrategyState { entries: vec![closed, open_entry(), entry()] };
    let mut pass = ManagementPass::new();

    let lookup = pass.next(&state).unwrap();
    assert_eq!(pass.at, 1);
    assert!(matches!(lookup, OrderLookup::EntryOrder(id) if id == "list-1"));
    let step = pass.on_entry_order(
        &settings(),
        &mut state,
        Some(&order("o-1", "canceled", false)),
        NOW,
    );
    assert_eq!(step, EntryOrderStep::Terminal);
    assert!(state.entries[1].canceled);

    let lookup = pass.next(&state).unwrap();
    assert!(matches!(lookup, OrderLookup::CloseOrder(id) if id == "close-1"));
    let step = pass.on_close_order(
        &settings(),
        &mut state,
        Some(&order("o-2", "filled", false)),
        NOW,
        "2026-05-04T15:00:00Z".to_string(),
    );
    assert_eq!(step, CloseOrderStep::Filled);
    assert!(state.entries[2].closed);
    assert_eq!(state.entries[2].close_parent_order_id, Some("o-2".to_string()));

    assert!(pass.next(&state).is_none());
    assert_eq!(pass, ManagementPass { at: 3, stage: PassStage::Entry, changed: true });
}

#[test]
fn stale_orders_are_canceled_before_they_are_forgotten() {
    let mut state = StrategyState { entries: vec![entry(), open_entry()] };
    let mut pass = ManagementPass::new();
    assert!(pass.next(&state).is_some());
    let working = order("o-1", "new", true);
    let now = "2026-05-04T15:00:00Z".to_string();
    assert_eq!(
        pass.on_close_order(&settings(), &mut state, Some(&working), NOW, now),
        CloseOrderStep::StaleCancel,
    );
    assert!(state.entries[0].close_order_list_id.is_some());
    assert_eq!(pass.stage, PassStage::CloseCancellation);
    pass.on_close_canceled(&mut state);
    assert!(state.entries[0].close_order_list_id.is_none());
    assert!(pass.next(&state).is_some());
    assert_eq!(
        pass.on_entry_order(&settings(), &mut state, Some(&working), NOW),
        EntryOrderStep::StaleCancel,
    );
    assert!(!state.entries[1].canceled);
    pass.on_entry_canceled(&mut state);
    assert!(state.entries[1].canceled);
    assert!(pass.changed);
}

#[test]
fn accepted_closes_stand_in_the_entry() {
    let mut state = StrategyState { entries: vec![open_entry()] };
    let mut pass = ManagementPass::new();
    assert!(pass.next(&state).is_some());
    let filled = order("o-1", "filled", false);
    assert_eq!(
        pass.on_entry_order(&settings(), &mut state, Some(&filled), NOW),
        EntryOrderStep::Evaluate,
    );
    let mut config = settings();
    config.management.close_regular_hours_only = false;
    let (decision, reason) = pass.on_quote(&config, &state, &Some(quote()), &thresholds(), NOW);
    assert_eq!(decision, CloseDecision::Submit);
    assert_eq!(reason, Some("profit_target".to_string()));
    let outcome = SubmitOutcome { accepted: 1, parent_order_id: Some("p-1".to_string()) };
    pass.on_submitted(
        &mut state,
        outcome,
        "close-9".to_string(),
        "profit_target".to_string(),
        "2026-05-04T15:00:00Z".to_string(),
    );
    assert_eq!(state.entries[0].close_order_list_id, Some("close-9".to_string()));
    assert_eq!(state.entries[0].close_attempts, 3);
    assert!(pass.changed);
}

#[test]
fn iterations_stop_at_their_limit() {
    assert_eq!(next_iteration(1, 0), Some(2));
    assert_eq!(next_iteration(u64::MAX, 0), Some(u64::MAX));
    assert_eq!(next_iteration(1, 2), Some(2));
    assert_eq!(next_iteration(2, 2), None);
    let event = management_iteration_event(2, "2026-05-04");
    assert_eq!(event.payload.get_number("iteration"), Some(2));
}

#[test]
fn only_accepted_submissions_are_taken_back() {
    let mut tally = ExecutionTally::new();
    let parent = Some("p-1".to_string());
    assert_eq!(parent_to_cancel(true, &tally, &parent), None);
    assert!(tally.count(ExecutionNotice::Accepted, 1));
    assert_eq!(parent_to_cancel(true, &tally, &parent), Some("p-1"));
    assert_eq!(parent_to_cancel(false, &tally, &parent), None);
}

#[test]
fn order_steps_are_told_in_lines() {
    let held = order("o-1", "held", true);
    assert_eq!(
        close_order_lines("close-1", Some(&held), CloseOrderStep::StaleReported, false),
        vec![
            "manage: close_order order_list_id=close-1 status=held",
            "manage: stale_close order_list_id=close-1 status=held manage_enabled=false",
        ],
    );
    assert_eq!(
        close_order_lines("close-1", None, CloseOrderStep::Missing, true),
        vec!["manage: close_order_missing order_list_id=close-1"],
    );
    assert_eq!(
        entry_order_line("list-1", Some(&held), EntryOrderStep::Terminal, true).unwrap(),
        "manage: entry_terminal order_list_id=list-1 status=held",
    );
    assert!(entry_order_line("list-1", Some(&held), EntryOrderStep::Evaluate, true).is_none());
    let event = close_order_event(&entry(), CloseOrderStep::Missing).unwrap();
    assert_eq!(event.payload.get_str("reason"), Some("close_order_missing"));
    assert_eq!(event.payload.get_str("close_order_list_id"), Some("close-1"));
    assert!(close_order_event(&entry(), CloseOrderStep::Terminal).is_none());
}

#[test]
fn stopped_closes_are_told_with_their_gate() {
    let config = settings();
    let trigger = Some("stop_loss".to_string());
    let cooldown = CloseDecision::RepriceCooldown { remaining_secs: 12 };
    let event = close_decision_event(&config, &entry(), cooldown, &trigger).unwrap();
    assert_eq!(
        keys(&event.payload),
        vec!["action", "reason", "underlying", "trigger", "remaining_secs"],
    );
    assert_eq!(
        close_decision_line(&config, &entry(), cooldown, "stop_loss").unwrap(),
        "manage: close_blocked underlying=SPY trigger=stop_loss reason=close_reprice_cooldown remaining_secs=12",
    );
    assert_eq!(
        close_decision_line(&config, &entry(), CloseDecision::OutsideCloseWindow, "x").unwrap(),
        "manage: close_blocked underlying=SPY trigger=x reason=outside_close_window window=09:30:00-16:00:00 timezone=America/New_York",
    );
    assert_eq!(
        close_decision_line(&config, &entry(), CloseDecision::MaxCloseAttempts, "x").unwrap(),
        "manage: close_blocked underlying=SPY trigger=x reason=max_close_attempts attempts=2 limit=0",
    );
    let event =
        close_decision_event(&config, &entry(), CloseDecision::CloseDisabled, &trigger).unwrap();
    assert!(matches!(event.payload.get("close_enabled"), Some(Json::Bool(true))));
    assert!(event.payload.get("strategy").is_none());
    let event =
        close_decision_event(&config, &entry(), CloseDecision::QuoteUnavailable, &None).unwrap();
    assert_eq!(event.payload.get_str("strategy"), Some("put_credit"));
    assert!(close_decision_event(&config, &entry(), CloseDecision::Hold, &None).is_none());
}

#[test]
fn positions_and_limits_are_told_by_side() {
    assert_eq!(
        position_line(&entry(), "0.20", "0.50", &None),
        "manage: position underlying=SPY strategy=put_credit close_debit=0.20 entry_credit=0.50 reason=none",
    );
    let mut debit = entry();
    debit.strategy = "call_debit".to_string();
    assert_eq!(
        position_line(&debit, "1.20", "1.00", &Some("max_hold".to_string())),
        "manage: position underlying=SPY strategy=call_debit close_credit=1.20 entry_debit=1.00 reason=max_hold",
    );
    assert_eq!(
        close_limit_line(&debit, "1.20", "0.02", "1.18"),
        "manage: close_limit underlying=SPY raw_credit=1.20 cushion=0.02 limit_credit=1.18",
    );
}

#[test]
fn reconciliation_is_told_entry_by_entry() {
    assert!(reconciliation_event(&entry(), ReconciliationAction::Keep).is_none());
    assert!(reconciliation_line(&entry(), ReconciliationAction::Keep).is_none());
    let event = reconciliation_event(&entry(), ReconciliationAction::MarkClosed).unwrap();
    assert_eq!(event.event_type, "reconciliation_repair");
    assert_eq!(event.payload.get_str("reason"), Some("broker_flat"));
    let event = reconciliation_event(&entry(), ReconciliationAction::PartialPosition).unwrap();
    assert_eq!(event.event_type, "reconciliation_warning");
    assert_eq!(
        reconciliation_line(&entry(), ReconciliationAction::PartialPosition).unwrap(),
        "reconcile: partial_position underlying=SPY symbols=SPY260512P00708000,SPY260512P00705000",
    );
    assert!(unmanaged_positions_event(&Vec::new()).is_none());
    let symbols = owned(&["A", "B"]);
    assert_eq!(
        unmanaged_positions_line(&symbols),
        "reconcile: unmanaged_positions symbols=A,B",
    );
    let event = unmanaged_positions_event(&symbols).unwrap();
    assert_eq!(event.payload.get_list("symbols").unwrap().len(), 2);
    let event = performance_ledger_error_event(&entry(), "timeout");
    assert_eq!(event.payload.get_str("error"), Some("timeout"));
}

#[test]
fn scans_without_a_candidate_tell_why() {
    let empty = scan(ScanCandidates::Credit(CreditSpreadKind::Put, Vec::new()));
    assert_eq!(
        scan_line(&empty, &printed()),
        "SPY: no_candidate strategy=put_credit reason=no_spread contracts=9 snapshots=8 scoreable=7 rejections=delta=1,spread_too_wide=2",
    );
    let event = scanner_diagnostic_event(&put_credit(), &empty, &figures());
    assert_eq!(event.payload.get_str("result"), Some("no_candidate"));
    assert_eq!(event.payload.get_str("reason"), Some("no_spread"));
    assert_eq!(keys(&event.payload), keys(&scanner_ledger_payload(&put_credit(), &empty)));
}

#[test]
fn scans_with_a_candidate_tell_of_the_first() {
    let found = scan(ScanCandidates::Credit(CreditSpreadKind::Put, vec![credit_candidate()]));
    assert_eq!(
        scan_line(&found, &printed()),
        "SPY: candidate strategy=put_credit short=SPY260512P00708000 long=SPY260512P00705000 credit=0.50 ror=20.0% score=70.0",
    );
    let record = scanner_ledger_payload(&put_credit(), &found);
    assert_eq!(record.get_str("result"), Some("candidate"));
    assert!(is_null(&record, "reason"));
    let event = scanner_diagnostic_event(&put_credit(), &found, &figures());
    assert_eq!(float(&event.payload, "credit"), 0.5);
    assert!(event.payload.get("contracts").is_none());
    assert_eq!(event.payload.get_str("profile_id"), Some("core"));
}

#[test]
fn naked_scans_tell_their_metrics() {
    let found = scan(ScanCandidates::Naked(NakedOptionKind::Put, vec![naked()]));
    let mut texts = printed();
    assert_eq!(
        scan_line(&found, &texts),
        "SPY: candidate strategy=naked_put short=SPY260512P00708000 credit=0.50 delta=0.20 bpr=$1500 bp_use=3.0% rbp=20.0% score=70.0",
    );
    texts.metrics = Some(MetricTexts {
        breakeven_pop: "80.0".to_string(),
        probability_of_touch: "40.0".to_string(),
        distance_to_breakeven: "2.5".to_string(),
        expected_move_coverage: "0.90".to_string(),
    });
    assert_eq!(
        scan_line(&found, &texts),
        "SPY: candidate strategy=naked_put short=SPY260512P00708000 credit=0.50 delta=0.20 pop=80.0% touch=40.0% be_dist=2.5% em_cov=0.90 bpr=$1500 bp_use=3.0% rbp=20.0% score=70.0",
    );
    let mut known = figures();
    let event = scanner_diagnostic_event(&put_credit(), &found, &known);
    assert!(is_null(&event.payload, "breakeven_pop"));
    assert_eq!(float(&event.payload, "score"), 96.0);
    assert_eq!(event.payload.get_str("capital_requirement_model"), Some("reg_t"));
    known.metrics = Some(NakedOptionMetrics {
        underlying_price: amount(720.0),
        breakeven: amount(707.0),
        strike_itm_probability: amount(0.2),
        delta_pop_proxy: amount(0.8),
        breakeven_pop: amount(0.81),
        probability_of_touch_est: amount(0.4),
        expected_move: amount(10.0),
        expected_move_pct: amount(0.014),
        distance_to_strike_pct: amount(0.016),
        distance_to_breakeven_pct: amount(0.018),
        expected_move_coverage: amount(1.2),
        model_delta_abs: amount(0.21),
        model_gamma: amount(0.01),
        model_theta: amount(-0.1),
        model_vega: amount(0.3),
    });
    let event = scanner_diagnostic_event(&put_credit(), &found, &known);
    assert_eq!(float(&event.payload, "breakeven_pop"), 0.81);
    assert_eq!(keys(&event.payload).len(), 39);
}

#[test]
fn outcomes_are_told_with_what_was_known() {
    let plan = plan_selected_entry(credit()).unwrap();
    let tell = |outcome: &CandidateOutcome, regime: Option<Json>| {
        candidate_outcome_event("2026-05-04", &plan, outcome, regime)
    };
    let event = tell(&CandidateOutcome::Skipped("outside_entry_window"), None).unwrap();
    assert_eq!(
        keys(&event.payload),
        vec!["action", "reason", "trade_date", "underlying", "strategy"],
    );
    let event = tell(&CandidateOutcome::Skipped("duplicate_pending_submission"), None).unwrap();
    assert!(event.payload.get_str("key").is_some());
    let regime = || Some(Json::Object(Vec::new()));
    let event = tell(&CandidateOutcome::DryRun("regime_dry_run_only"), regime()).unwrap();
    assert!(matches!(event.payload.get("regime_context"), Some(Json::Object(_))));
    let event = tell(&CandidateOutcome::DryRun("open_orders_disabled"), regime()).unwrap();
    assert!(event.payload.get("regime_context").is_none());
    let block = SubmissionBlock {
        reason: "risk_max_open_orders".to_string(),
        current: Some(3),
        limit: Some(2),
        details: Vec::new(),
    };
    let event = tell(&CandidateOutcome::Blocked(block), regime()).unwrap();
    assert_eq!(event.payload.get_str("action"), Some("selected_but_blocked"));
    assert!(event.payload.get("regime_context").is_some());
    assert!(tell(&CandidateOutcome::NoCandidate, None).is_none());
    assert!(tell(&CandidateOutcome::Submit(Vec::new()), None).is_none());
}

#[test]
fn alerts_carry_the_note_of_the_outcome() {
    let codes = owned(&["vix_high"]);
    let note = candidate_note(&CandidateOutcome::DryRun("regime_dry_run_only"), "list-1", &codes);
    let note = note.unwrap();
    assert_eq!(note.details, codes);
    let base = vec![("action".to_string(), Json::Text("scan".to_string()))];
    let alert = selected_candidate_alert(base, "put_credit|SPY", "2026-05-04", &note, None);
    assert_eq!(alert.get_str("action"), Some("dry_run"));
    assert_eq!(alert.get_str("candidate_identity_key"), Some("put_credit|SPY"));
    assert_eq!(alert.get_list("details").unwrap().len(), 1);
    assert!(alert.get("order_list_id").is_none());
    assert!(alert.get("current").is_none());
    let note = candidate_note(&CandidateOutcome::Submit(Vec::new()), "list-1", &codes).unwrap();
    let alert = selected_candidate_alert(Vec::new(), "k", "2026-05-04", &note, None);
    assert_eq!(alert.get_str("order_list_id"), Some("list-1"));
    assert!(alert.get("reason").is_none());
    let silent = CandidateOutcome::Skipped("candidate_ledger_unhealthy");
    assert!(candidate_note(&silent, "list-1", &codes).is_none());
}

#[test]
fn rejected_submissions_are_alerted_with_their_reasons() {
    let alert = SubmitRejectedAlert {
        submission: PendingEntrySubmission {
            entry: credit(),
            trade_date: "2026-05-04".to_string(),
            order_list_id: "list-1".to_string(),
            submitted_at_utc: "2026-05-04T14:00:00Z".to_string(),
            quantity: 1,
            risk_capital_usd: None,
            spread: SpreadRecord::none(),
            order_count: 2,
            accepted: 1,
            rejected: 1,
            recorded: true,
            rejection_reasons: owned(&["no permission"]),
        },
        terminal_rejection_recorded: false,
    };
    let payload = submit_rejected_candidate_alert(Vec::new(), "k", &alert);
    assert_eq!(payload.get_str("action"), Some("submitted"));
    assert_eq!(payload.get_number("accepted"), Some(1));
    assert_eq!(payload.get_list("rejection_reasons").unwrap().len(), 1);
    assert!(matches!(payload.get("terminal_rejection_recorded"), Some(Json::Bool(false))));
}

#[test]
fn closes_are_told_with_their_path() {
    let config = AlpacaOptionsManagementConfig::default();
    let event = close_submit_event(
        &config,
        &entry(),
        "close-2",
        "stop_loss",
        amount(0.02),
        amount(0.22),
    );
    assert_eq!(event.event_type, "management_action");
    assert_eq!(event.payload.get_number("close_attempt"), Some(3));
    assert_eq!(event.payload.get_str("close_order_mode"), Some("legacy_leg_order_list"));
    assert_eq!(float(&event.payload, "close_debit"), 0.22);
    let event = vertical_required_event(&entry(), "close-2", "stop_loss");
    assert_eq!(
        event.payload.get_str("reason"),
        Some("spread_close_order_mode_requires_vertical_entry"),
    );
    let pending = PendingCloseSubmission {
        entry_order_list_id: "list-1".to_string(),
        close_order_list_id: "close-2".to_string(),
        close_reason: "stop_loss".to_string(),
        close_order_mode: "option_spread".to_string(),
        order_count: 1,
        accepted: 0,
        rejected: 1,
        recorded: false,
    };
    let event = close_rejected_event("halted", &pending);
    assert_eq!(event.payload.get_number("rejected"), Some(1));
    let event =
        spread_close_draft_error_event(&entry(), "close-2", "boom", CloseOrderMode::OptionSpread);
    assert_eq!(event.payload.get_str("error"), Some("boom"));
    assert_eq!(event.payload.get_list("symbols").unwrap().len(), 2);
}

#[test]
fn drafts_that_fail_are_told() {
    let plan = plan_selected_entry(credit()).unwrap();
    let event = spread_plan_error_event("2026-05-04", &plan, "boom");
    assert_eq!(event.event_type, "candidate_spread_quote");
    assert!(event.payload.get("dry_run_reason").is_none());
    let event = spread_order_draft_error_event("2026-05-04", &plan, "regime", "boom");
    assert_eq!(event.payload.get_str("dry_run_reason"), Some("regime"));
    let event = candidate_ledger_error_event("decision", "2026-05-04", None);
    assert_eq!(event.payload.get_str("reason"), Some("operational_store_not_connected"));
    let event = candidate_ledger_error_event("decision", "2026-05-04", Some("timeout"));
    assert_eq!(event.payload.get_str("reason"), Some("append_failed"));
    let event = state_persistence_error_event("full");
    assert_eq!(event.payload.get_str("reason"), Some("enqueue_failed"));
}

#[test]
fn quote_changes_are_told_with_their_symbols() {
    let state = StrategyState { entries: vec![entry()] };
    let mut book = QuoteSubscriptions::new();
    let change = book.refresh(&state, TextSet::new());
    assert!(change.changed);
    let event = quote_cache_event(&book, &state, 5);
    assert_eq!(event.payload.get_number("subscribed_count"), Some(2));
    assert_eq!(event.payload.get_number("candidate_quote_limit"), Some(5));
    assert_eq!(event.payload.get_list("active_entry_quote_symbols").unwrap().len(), 2);
}

#[test]
fn order_lists_are_read_from_the_cache() {
    let known = |id: &str, list: Option<&str>, filled: bool| KnownOrder {
        client_order_id: id.to_string(),
        order_list_id: list.map(|text| text.to_string()),
        status: CachedOrder { filled, working: !filled, closed: filled },
        cancellable: !filled,
    };
    let orders = vec![
        known("list-1-short", None, true),
        known("other", Some("list-1"), false),
        known("list-2-short", None, false),
    ];
    let found = order_list_orders(&orders, &None, "list-1");
    assert_eq!(found.len(), 2);
    assert_eq!(order_list_status(&order_statuses(&found)), OrderListRuntimeStatus::Working);
    assert_eq!(cancellable_order_ids(&found), vec!["other"]);
    let listed = Some(owned(&["list-2-short", "unknown"]));
    let found = order_list_orders(&orders, &listed, "list-1");
    assert_eq!(found.len(), 1);
    assert_eq!(found[0].client_order_id, "list-2-short");
}

#[test]
fn leg_prices_come_from_the_last_quotes() {
    let mut quotes: TextMap<LegQuote> = TextMap::new();
    quotes.insert(
        "SPY260512P00708000".to_string(),
        LegQuote { bid: amount(0.2), ask: amount(0.3) },
    );
    let ticks = close_ticks_from_cache(&entry(), &quotes).unwrap();
    assert_eq!(ticks.short_ask, Some(amount(0.3)));
    assert_eq!(ticks.long_bid, None);
    let mut blank = entry();
    blank.short_symbol = " ".to_string();
    assert!(close_ticks_from_cache(&blank, &quotes).is_none());
}

#[test]
fn cushions_raise_the_short_legs_only() {
    let raised = RaisedPrices {
        short_ask: amount(0.32),
        short_call_ask: amount(0.42),
        debit: amount(0.22),
    };
    assert_eq!(quote().with_price_cushion(amount(0.0), raised), quote());
    let spread = quote().with_price_cushion(amount(0.02), raised);
    assert_eq!(spread.short_ask, amount(0.32));
    assert_eq!(spread.short_call_ask, None);
    assert_eq!(spread.long_bid, amount(0.1));
    let mut condor = quote();
    assert_eq!(condor.short_leg_count(), 1);
    condor.short_call_ask = Some(amount(0.4));
    assert_eq!(condor.short_leg_count(), 2);
    let condor = condor.with_price_cushion(amount(0.04), raised);
    assert_eq!(condor.short_call_ask, Some(amount(0.42)));
}

fn series(id: &str, underlying: &str) -> OptionSeries {
    OptionSeries {
        id: id.to_string(),
        venue: "ALPACA".to_string(),
        underlying: underlying.to_string(),
        settlement_currency: "USD".to_string(),
        expiration_ns: 1_778_544_000_000_000_000,
    }
}

fn chain_input() -> OptionChainCandidateInput {
    let side = |symbols: &[&str]| OptionChainCandidateSide {
        contracts: symbols
            .iter()
            .map(|symbol| CandidateContract {
                symbol: symbol.to_string(),
                expiration_date: "2026-05-12".to_string(),
                strike: None,
                open_interest: None,
            })
            .collect(),
        snapshots: TextMap::new(),
    };
    OptionChainCandidateInput {
        underlying: "SPY".to_string(),
        expiration_date: "2026-05-12".to_string(),
        calls: side(&["c-1"]),
        puts: side(&["p-1", "p-2"]),
        underlying_price: None,
    }
}

fn scored(candidates: ScanCandidates) -> ScoredSide {
    let mut scoring_rejections: TextMap<usize> = TextMap::new();
    scoring_rejections.add_count("delta", 1);
    let mut build_rejections: TextMap<usize> = TextMap::new();
    build_rejections.add_count("delta", 2);
    ScoredSide { scoreable_count: 1, scoring_rejections, build_rejections, candidates }
}

#[test]
fn chain_scans_read_their_own_side() {
    let put = scan_credit_spread_option_chain(
        &chain_input(),
        CreditSpreadKind::Put,
        scored(ScanCandidates::Credit(CreditSpreadKind::Put, Vec::new())),
        "no_spread",
    );
    assert_eq!(put.contract_count, 2);
    assert_eq!(put.rejection_counts.count("delta"), 3);
    let call = scan_debit_spread_option_chain(
        &chain_input(),
        DebitSpreadKind::Call,
        scored(ScanCandidates::Debit(DebitSpreadKind::Call, Vec::new())),
        "no_spread",
    );
    assert_eq!(call.contract_count, 1);
}

#[test]
fn actors_subscribe_to_each_series_once() {
    let mut config = OptionChainOpportunityScanActorConfig::default();
    config.series = vec![series("a", "SPY"), series("b", "QQQ"), series("a", "SPY")];
    let mut actor = OptionChainOpportunityScanActor::new(config.clone());
    assert!(matches!(actor.on_start(), SeriesStart::Subscribe(at) if at == vec![0, 1]));
    assert!(matches!(actor.on_start(), SeriesStart::Subscribe(at) if at.is_empty()));
    assert_eq!(actor.on_stop(), vec!["a", "b"]);
    assert!(actor.subscribed_series.is_empty());

    config.bootstrap_instruments = true;
    let mut actor = OptionChainOpportunityScanActor::new(config);
    assert!(matches!(actor.on_start(), SeriesStart::RequestInstruments(at) if at == vec![0, 1, 2]));
    let instrument = SeriesInstrument {
        venue: "ALPACA".to_string(),
        underlying: Some("QQQ".to_string()),
        settlement_currency: "USD".to_string(),
        expiration_ns: Some(1_778_544_000_000_000_000),
        has_strike_price: true,
        has_option_kind: true,
    };
    assert_eq!(actor.on_instrument(&instrument), vec![1]);
    assert!(actor.on_instrument(&instrument).is_empty());
    let request = series_request(&series("a", "SPY"));
    assert_eq!(request.underlying, "SPY");
    assert_eq!(request.expiration_date, "2026-05-12");
}

#[test]
fn actors_keep_what_a_slice_gave() {
    let mut actor =
        OptionChainOpportunityScanActor::new(OptionChainOpportunityScanActorConfig::default());
    assert!(actor.latest_opportunities().is_none());
    let found = scan(ScanCandidates::Credit(CreditSpreadKind::Put, vec![credit_candidate()]));
    let event = actor.on_option_chain(
        "series-1",
        &chain_input(),
        1_777_906_800_000_000_000,
        NOW,
        &put_credit(),
        vec![found],
    );
    assert_eq!(event.event_type, "option_chain_opportunity_scan");
    assert_eq!(event.payload.get_number("put_contracts"), Some(2));
    let latest = actor.latest_opportunities().unwrap();
    assert_eq!(latest.trade_date, "2026-05-04");
    assert_eq!(latest.ranked_entries().len(), 1);
}

#[test]
fn direct_submissions_pass_no_gate() {
    let mut config = AlpacaOptionsEntryStrategyConfig::new(2);
    config.kill_switch = true;
    let strategy = AlpacaOptionsEntryStrategy::new(config);
    let prepared = strategy.submit_selected_entry(credit(), "list-1").unwrap();
    assert_eq!(prepared.submission.order_count, 2);
    match prepared.orders {
        OrderSubmission::List(orders) => {
            assert_eq!(orders[0].client_order_id, "list-1-short");
            assert_eq!(orders[0].order_list_id, Some("list-1".to_string()));
            assert_eq!(orders[1].quantity, 2);
        }
        OrderSubmission::Single(_) => panic!("a spread has two orders"),
    }
    let empty = OptionsCandidateSet::new("2026-05-04");
    assert!(strategy.submit_opportunities(empty, "list-1").unwrap().is_none());
    let mut set = OptionsCandidateSet::new("2026-05-04");
    set.consider_candidate(ProfiledOptionsEntry::new(put_credit(), credit()));
    assert!(strategy.submit_opportunities(set, "list-1").unwrap().is_some());
    let none = AlpacaOptionsEntryStrategy::new(AlpacaOptionsEntryStrategyConfig::new(0));
    assert!(none.submit_selected_entry(credit(), "list-1").is_err());
}

#[test]
fn profiled_entries_carry_their_profile_fields() {
    let entry = ProfiledOptionsEntry::new(put_credit(), credit());
    let payload = entry.insert_profile_json_fields(Fields::new().text("a", "b")).into_json();
    assert_eq!(keys(&payload)[0], "a");
    assert_eq!(payload.get_str("profile_id"), Some("core"));
}

#[test]
fn snapshots_keep_the_lifecycle_state() {
    let mut handle = OptionLifecycleRiskHandle::new(OptionLifecycleRiskConfig::default());
    let event = OptionLifecycleEvent {
        kind: OptionLifecycleEventKind::Assignment,
        id: Some("a-1".to_string()),
        symbol: None,
        occurred_at_utc: Some(NOW),
        activity_date: None,
        quantity: None,
    };
    handle.update_events(vec![event], NOW);
    assert_eq!(handle.snapshot(), handle.state);
    handle.record_poll_error("timeout".to_string(), NOW);
    assert_eq!(handle.snapshot().last_poll_error, Some("timeout".to_string()));
}

#[test]
fn copied_values_are_the_same() {
    let value = Json::List(vec![
        Json::Object(vec![("a".to_string(), Json::Number(JsonNumber::Natural(1)))]),
        Json::Text("b".to_string()),
        Json::Null,
    ]);
    assert!(value.copy().same_as(&value));
    assert!(!value.same_as(&Json::List(Vec::new())));
    assert!(!Json::Bool(true).same_as(&Json::Bool(false)));
}

#[test]
fn kept_performance_is_told_with_its_cash_flows() {
    let event = performance_ledger_event(&PerformanceRecord {
        ledger_path: "performance/2026-05-04".to_string(),
        appended: true,
        record_key: "list-1".to_string(),
        underlying: "SPY".to_string(),
        strategy: "put_credit".to_string(),
        status: "closed".to_string(),
        realized_pnl: None,
        open_cashflow: amount(50.0),
        close_cashflow: amount(-20.0),
        warnings: owned(&["open_fill_missing"]),
    });
    assert_eq!(event.event_type, "performance_ledger");
    assert_eq!(
        keys(&event.payload),
        vec![
            "ledger_path",
            "appended",
            "record_key",
            "underlying",
            "strategy",
            "status",
            "realized_pnl",
            "open_cashflow",
            "close_cashflow",
            "warnings",
        ],
    );
    assert!(matches!(event.payload.get("realized_pnl"), Some(Json::Null)));
    assert!(matches!(
        event.payload.get("close_cashflow"),
        Some(Json::Number(JsonNumber::Float(flow))) if *flow == amount(-20.0),
    ));
}
