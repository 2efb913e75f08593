//! Decisions on entries, orders, quotes and chains.
use alpaca_options::active_entry::manage_active_entry;
use alpaca_options::active_entry::ActiveEntryDecision;
use alpaca_options::active_entry::EntryObservation;
use alpaca_options::active_entry::OrderListRuntimeStatus;
use alpaca_options::active_entry::SpreadQuote;
use alpaca_options::amount::Amount;
use alpaca_options::broker::AlpacaOrder;
use alpaca_options::broker::AlpacaPosition;
use alpaca_options::calendar::CalendarDate;
use alpaca_options::calendar::UtcInstant;
use alpaca_options::candidate_set::scan_options_candidates;
use alpaca_options::candidate_set::scan_tasks;
use alpaca_options::candidate_set::AlpacaOptionsCandidateProfile;
use alpaca_options::candidate_set::OptionsCandidateSet;
use alpaca_options::candidate_set::OptionsScanOutcome;
use alpaca_options::candidate_set::ProfiledOptionsEntry;
use alpaca_options::candidate_set::ScanCandidates;
use alpaca_options::candidate_set::ScanRequest;
use alpaca_options::candidate_set::ScanResult;
use alpaca_options::candidates::CreditSpreadKind;
use alpaca_options::candidates::DebitSpreadKind;
use alpaca_options::candidates::IronCondorCandidate;
use alpaca_options::candidates::NakedOptionKind;
use alpaca_options::candidates::ScoredContract;
use alpaca_options::candidates::SpreadCandidate;
use alpaca_options::chain::implied_volatility;
use alpaca_options::chain::instrument_belongs_to_series;
use alpaca_options::chain::naked_scanner_for;
use alpaca_options::chain::option_chain_candidate_input;
use alpaca_options::chain::option_chain_scans;
use alpaca_options::chain::scan_date_from_timestamp;
use alpaca_options::chain::scan_iron_condor_option_chain;
use alpaca_options::chain::scan_naked_option_chain;
use alpaca_options::chain::scan_option_chain_opportunities;
use alpaca_options::chain::scan_option_chain_side;
use alpaca_options::chain::subscribe_for_instrument;
use alpaca_options::chain::OptionChainOpportunityScanConfig;
use alpaca_options::chain::OptionChainSlice;
use alpaca_options::chain::OptionSeries;
use alpaca_options::chain::ScoredSide;
use alpaca_options::chain::SeriesInstrument;
use alpaca_options::chain::StrikeQuote;
use alpaca_options::engine::add_state_order_id;
use alpaca_options::engine::apply_close_step;
use alpaca_options::engine::apply_entry_step;
use alpaca_options::engine::decide_close;
use alpaca_options::engine::decide_close_order;
use alpaca_options::engine::decide_entry_order;
use alpaca_options::engine::lookup_for;
use alpaca_options::engine::performance_activity_after_timestamp;
use alpaca_options::engine::record_close_outcome;
use alpaca_options::engine::CloseDecision;
use alpaca_options::engine::CloseOrderStep;
use alpaca_options::engine::EngineManagementConfig;
use alpaca_options::engine::EntryOrderStep;
use alpaca_options::engine::ExecutionNotice;
use alpaca_options::engine::ExecutionTally;
use alpaca_options::engine::OrderLookup;
use alpaca_options::engine::SubmitOutcome;
use alpaca_options::entry::SelectedEntry;
use alpaca_options::entry::SelectedOptionsEntry;
use alpaca_options::management::close_quote_from_ticks;
use alpaca_options::management::close_reason;
use alpaca_options::management::management_instrument_ids;
use alpaca_options::management::AlpacaOptionsManagementConfig;
use alpaca_options::management::CloseOrderMode;
use alpaca_options::management::CloseQuote;
use alpaca_options::management::CloseThresholds;
use alpaca_options::management::CloseTicks;
use alpaca_options::management::NetPrices;
use alpaca_options::payloads::price_spread_close;
use alpaca_options::payloads::ObservedQuote;
use alpaca_options::profile::AlpacaOptionsStrategyFamily;
use alpaca_options::profile::AlpacaOptionsStrategyMode;
use alpaca_options::profile::AlpacaOptionsStrategyProfile;
use alpaca_options::profile::AlpacaOptionsStrategyRiskOverrides;
use alpaca_options::profile::AlpacaOptionsStrategyScannerConfig;
use alpaca_options::quotes::external_order_claims;
use alpaca_options::quotes::quote_age_secs;
use alpaca_options::quotes::selected_entry_quote_freshness_block;
use alpaca_options::quotes::stale_active_risk_quote_symbols;
use alpaca_options::quotes::QuoteSubscriptions;
use alpaca_options::reconciliation::reconcile_strategy_state;
use alpaca_options::reconciliation::ReconciliationAction;
use alpaca_options::state::StrategyState;
use alpaca_options::state::StrategyStateEntry;
use alpaca_options::text_map::TextMap;
use alpaca_options::text_set::TextSet;

const NANOS: u64 = 1_000_000_000;

fn amount(value: f64) -> Amount {
    Amount { bits: value.to_bits() }
}

fn instant(text: &str) -> UtcInstant {
    let moment = chrono::DateTime::parse_from_rfc3339(text).unwrap();
    UtcInstant { secs: moment.timestamp(), nanos: moment.timestamp_subsec_nanos() }
}

fn now() -> UtcInstant {
    instant("2026-05-04T15:00:00Z")
}

fn entry() -> StrategyStateEntry {
    StrategyStateEntry {
        trade_date: "2026-05-04".to_string(),
        underlying: "SPY".to_string(),
        strategy: "put_credit".to_string(),
        order_list_id: "list-1".to_string(),
        short_symbol: "SPY260512P00708000".to_string(),
        long_symbol: "SPY260512P00705000".to_string(),
        short_call_symbol: None,
        long_call_symbol: None,
        quantity: 1,
        credit: amount(0.5),
        debit: None,
        risk_capital_usd: None,
        score: amount(60.0),
        parent_order_id: Some("parent-1".to_string()),
        submitted_at_utc: Some("2026-05-04T14:00:00Z".to_string()),
        spread_instrument_id: None,
        spread_raw_symbol: None,
        spread_legs: Vec::new(),
        entry_pricing_source: None,
        close_order_list_id: None,
        close_parent_order_id: None,
        close_reason: None,
        close_order_mode: None,
        close_attempts: 0,
        last_close_submitted_at_utc: None,
        submitted: true,
        canceled: false,
        closed: false,
        recorded_at_utc: "2026-05-04T14:00:00Z".to_string(),
        closed_at_utc: None,
    }
}

fn quote(debit: f64) -> CloseQuote {
    CloseQuote {
        short_ask: amount(debit + 0.1),
        long_bid: amount(0.1),
        short_call_ask: None,
        long_call_bid: None,
        debit: amount(debit),
    }
}

fn thresholds() -> CloseThresholds {
    CloseThresholds { profit_target: amount(0.25), stop_loss: amount(1.0) }
}

fn management() -> AlpacaOptionsManagementConfig {
    AlpacaOptionsManagementConfig {
        close_orders_enabled: true,
        ..AlpacaOptionsManagementConfig::default()
    }
}

fn seen(status: OrderListRuntimeStatus, debit: f64) -> EntryObservation {
    EntryObservation {
        status,
        has_stale_quote: false,
        quote: Some(quote(debit)),
        thresholds: thresholds(),
    }
}

fn order(status: &str, working: bool) -> AlpacaOrder {
    AlpacaOrder {
        id: Some("order-1".to_string()),
        client_order_id: None,
        status: Some(status.to_string()),
        order_class: None,
        asset_class: None,
        symbol: None,
        qty: None,
        side: None,
        submitted_at: Some("2026-05-04T14:00:00Z".to_string()),
        created_at: None,
        updated_at: None,
        working,
        filled: amount(0.0),
        legs: None,
    }
}

fn contract(symbol: &str) -> ScoredContract {
    ScoredContract {
        symbol: symbol.to_string(),
        expiration_date: "2026-05-15".to_string(),
        dte: 11,
        strike: amount(400.0),
        bid: amount(1.0),
        ask: amount(1.1),
        delta_abs: amount(0.20),
        spread_pct: amount(0.05),
        bid_size: 10,
        ask_size: 10,
        volume: 100,
        open_interest: 1_000,
        implied_volatility: None,
    }
}

fn spread(short: &str, long: &str, score: f64) -> SpreadCandidate {
    SpreadCandidate {
        short: contract(short),
        long: contract(long),
        width: amount(5.0),
        credit: amount(0.5),
        max_loss: amount(4.5),
        return_on_risk: amount(0.1),
        score: amount(score),
    }
}

fn credit() -> SelectedOptionsEntry {
    SelectedOptionsEntry::Credit(SelectedEntry {
        underlying: "SPY".to_string(),
        kind: CreditSpreadKind::Put,
        candidate: spread("SPY260512P00708000", "SPY260512P00705000", 70.0),
    })
}

fn profile(family: AlpacaOptionsStrategyFamily) -> AlpacaOptionsStrategyProfile {
    let scanner = match family {
        AlpacaOptionsStrategyFamily::PutCredit => AlpacaOptionsStrategyScannerConfig::Credit,
        _ => AlpacaOptionsStrategyScannerConfig::IronCondor,
    };
    AlpacaOptionsStrategyProfile {
        id: "core".to_string(),
        family,
        mode: AlpacaOptionsStrategyMode::Live,
        universe_groups: Vec::new(),
        include_underlyings: Vec::new(),
        exclude_underlyings: Vec::new(),
        underlyings: vec!["SPY".to_string(), "QQQ".to_string()],
        quantity: 1,
        scanner,
        risk: AlpacaOptionsStrategyRiskOverrides::default(),
    }
}

#[test]
fn an_entry_with_a_close_waits_for_it() {
    let mut closing = entry();
    closing.close_order_list_id = Some("close-1".to_string());
    closing.last_close_submitted_at_utc = Some("2026-05-04T14:59:00Z".to_string());
    let decide = |status| manage_active_entry(&management(), &closing, &seen(status, 0.1), now()).0;
    assert_eq!(decide(OrderListRuntimeStatus::Filled), ActiveEntryDecision::MarkClosed);
    assert_eq!(decide(OrderListRuntimeStatus::Working), ActiveEntryDecision::Wait);
    assert_eq!(decide(OrderListRuntimeStatus::TerminalWithoutFill), ActiveEntryDecision::ClearClose);
    assert_eq!(decide(OrderListRuntimeStatus::Missing), ActiveEntryDecision::CloseMissing);
    assert_eq!(decide(OrderListRuntimeStatus::Partial), ActiveEntryDecision::ClosePartial);
    closing.last_close_submitted_at_utc = Some("2026-05-04T14:40:00Z".to_string());
    let outcome = manage_active_entry(
        &management(),
        &closing,
        &seen(OrderListRuntimeStatus::Working, 0.1),
        now(),
    );
    assert_eq!(outcome.0, ActiveEntryDecision::CancelClose { age_secs: 1_200 });
}

#[test]
fn a_filled_entry_is_closed_at_its_thresholds() {
    let filled = |debit| {
        manage_active_entry(
            &management(),
            &entry(),
            &seen(OrderListRuntimeStatus::Filled, debit),
            now(),
        )
    };
    assert_eq!(filled(0.25), (ActiveEntryDecision::SubmitLegs, Some("profit_target".to_string())));
    assert_eq!(filled(1.0), (ActiveEntryDecision::SubmitLegs, Some("stop_loss".to_string())));
    assert_eq!(filled(0.5), (ActiveEntryDecision::Hold, None));
    assert_eq!(
        manage_active_entry(
            &management(),
            &entry(),
            &seen(OrderListRuntimeStatus::Working, 0.1),
            now(),
        )
        .0,
        ActiveEntryDecision::CancelEntry { age_secs: 3_600 },
    );
}

#[test]
fn closes_stop_at_every_gate() {
    let decide = |config: &AlpacaOptionsManagementConfig, entry: &StrategyStateEntry, at| {
        manage_active_entry(config, entry, &seen(OrderListRuntimeStatus::Filled, 0.1), at).0
    };
    let mut config = management();
    assert_eq!(
        decide(&config, &entry(), instant("2026-05-04T21:00:00Z")),
        ActiveEntryDecision::OutsideCloseWindow,
    );
    config.close_orders_enabled = false;
    assert_eq!(decide(&config, &entry(), now()), ActiveEntryDecision::CloseOrdersDisabled);
    config = management();
    config.max_close_attempts = 2;
    let mut tried = entry();
    tried.close_attempts = 2;
    assert_eq!(decide(&config, &tried, now()), ActiveEntryDecision::MaxCloseAttempts);
    config.max_close_attempts = 0;
    config.close_reprice_cooldown_secs = 60;
    tried.last_close_submitted_at_utc = Some("2026-05-04T14:59:30Z".to_string());
    assert_eq!(
        decide(&config, &tried, now()),
        ActiveEntryDecision::RepriceCooldown { remaining_secs: 30 },
    );
    config.force_flatten = true;
    assert_eq!(
        decide(&config, &tried, instant("2026-05-04T21:00:00Z")),
        ActiveEntryDecision::SubmitLegs,
    );
    config.close_order_mode = CloseOrderMode::OptionSpread;
    assert_eq!(decide(&config, &tried, now()), ActiveEntryDecision::SubmitSpread);
    let mut stale = seen(OrderListRuntimeStatus::Filled, 0.1);
    stale.has_stale_quote = true;
    assert_eq!(
        manage_active_entry(&config, &tried, &stale, now()).0,
        ActiveEntryDecision::QuoteStale,
    );
    stale.has_stale_quote = false;
    stale.quote = None;
    assert_eq!(
        manage_active_entry(&config, &tried, &stale, now()).0,
        ActiveEntryDecision::QuoteUnavailable,
    );
}

#[test]
fn hold_times_count_alike_for_credits_and_debits() {
    let held = |strategy: &str, max_hold_secs: u64| {
        let mut entry = entry();
        entry.strategy = strategy.to_string();
        entry.debit = Some(amount(1.0));
        entry.recorded_at_utc = "2026-05-04T14:00:00Z".to_string();
        let config = AlpacaOptionsManagementConfig { max_hold_secs, ..management() };
        let levels = if strategy == "put_credit" {
            CloseThresholds { profit_target: amount(-9.0), stop_loss: amount(9.0) }
        } else {
            CloseThresholds { profit_target: amount(9.0), stop_loss: amount(-9.0) }
        };
        close_reason(&config, &entry, amount(0.2), &levels, instant("2026-05-04T15:00:00Z"))
    };
    for strategy in ["put_credit", "call_debit"] {
        assert_eq!(held(strategy, 3_600), Some("max_hold".to_string()));
        assert_eq!(held(strategy, 3_601), None);
        assert_eq!(held(strategy, 0), None);
        assert_eq!(held(strategy, u64::MAX), None);
    }
}

#[test]
fn flattening_closes_whatever_the_price() {
    let mut config = management();
    config.force_flatten = true;
    assert_eq!(
        close_reason(&config, &entry(), amount(0.5), &thresholds(), now()),
        Some("manual_flatten".to_string()),
    );
}

#[test]
fn close_quotes_need_a_price_on_every_leg() {
    let net = NetPrices { spread_credit: amount(-0.2), debit: amount(0.2) };
    let ticks = CloseTicks {
        short_ask: Some(amount(0.3)),
        long_bid: Some(amount(0.1)),
        short_call_ask: None,
        long_call_bid: None,
    };
    assert_eq!(close_quote_from_ticks(&entry(), &ticks, &net).unwrap().debit, amount(0.2));
    let missing = CloseTicks { short_ask: None, ..ticks };
    assert!(close_quote_from_ticks(&entry(), &missing, &net).is_none());
    let mut naked = entry();
    naked.strategy = "naked_put".to_string();
    naked.long_symbol = String::new();
    let quote = close_quote_from_ticks(&naked, &ticks, &net).unwrap();
    assert_eq!(quote.debit, amount(0.3));
    assert_eq!(quote.long_bid, amount(0.0));
}

#[test]
fn management_watches_every_leg_once() {
    assert_eq!(
        management_instrument_ids(&entry()),
        Some(vec![
            "SPY260512P00705000.ALPACA".to_string(),
            "SPY260512P00708000.ALPACA".to_string(),
        ]),
    );
}

#[test]
fn the_engine_looks_up_the_close_before_the_entry() {
    let mut closing = entry();
    assert!(matches!(lookup_for(&closing), OrderLookup::EntryOrder(id) if id == "list-1"));
    closing.close_order_list_id = Some("close-1".to_string());
    assert!(matches!(lookup_for(&closing), OrderLookup::CloseOrder(id) if id == "close-1"));
}

fn engine_config() -> EngineManagementConfig {
    EngineManagementConfig { manage_enabled: true, close_enabled: true, management: management() }
}

#[test]
fn the_engine_steps_through_close_orders() {
    let config = engine_config();
    let step = |order: Option<&AlpacaOrder>| decide_close_order(&config, order, now());
    assert_eq!(step(Some(&order("filled", false))), CloseOrderStep::Filled);
    assert_eq!(step(Some(&order("canceled", false))), CloseOrderStep::Terminal);
    assert_eq!(step(Some(&order("new", true))), CloseOrderStep::StaleCancel);
    assert_eq!(step(None), CloseOrderStep::Missing);
    let mut closing = entry();
    closing.close_order_list_id = Some("close-1".to_string());
    assert!(apply_close_step(
        &mut closing,
        CloseOrderStep::Filled,
        &Some("order-1".to_string()),
        "2026-05-04T15:00:00Z".to_string(),
    ));
    assert!(closing.closed);
    assert_eq!(closing.close_parent_order_id.as_deref(), Some("order-1"));
}

#[test]
fn the_engine_steps_through_entry_orders() {
    let config = engine_config();
    let step = |order: Option<&AlpacaOrder>| decide_entry_order(&config, order, now());
    assert_eq!(step(Some(&order("filled", false))), EntryOrderStep::Evaluate);
    assert_eq!(step(Some(&order("rejected", false))), EntryOrderStep::Terminal);
    assert_eq!(step(None), EntryOrderStep::Missing);
    let mut canceled = entry();
    assert!(apply_entry_step(&mut canceled, EntryOrderStep::Terminal));
    assert!(canceled.canceled);
    assert!(!apply_entry_step(&mut canceled, EntryOrderStep::Working));
}

#[test]
fn the_engine_submits_priced_closes() {
    let config = engine_config();
    let (decision, trigger) =
        decide_close(&config, &entry(), &Some(quote(0.1)), &thresholds(), now());
    assert_eq!(decision, CloseDecision::Submit);
    assert_eq!(trigger.as_deref(), Some("profit_target"));
    let (decision, _) = decide_close(&config, &entry(), &None, &thresholds(), now());
    assert_eq!(decision, CloseDecision::QuoteUnavailable);
    let mut closing = entry();
    assert!(record_close_outcome(
        &mut closing,
        SubmitOutcome { accepted: 2, parent_order_id: Some("venue-1".to_string()) },
        "close-1".to_string(),
        "profit_target".to_string(),
        "2026-05-04T15:00:00Z".to_string(),
    ));
    assert_eq!(closing.close_attempts, 1);
    assert!(!record_close_outcome(
        &mut entry(),
        SubmitOutcome { accepted: 0, parent_order_id: None },
        "close-1".to_string(),
        "profit_target".to_string(),
        "2026-05-04T15:00:00Z".to_string(),
    ));
}

#[test]
fn execution_is_done_when_every_leg_is_answered() {
    let mut tally = ExecutionTally::new();
    assert!(!tally.count(ExecutionNotice::Accepted, 2));
    assert!(!tally.count(ExecutionNotice::Other, 2));
    assert!(tally.count(ExecutionNotice::Rejected(Some("no".to_string())), 2));
    assert_eq!(tally.rejection_reasons, vec!["no"]);
}

#[test]
fn performance_looks_a_day_back_from_the_submission() {
    let text = performance_activity_after_timestamp(&entry(), now()).unwrap();
    assert!(text.starts_with("2026-05-0"));
    let mut ids = TextSet::new();
    add_state_order_id(&Some(" order-1 ".to_string()), &mut ids);
    add_state_order_id(&Some(" ".to_string()), &mut ids);
    add_state_order_id(&None, &mut ids);
    assert_eq!(ids.len(), 1);
}

#[test]
fn flat_entries_are_closed_by_reconciliation_once() {
    let mut held = entry();
    held.underlying = "QQQ".to_string();
    held.short_symbol = "QQQ260512P00400000".to_string();
    held.long_symbol = "QQQ260512P00395000".to_string();
    let mut state = StrategyState { entries: vec![entry(), held] };
    let position = |symbol: &str| AlpacaPosition {
        symbol: Some(symbol.to_string()),
        asset_class: Some("us_option".to_string()),
        qty: None,
        side: None,
    };
    let positions =
        vec![position("QQQ260512P00400000"), position("QQQ260512P00395000"), position("IWM")];
    let statuses = vec![Some("filled".to_string()), None];
    let time = "2026-05-04T15:00:00Z".to_string();
    let report =
        reconcile_strategy_state(&mut state, &positions, &Vec::new(), &statuses, &time);
    assert!(report.changed);
    assert_eq!(report.unmanaged_symbols, vec!["IWM"]);
    assert_eq!(
        report.actions,
        vec![ReconciliationAction::MarkClosed, ReconciliationAction::Keep],
    );
    assert!(state.entries[0].closed);
    assert!(state.entries[1].is_active());
    let again = reconcile_strategy_state(&mut state, &positions, &Vec::new(), &statuses, &time);
    assert!(!again.changed);
}

#[test]
fn quotes_age_in_whole_seconds() {
    let ts = now().secs as u64 * NANOS;
    assert_eq!(quote_age_secs(ts - 31 * NANOS + 1, now()), Some(30));
    assert_eq!(quote_age_secs(ts + NANOS, now()), Some(0));
    let mut quotes: TextMap<u64> = TextMap::new();
    quotes.insert("SPY260512P00708000".to_string(), ts - 40 * NANOS);
    quotes.insert("SPY260512P00705000".to_string(), ts - 5 * NANOS);
    assert_eq!(
        stale_active_risk_quote_symbols(&entry(), &quotes, 30, now()),
        vec!["SPY260512P00708000"],
    );
    assert!(stale_active_risk_quote_symbols(&entry(), &quotes, 0, now()).is_empty());
    assert!(selected_entry_quote_freshness_block(&credit(), &quotes, 30, now()).is_some());
    assert!(selected_entry_quote_freshness_block(&credit(), &quotes, 60, now()).is_none());
}

#[test]
fn subscriptions_change_by_the_difference() {
    let mut book = QuoteSubscriptions::new();
    let state = StrategyState { entries: vec![entry()] };
    let change = book.refresh(&state, TextSet::new());
    assert_eq!(change.subscribe.len(), 2);
    assert!(change.unsubscribe.is_empty());
    assert!(!book.refresh(&state, TextSet::new()).changed);
    let mut candidates = OptionsCandidateSet::new("2026-05-04");
    candidates.consider_candidate(ProfiledOptionsEntry::new(
        AlpacaOptionsCandidateProfile::synthetic(
            "core".to_string(),
            AlpacaOptionsStrategyFamily::PutCredit,
            1,
        ),
        credit(),
    ));
    let spreads = TextSet::from_texts(&vec!["SPY-SPREAD".to_string()]);
    let change =
        book.update_candidates(&candidates, 5, spreads, &StrategyState::default(), TextSet::new());
    assert_eq!(change.subscribe, vec!["SPY-SPREAD"]);
    assert!(book.is_spread("SPY-SPREAD"));
    assert_eq!(book.clear().len(), 3);
    assert_eq!(external_order_claims(&StrategyState::default()), None);
    assert_eq!(external_order_claims(&state).unwrap().len(), 2);
}

#[test]
fn stale_or_worthless_spread_quotes_have_no_close_limit() {
    let seen = |bid: f64, age: u64| {
        Some(ObservedQuote {
            quote: SpreadQuote {
                bid: amount(bid),
                ask: amount(bid + 0.1),
                ts_event: now().secs as u64 * NANOS - age * NANOS,
            },
            mid: amount(bid + 0.05),
            ts_init: 0,
        })
    };
    let price = |observed| price_spread_close(observed, amount(-0.52), amount(0.02), 30, now());
    assert_eq!(price(None).unavailable_reason, Some("spread_quote_missing"));
    assert_eq!(price(seen(-0.5, 31)).unavailable_reason, Some("spread_quote_stale"));
    assert_eq!(price(seen(0.0, 1)).unavailable_reason, Some("spread_quote_zero_bid"));
    let pricing = price(seen(-0.5, 30));
    assert_eq!(pricing.signed_limit_price, Some(amount(-0.52)));
    assert_eq!(pricing.quote_age_secs, Some(30));
}

fn strike(symbol: &str, price: Option<f64>) -> StrikeQuote {
    StrikeQuote {
        symbol: symbol.to_string(),
        strike: amount(400.0),
        bid: amount(1.0),
        ask: amount(1.1),
        bid_size: 5,
        ask_size: 6,
        open_interest: Some(10),
        delta: None,
        implied_volatility: None,
        underlying_price: price.map(amount),
    }
}

fn slice() -> OptionChainSlice {
    OptionChainSlice {
        underlying: "SPY".to_string(),
        expiration_ns: 1_778_803_200 * NANOS,
        calls: vec![strike("SPY260515C00400000", None)],
        puts: vec![strike("SPY260515P00400000", Some(0.0)), strike("SPY260515P00395000", Some(401.5))],
        atm_strike: Some(amount(400.0)),
    }
}

#[test]
fn chain_slices_become_candidate_input() {
    let input = option_chain_candidate_input(&slice());
    assert_eq!(input.expiration_date, "2026-05-15");
    assert_eq!(input.underlying_price, Some(amount(401.5)));
    assert_eq!(input.calls.contract_count(), 1);
    assert_eq!(input.puts.snapshot_count(), 2);
    assert_eq!(input.side_for_credit(CreditSpreadKind::Put).contract_count(), 2);
    assert_eq!(input.side_for_debit(DebitSpreadKind::Call).contract_count(), 1);
    assert_eq!(
        implied_volatility(None, Some(amount(0.2)), None, amount(0.3)),
        Some(amount(0.2)),
    );
}

fn scored(candidates: ScanCandidates) -> ScoredSide {
    let mut scoring: TextMap<usize> = TextMap::new();
    scoring.add_count("spread_too_wide", 2);
    let mut build: TextMap<usize> = TextMap::new();
    build.add_count("spread_too_wide", 1);
    ScoredSide {
        scoreable_count: 2,
        scoring_rejections: scoring,
        build_rejections: build,
        candidates,
    }
}

#[test]
fn chain_scans_report_and_rank_what_they_find() {
    let input = option_chain_candidate_input(&slice());
    let found = ScanCandidates::Credit(
        CreditSpreadKind::Put,
        vec![spread("SPY260515P00400000", "SPY260515P00395000", 70.0)],
    );
    let put = scan_option_chain_side("SPY", &input.puts, scored(found), "no_candidates");
    assert_eq!(put.rejection_counts.count("spread_too_wide"), 3);
    assert_eq!(put.contract_count, 2);
    let call = scan_option_chain_side(
        "SPY",
        &input.calls,
        scored(ScanCandidates::Credit(CreditSpreadKind::Call, Vec::new())),
        "no_candidates",
    );
    let condor = scan_iron_condor_option_chain(
        "SPY",
        &put,
        &call,
        &TextMap::new(),
        vec![IronCondorCandidate {
            put: spread("SPY260515P00400000", "SPY260515P00395000", 70.0),
            call: spread("SPY260515C00500000", "SPY260515C00505000", 70.0),
            credit: amount(1.0),
            return_on_risk: amount(0.2),
            score: amount(75.0),
        }],
        "no_candidates",
    );
    assert_eq!(condor.contract_count, 3);
    assert_eq!(condor.rejection_counts.count("spread_too_wide"), 6);
    let naked = scan_naked_option_chain(
        &input,
        NakedOptionKind::Put,
        scored(ScanCandidates::Naked(NakedOptionKind::Put, Vec::new())),
        "no_candidates",
    );
    let profile = AlpacaOptionsCandidateProfile::synthetic(
        "chain".to_string(),
        AlpacaOptionsStrategyFamily::PutCredit,
        1,
    );
    let set =
        scan_option_chain_opportunities("2026-05-04", &profile, vec![put, call, condor, naked]);
    assert_eq!(set.scans.len(), 4);
    assert_eq!(set.scans[1].outcome, OptionsScanOutcome::NoCandidate);
    assert_eq!(set.scans[1].reason.as_deref(), Some("no_candidates"));
    assert_eq!(set.selected_entry().unwrap().strategy_name(), "iron_condor");
}

#[test]
fn chain_scans_run_in_a_fixed_order() {
    let config = OptionChainOpportunityScanConfig {
        spread_kinds: vec![CreditSpreadKind::Call],
        iron_condor_enabled: true,
        debit_kinds: vec![DebitSpreadKind::Put],
        naked_kinds: vec![NakedOptionKind::Put],
        quantity: 1,
    };
    let names: Vec<&str> =
        option_chain_scans(&config).into_iter().map(ScanRequest::strategy_name).collect();
    assert_eq!(names, vec!["call_credit", "iron_condor", "put_debit", "naked_put"]);
    assert_eq!(*naked_scanner_for(NakedOptionKind::PutOneToThreeDte, &1, &2), 1);
    assert_eq!(*naked_scanner_for(NakedOptionKind::Call, &1, &2), 2);
}

#[test]
fn early_timestamps_scan_for_today() {
    assert_eq!(
        scan_date_from_timestamp(0, now()),
        CalendarDate { year: 2026, month: 5, day: 4 },
    );
    assert_eq!(
        scan_date_from_timestamp(1_778_803_200 * NANOS, now()),
        CalendarDate { year: 2026, month: 5, day: 15 },
    );
}

#[test]
fn a_series_is_subscribed_once() {
    let series = OptionSeries {
        id: "SPY-20260515".to_string(),
        venue: "ALPACA".to_string(),
        underlying: "SPY".to_string(),
        settlement_currency: "USD".to_string(),
        expiration_ns: 7,
    };
    let mut instrument = SeriesInstrument {
        venue: "ALPACA".to_string(),
        underlying: Some("SPY".to_string()),
        settlement_currency: "USD".to_string(),
        expiration_ns: Some(7),
        has_strike_price: true,
        has_option_kind: true,
    };
    assert!(instrument_belongs_to_series(&instrument, &series));
    let mut subscribed = TextSet::new();
    let all = vec![series.clone()];
    assert_eq!(subscribe_for_instrument(&all, &instrument, &mut subscribed), vec![0]);
    assert!(subscribe_for_instrument(&all, &instrument, &mut subscribed).is_empty());
    instrument.expiration_ns = Some(8);
    assert!(!instrument_belongs_to_series(&instrument, &series));
}

#[test]
fn profiles_are_scanned_underlying_by_underlying() {
    let profiles = vec![
        profile(AlpacaOptionsStrategyFamily::PutCredit),
        profile(AlpacaOptionsStrategyFamily::IronCondor),
    ];
    let tasks = scan_tasks(&profiles);
    assert_eq!(tasks.len(), 4);
    assert_eq!(tasks[1].underlying, 1);
    assert!(matches!(tasks[2].request, ScanRequest::IronCondor));
    let results = tasks
        .iter()
        .map(|task| ScanResult {
            underlying: profiles[task.profile].underlyings[task.underlying].clone(),
            contract_count: 1,
            snapshot_count: 1,
            scoreable_count: 1,
            rejection_counts: TextMap::new(),
            candidates: match task.request {
                ScanRequest::Credit(kind) => ScanCandidates::Credit(
                    kind,
                    vec![spread("SPY260515P00400000", "SPY260515P00395000", 70.0)],
                ),
                _ => ScanCandidates::IronCondor(Vec::new()),
            },
            no_candidate_reason: "no_contracts".to_string(),
        })
        .collect();
    let set = scan_options_candidates("2026-05-04", &profiles, &tasks, results);
    assert_eq!(set.scans.len(), 4);
    assert_eq!(set.ranked_entries().len(), 2);
    assert_eq!(set.selected_entry().unwrap().underlying(), "SPY");
    assert_eq!(set.scans[3].reason.as_deref(), Some("no_contracts"));
}
