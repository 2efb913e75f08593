//! Orders, plans and the account strategy.
use alpaca_options::account_strategy::close_order_list_id;
use alpaca_options::account_strategy::entry_order_list_id;
use alpaca_options::account_strategy::AlpacaOptionsAccountStrategy;
use alpaca_options::account_strategy::AlpacaOptionsAccountStrategyConfig;
use alpaca_options::account_strategy::CandidateOutcome;
use alpaca_options::account_strategy::CandidateSubmission;
use alpaca_options::account_strategy::SpreadCloseOutcome;
use alpaca_options::active_entry::order_belongs_to_list;
use alpaca_options::active_entry::order_list_status;
use alpaca_options::active_entry::ActiveEntryDecision;
use alpaca_options::active_entry::CachedOrder;
use alpaca_options::active_entry::OrderListRuntimeStatus;
use alpaca_options::admission::RiskCapitalFigures;
use alpaca_options::amount::Amount;
use alpaca_options::amount::Figure;
use alpaca_options::broker_view::entry_admission_snapshot;
use alpaca_options::broker_view::open_broker_order_group_count;
use alpaca_options::broker_view::BrokerView;
use alpaca_options::broker_view::HeldInstrument;
use alpaca_options::broker_view::WorkingOrder;
use alpaca_options::calendar::UtcInstant;
use alpaca_options::candidate_set::AlpacaOptionsCandidateProfile;
use alpaca_options::candidate_set::OptionsCandidateSet;
use alpaca_options::candidate_set::ProfiledOptionsEntry;
use alpaca_options::candidates::CreditSpreadKind;
use alpaca_options::candidates::DebitSpreadCandidate;
use alpaca_options::candidates::DebitSpreadKind;
use alpaca_options::candidates::IronCondorCandidate;
use alpaca_options::candidates::NakedOptionCandidate;
use alpaca_options::candidates::NakedOptionKind;
use alpaca_options::candidates::ScoredContract;
use alpaca_options::candidates::SpreadCandidate;
use alpaca_options::entry::EntryPremiumKind;
use alpaca_options::entry::SelectedDebitEntry;
use alpaca_options::entry::SelectedEntry;
use alpaca_options::entry::SelectedIronCondorEntry;
use alpaca_options::entry::SelectedNakedOptionEntry;
use alpaca_options::entry::SelectedOptionsEntry;
use alpaca_options::entry_strategy::AlpacaOptionsEntryStrategy;
use alpaca_options::entry_strategy::AlpacaOptionsEntryStrategyConfig;
use alpaca_options::entry_strategy::OpportunityOutcome;
use alpaca_options::json::Json;
use alpaca_options::management::CloseQuote;
use alpaca_options::orders::build_close_entry_orders;
use alpaca_options::orders::build_selected_entry_orders;
use alpaca_options::orders::build_vertical_spread_close_order;
use alpaca_options::orders::build_vertical_spread_entry_order;
use alpaca_options::orders::order_submission;
use alpaca_options::orders::submit_orders;
use alpaca_options::orders::OptionSpreadLeg;
use alpaca_options::orders::OptionSpreadPlan;
use alpaca_options::orders::OrderErrorKind;
use alpaca_options::orders::OrderSubmission;
use alpaca_options::payloads::OrderAcceptance;
use alpaca_options::payloads::OrderRefusal;
use alpaca_options::planner::plan_profiled_selected_entry;
use alpaca_options::planner::plan_selected_candidate;
use alpaca_options::planner::plan_selected_entry;
use alpaca_options::planner::planned_order_legs;
use alpaca_options::planner::AlpacaOptionsEntryFamily;
use alpaca_options::planner::AlpacaOptionsPlanSide;
use alpaca_options::profile::AlpacaOptionsStrategyFamily;
use alpaca_options::state::SpreadRecord;
use alpaca_options::state::StrategyState;
use alpaca_options::state::StrategyStateEntry;
use alpaca_options::text_map::TextMap;

const NOW: UtcInstant = UtcInstant { secs: 1_777_903_200, nanos: 0 };

fn amount(value: f64) -> Amount {
    Amount { bits: value.to_bits() }
}

fn figure(value: f64) -> Figure {
    Figure { amount: amount(value), text: format!("{value:.2}") }
}

fn contract(symbol: &str, bid: f64, ask: f64) -> ScoredContract {
    ScoredContract {
        symbol: symbol.to_string(),
        expiration_date: "2026-05-15".to_string(),
        dte: 11,
        strike: amount(400.0),
        bid: amount(bid),
        ask: amount(ask),
        delta_abs: amount(0.20),
        spread_pct: amount(0.05),
        bid_size: 10,
        ask_size: 10,
        volume: 100,
        open_interest: 1_000,
        implied_volatility: None,
    }
}

fn spread(short: &str, long: &str, score: f64) -> SpreadCandidate {
    SpreadCandidate {
        short: contract(short, 1.0, 1.1),
        long: contract(long, 0.4, 0.5),
        width: amount(5.0),
        credit: amount(0.5),
        max_loss: amount(4.5),
        return_on_risk: amount(0.1),
        score: amount(score),
    }
}

fn credit(score: f64) -> SelectedOptionsEntry {
    SelectedOptionsEntry::Credit(SelectedEntry {
        underlying: "SPY".to_string(),
        kind: CreditSpreadKind::Put,
        candidate: spread("SPY260515P00400000", "SPY260515P00395000", score),
    })
}

fn condor() -> SelectedOptionsEntry {
    SelectedOptionsEntry::IronCondor(SelectedIronCondorEntry {
        underlying: "SPY".to_string(),
        candidate: IronCondorCandidate {
            put: spread("SPY260515P00400000", "SPY260515P00395000", 60.0),
            call: spread("SPY260515C00500000", "SPY260515C00505000", 60.0),
            credit: amount(1.0),
            return_on_risk: amount(0.2),
            score: amount(80.0),
        },
    })
}

fn debit() -> SelectedOptionsEntry {
    SelectedOptionsEntry::Debit(SelectedDebitEntry {
        underlying: "QQQ".to_string(),
        kind: DebitSpreadKind::Call,
        candidate: DebitSpreadCandidate {
            long: contract("QQQ260515C00400000", 1.0, 1.1),
            short: contract("QQQ260515C00405000", 0.4, 0.5),
            debit: amount(0.7),
            reward_to_risk: amount(6.0),
            score: amount(65.0),
        },
    })
}

fn naked() -> SelectedOptionsEntry {
    SelectedOptionsEntry::NakedOption(SelectedNakedOptionEntry {
        underlying: "IWM".to_string(),
        kind: NakedOptionKind::Put,
        candidate: NakedOptionCandidate {
            short: contract("IWM260515P00200000", 0.7, 0.9),
            credit: amount(0.7),
            capital_requirement_model: None,
            estimated_buying_power_requirement: amount(20_000.0),
            buying_power_usage_pct: None,
            return_on_buying_power: amount(0.001),
            score: amount(72.0),
        },
    })
}

fn profiled(entry: SelectedOptionsEntry, family: AlpacaOptionsStrategyFamily) -> ProfiledOptionsEntry {
    ProfiledOptionsEntry::new(
        AlpacaOptionsCandidateProfile::synthetic("core".to_string(), family, 1),
        entry,
    )
}

fn candidates(entries: Vec<(SelectedOptionsEntry, AlpacaOptionsStrategyFamily)>) -> OptionsCandidateSet {
    let mut set = OptionsCandidateSet::new("2026-05-04");
    for (entry, family) in entries {
        set.consider_candidate(profiled(entry, family));
    }
    set
}

fn submission(candidates: OptionsCandidateSet) -> CandidateSubmission {
    CandidateSubmission {
        candidates,
        regime_dry_run_only: false,
        order_list_id: "list-1".to_string(),
        submitted_at_utc: "2026-05-04T14:00:00Z".to_string(),
        now: NOW,
        quote_times: TextMap::new(),
        candidate_ledger_ready: true,
        state_persistence_ready: true,
        broker: BrokerView { positions: Vec::new(), orders: Vec::new() },
        figures: RiskCapitalFigures {
            candidate: Some(figure(450.0)),
            active_known: figure(0.0),
            projected: figure(450.0),
        },
        spread: SpreadRecord {
            instrument_id: Some("SPY-SPREAD.ALPACA".to_string()),
            raw_symbol: Some("SPY-SPREAD".to_string()),
            legs: plan().legs,
            entry_pricing_source: Some("nautilus_spread_quote".to_string()),
        },
    }
}

fn accepted(client_order_id: &str, venue_order_id: &str) -> OrderAcceptance {
    OrderAcceptance {
        event_id: format!("accepted-{client_order_id}"),
        client_order_id: client_order_id.to_string(),
        venue_order_id: venue_order_id.to_string(),
        instrument_id: "SPY-SPREAD.ALPACA".to_string(),
        account_id: "ALPACA-001".to_string(),
        reconciliation: 0,
        ts_event: 1_777_903_202_000_000_005,
    }
}

fn refused(event_type: &'static str, client_order_id: &str, reason: &str) -> OrderRefusal {
    OrderRefusal {
        event_id: format!("refused-{client_order_id}"),
        event_type,
        client_order_id: client_order_id.to_string(),
        reason: reason.to_string(),
        ts_event: 1_777_903_202_000_000_005,
    }
}

fn strategy() -> AlpacaOptionsAccountStrategy {
    AlpacaOptionsAccountStrategy::new(
        AlpacaOptionsAccountStrategyConfig::new(1),
        StrategyState::default(),
    )
}

fn put_credit() -> OptionsCandidateSet {
    candidates(vec![(credit(70.0), AlpacaOptionsStrategyFamily::PutCredit)])
}

fn submitted(strategy: &mut AlpacaOptionsAccountStrategy) -> Vec<String> {
    match strategy.submit_candidate_data(&submission(put_credit())) {
        CandidateOutcome::Submit(orders) => {
            orders.iter().map(|order| order.client_order_id.clone()).collect()
        }
        other => panic!("expected a submission, got {other:?}"),
    }
}

fn quote() -> CloseQuote {
    CloseQuote {
        short_ask: amount(0.3),
        long_bid: amount(0.1),
        short_call_ask: Some(amount(0.2)),
        long_call_bid: Some(amount(0.05)),
        debit: amount(0.2),
    }
}

fn recorded(entry: &SelectedOptionsEntry) -> StrategyStateEntry {
    let mut state = StrategyState::default();
    let draft = entry.state_entry_draft(
        "2026-05-04",
        "list-1",
        2,
        Some("2026-05-04T14:00:00Z".to_string()),
        Some("parent-1".to_string()),
    );
    state.record_entry_submission(draft, "2026-05-04T14:00:01Z".to_string());
    state.entries.remove(0)
}

fn plan() -> OptionSpreadPlan {
    OptionSpreadPlan {
        instrument_id: "SPY-SPREAD.ALPACA".to_string(),
        raw_symbol: "SPY-SPREAD".to_string(),
        underlying: "SPY".to_string(),
        strategy: "put_credit".to_string(),
        legs: vec![
            OptionSpreadLeg {
                symbol: "SPY260515P00400000".to_string(),
                instrument_id: "SPY260515P00400000.ALPACA".to_string(),
                ratio: -1,
            },
            OptionSpreadLeg {
                symbol: "SPY260515P00395000".to_string(),
                instrument_id: "SPY260515P00395000.ALPACA".to_string(),
                ratio: 1,
            },
        ],
        scanner_premium_kind: EntryPremiumKind::Credit,
        scanner_premium: amount(0.5),
    }
}

#[test]
fn orders_follow_the_planned_legs() {
    for entry in [credit(70.0), condor(), debit(), naked()] {
        let legs = planned_order_legs(&entry);
        let orders = build_selected_entry_orders(&entry, "list-1", 1).unwrap();
        assert_eq!(legs.len(), orders.len());
        for (leg, order) in legs.iter().zip(&orders) {
            assert_eq!(leg.side, order.side);
            assert_eq!(format!("{}.ALPACA", leg.symbol), order.instrument_id);
            assert!(!order.reduce_only);
        }
    }
}

#[test]
fn sold_legs_are_priced_at_the_bid_and_bought_legs_at_the_ask() {
    let orders = build_selected_entry_orders(&credit(70.0), "list-1", 1).unwrap();
    assert_eq!(orders[0].client_order_id, "list-1-short");
    assert_eq!(orders[0].limit_price, amount(1.0));
    assert_eq!(orders[1].client_order_id, "list-1-long");
    assert_eq!(orders[1].limit_price, amount(0.5));
}

#[test]
fn closing_orders_undo_the_opening_ones() {
    let entry = condor();
    let opens = build_selected_entry_orders(&entry, "list-1", 2).unwrap();
    let closes = build_close_entry_orders(&recorded(&entry), &quote(), "close-1").unwrap();
    assert_eq!(opens.len(), closes.len());
    for (open, close) in opens.iter().zip(&closes) {
        assert_eq!(open.instrument_id, close.instrument_id);
        assert_ne!(open.side, close.side);
        assert_eq!(open.quantity, close.quantity);
        assert!(close.reduce_only);
    }
    assert_eq!(closes[2].client_order_id, "close-1-short-call-close");
}

#[test]
fn orders_need_a_quantity_a_price_and_a_symbol() {
    let error = build_selected_entry_orders(&credit(70.0), "list-1", 0).unwrap_err();
    assert_eq!(error.kind, OrderErrorKind::EntryQuantity);
    assert_eq!(error.message(), "quantity must be positive");

    let mut entry = recorded(&credit(70.0));
    entry.quantity = 0;
    let error = build_close_entry_orders(&entry, &quote(), "close-1").unwrap_err();
    assert_eq!(error.kind, OrderErrorKind::LegQuantity);
    assert_eq!(error.message(), "order close-1-short-close quantity must be positive");

    let mut free = quote();
    free.short_ask = amount(0.0);
    let error = build_close_entry_orders(&recorded(&credit(70.0)), &free, "close-1").unwrap_err();
    assert_eq!(error.kind, OrderErrorKind::LegPrice);
    assert_eq!(error.message(), "order close-1-short-close limit price must be positive");

    let mut entry = recorded(&credit(70.0));
    entry.short_symbol = " ".to_string();
    let error = build_close_entry_orders(&entry, &quote(), "close-1").unwrap_err();
    assert_eq!(error.kind, OrderErrorKind::LegSymbol);
}

#[test]
fn spread_orders_need_two_legs_and_a_price() {
    let order = build_vertical_spread_entry_order(&plan(), "list-1", 1, amount(-0.5)).unwrap();
    assert_eq!(order.client_order_id, "list-1-spread");
    assert_eq!(order.order_list_id.as_deref(), Some("list-1"));
    assert_eq!(order.side, AlpacaOptionsPlanSide::Buy);
    let order = build_vertical_spread_close_order(&plan(), "close-1", 1, amount(-0.2)).unwrap();
    assert_eq!(order.client_order_id, "close-1-spread-close");
    assert_eq!(order.side, AlpacaOptionsPlanSide::Sell);
    assert!(order.reduce_only);

    let error = build_vertical_spread_entry_order(&plan(), "list-1", 0, amount(-0.5)).unwrap_err();
    assert_eq!(error.message(), "spread order list-1 quantity must be positive");
    let error = build_vertical_spread_close_order(&plan(), "close-1", 1, amount(0.0)).unwrap_err();
    assert_eq!(
        error.message(),
        "spread close order close-1 signed limit price must be non-zero",
    );
    let mut wide = plan();
    wide.legs.push(wide.legs[0].clone());
    let error = build_vertical_spread_entry_order(&wide, "list-1", 1, amount(-0.5)).unwrap_err();
    assert_eq!(
        error.message(),
        "spread order list-1 only supports two-leg vertical drafts, got 3 legs",
    );
}

#[test]
fn several_orders_go_out_as_a_list() {
    let orders = build_selected_entry_orders(&credit(70.0), "list-1", 1).unwrap();
    match order_submission(orders, "list-1") {
        OrderSubmission::List(orders) => {
            assert!(orders.iter().all(|order| order.order_list_id.as_deref() == Some("list-1")));
        }
        OrderSubmission::Single(_) => panic!("two orders are no single order"),
    }
    let orders = build_selected_entry_orders(&naked(), "list-1", 1).unwrap();
    assert!(matches!(order_submission(orders, "list-1"), OrderSubmission::Single(_)));
    let error = submit_orders(Vec::new(), "list-1").unwrap_err();
    assert_eq!(error.kind, OrderErrorKind::EmptyOrderSet);
}

#[test]
fn plans_name_the_family_of_the_entry() {
    let cases = [
        (credit(70.0), AlpacaOptionsEntryFamily::PutCredit, true),
        (condor(), AlpacaOptionsEntryFamily::IronCondor, false),
        (debit(), AlpacaOptionsEntryFamily::CallDebit, true),
        (naked(), AlpacaOptionsEntryFamily::NakedPut, false),
    ];
    for (entry, family, vertical) in cases {
        let strategy = entry.strategy_name();
        let plan = plan_selected_entry(entry).unwrap();
        assert_eq!(plan.family, family);
        assert_eq!(plan.family.as_str(), strategy);
        assert_eq!(plan.is_vertical_spread(), vertical);
        assert!(plan.profile.is_none());
    }
    let plan = plan_profiled_selected_entry(profiled(
        credit(70.0),
        AlpacaOptionsStrategyFamily::PutCredit,
    ))
    .unwrap();
    assert_eq!(plan.profile.unwrap().id, "core");
}

#[test]
fn the_highest_score_is_selected_and_the_first_of_equals() {
    let set = candidates(vec![
        (debit(), AlpacaOptionsStrategyFamily::CallDebit),
        (condor(), AlpacaOptionsStrategyFamily::IronCondor),
        (credit(80.0), AlpacaOptionsStrategyFamily::PutCredit),
    ]);
    let scores: Vec<f64> =
        set.ranked_entries().iter().map(|entry| f64::from_bits(entry.score().bits)).collect();
    assert_eq!(scores, vec![80.0, 80.0, 65.0]);
    assert_eq!(set.selected_entry().unwrap().strategy_name(), "iron_condor");
    assert_eq!(plan_selected_candidate(&set).unwrap().strategy, "iron_condor");
    assert!(plan_selected_candidate(&OptionsCandidateSet::new("2026-05-04")).is_none());
}

#[test]
fn an_accepted_submission_is_recorded_once() {
    let mut strategy = strategy();
    let ids = submitted(&mut strategy);
    assert_eq!(ids.len(), 2);
    let mutation = strategy
        .handle_order_accepted(&accepted(&ids[0], "venue-1"), "2026-05-04T14:00:02Z".to_string())
        .unwrap();
    assert_eq!(mutation.event_type, "entry_accepted");
    assert_eq!(mutation.order_list_id, "list-1");
    assert_eq!(mutation.event_id, Some(format!("accepted-{}", ids[0])));
    assert_eq!(mutation.ts_event, UtcInstant { secs: 1_777_903_202, nanos: 5 });
    assert_eq!(mutation.payload.get_str("account_id"), Some("ALPACA-001"));
    let told = mutation.payload.get("entry").unwrap();
    assert_eq!(told.get_str("parent_order_id"), Some("venue-1"));
    assert_eq!(told.get_str("spread_raw_symbol"), Some("SPY-SPREAD"));
    assert_eq!(told.get_list("spread_legs").unwrap().len(), plan().legs.len());
    let kept = &strategy.state.entries[0];
    assert_eq!(kept.spread_instrument_id.as_deref(), Some("SPY-SPREAD.ALPACA"));
    assert_eq!(kept.spread_legs.len(), plan().legs.len());
    assert_eq!(kept.entry_pricing_source.as_deref(), Some("nautilus_spread_quote"));
    assert_eq!(strategy.state.entries.len(), 1);
    assert_eq!(strategy.state.entries[0].parent_order_id.as_deref(), Some("venue-1"));
    let second = strategy.handle_order_accepted(
        &accepted(&ids[1], "venue-2"),
        "2026-05-04T14:00:03Z".to_string(),
    );
    assert!(second.is_none());
    assert_eq!(strategy.state.entries.len(), 1);
    assert!(strategy.pending_entries.submissions.is_empty());
}

#[test]
fn a_second_submission_on_the_same_key_is_passed_over() {
    let mut strategy = strategy();
    submitted(&mut strategy);
    match strategy.submit_candidate_data(&submission(put_credit())) {
        CandidateOutcome::Skipped(reason) => assert_eq!(reason, "duplicate_pending_submission"),
        other => panic!("expected a repetition, got {other:?}"),
    }
    strategy.abandon_submission("2026-05-04", &credit(70.0), "list-1");
    assert_eq!(submitted(&mut strategy).len(), 2);
}

#[test]
fn an_outright_rejection_for_permission_blocks_naked_options() {
    let mut strategy = strategy();
    let naked_set =
        candidates(vec![(naked(), AlpacaOptionsStrategyFamily::NakedPut)]);
    let orders = match strategy.submit_candidate_data(&submission(naked_set.clone())) {
        CandidateOutcome::Submit(orders) => orders,
        other => panic!("expected a submission, got {other:?}"),
    };
    let reason = "40310000: account not eligible to trade uncovered option contracts";
    let outcome = strategy.handle_order_rejected(
        &refused("entry_denied", &orders[0].client_order_id, reason),
        "2026-05-04T14:00:02Z".to_string(),
    );
    assert!(outcome.known);
    let mutation = outcome.mutation.unwrap();
    assert_eq!(mutation.event_type, "entry_denied");
    assert_eq!(mutation.payload.get_str("reason"), Some(reason));
    assert_eq!(
        mutation.payload.get_str("close_reason"),
        strategy.state.entries[0].close_reason.as_deref(),
    );
    assert!(mutation.venue_order_id.is_none());
    assert!(outcome.alert.unwrap().terminal_rejection_recorded);
    assert!(strategy.state.entries[0].canceled);
    match strategy.submit_candidate_data(&submission(naked_set)) {
        CandidateOutcome::Blocked(block) => {
            assert_eq!(block.reason, "broker_uncovered_option_permission");
        }
        other => panic!("expected a block, got {other:?}"),
    }
}

#[test]
fn candidates_stop_at_the_account_gates() {
    let mut strategy = strategy();
    strategy.config.admission.kill_switch = true;
    match strategy.submit_candidate_data(&submission(put_credit())) {
        CandidateOutcome::Skipped(reason) => assert_eq!(reason, "kill_switch_enabled"),
        other => panic!("expected a skip, got {other:?}"),
    }
    strategy.config.admission.kill_switch = false;
    let mut dry = submission(put_credit());
    dry.regime_dry_run_only = true;
    match strategy.submit_candidate_data(&dry) {
        CandidateOutcome::DryRun(reason) => assert_eq!(reason, "regime_dry_run_only"),
        other => panic!("expected a dry run, got {other:?}"),
    }
    let mut unready = submission(put_credit());
    unready.state_persistence_ready = false;
    match strategy.submit_candidate_data(&unready) {
        CandidateOutcome::Skipped(reason) => assert_eq!(reason, "state_persistence_unhealthy"),
        other => panic!("expected a skip, got {other:?}"),
    }
    assert!(matches!(
        strategy.submit_candidate_data(&submission(OptionsCandidateSet::new("2026-05-04"))),
        CandidateOutcome::NoCandidate,
    ));
}

#[test]
fn failed_candidates_name_what_is_wrong() {
    let fail = |strategy: &mut AlpacaOptionsAccountStrategy, entry: SelectedOptionsEntry| {
        let set = candidates(vec![(entry, AlpacaOptionsStrategyFamily::PutCredit)]);
        match strategy.submit_candidate_data(&submission(set)) {
            CandidateOutcome::Failed(error) => error,
            other => panic!("expected a failure, got {other:?}"),
        }
    };
    let mut none = strategy();
    none.config.quantity = 0;
    let error = fail(&mut none, credit(70.0));
    assert_eq!(error.kind, OrderErrorKind::EntryQuantity);
    assert_eq!(error.subject, "");

    let mut unpriced = credit(70.0);
    let mut hidden = credit(70.0);
    if let SelectedOptionsEntry::Credit(selected) = &mut unpriced {
        selected.candidate.long.ask = amount(0.0);
    }
    if let SelectedOptionsEntry::Credit(selected) = &mut hidden {
        selected.candidate.long.symbol = " ".to_string();
        selected.candidate.short.bid = amount(0.0);
    }
    let error = fail(&mut strategy(), unpriced);
    assert_eq!(error.kind, OrderErrorKind::LegPrice);
    assert_eq!(error.subject, "list-1-long");
    let error = fail(&mut strategy(), hidden);
    assert_eq!(error.kind, OrderErrorKind::LegSymbol);
    assert_eq!(error.subject, " ");
}

#[test]
fn a_close_is_recorded_filled_and_marks_the_entry_closed() {
    let mut strategy = strategy();
    let entry = recorded(&credit(70.0));
    strategy.state.entries.push(entry.clone());
    let orders = strategy.submit_close_entry(&entry, &quote(), "stop_loss", "close-1").unwrap();
    assert_eq!(orders.len(), 2);
    let mutation = strategy
        .handle_order_accepted(
            &accepted(&orders[0].client_order_id, "venue-9"),
            "2026-05-04T15:00:00Z".to_string(),
        )
        .unwrap();
    assert_eq!(mutation.event_type, "close_accepted");
    assert_eq!(mutation.payload.get_str("close_parent_order_id"), Some("venue-9"));
    assert_eq!(mutation.payload.get_str("close_reason"), Some("stop_loss"));
    assert_eq!(mutation.payload.get("entry").unwrap().get_number("close_attempts"), Some(1));
    assert_eq!(strategy.state.entries[0].close_attempts, 1);
    assert_eq!(strategy.state.entries[0].close_reason.as_deref(), Some("stop_loss"));
    let (known, mutation) = strategy.handle_close_order_filled(
        &orders[1].client_order_id,
        &None,
        OrderListRuntimeStatus::Filled,
        "venue-9".to_string(),
        "2026-05-04T15:00:05Z".to_string(),
        NOW,
    );
    assert!(known);
    let mutation = mutation.unwrap();
    assert_eq!(mutation.event_type, "entry_closed");
    assert_eq!(mutation.payload.get_str("close_order_list_id"), Some("close-1"));
    assert_eq!(mutation.payload.get_str("close_parent_order_id"), Some("venue-9"));
    assert!(strategy.state.entries[0].closed);
    assert!(!strategy.state.entries[0].is_active());
}

#[test]
fn a_canceled_close_is_forgotten() {
    let mut strategy = strategy();
    let entry = recorded(&credit(70.0));
    strategy.state.entries.push(entry.clone());
    let orders = strategy.submit_close_entry(&entry, &quote(), "stop_loss", "close-1").unwrap();
    strategy.handle_order_accepted(
        &accepted(&orders[0].client_order_id, "venue-9"),
        "2026-05-04T15:00:00Z".to_string(),
    );
    let (known, mutation) = strategy.handle_close_order_canceled(
        &orders[0].client_order_id,
        &None,
        OrderListRuntimeStatus::TerminalWithoutFill,
        NOW,
    );
    assert!(known);
    let mutation = mutation.unwrap();
    assert_eq!(mutation.event_type, "close_cleared");
    assert_eq!(mutation.order_list_id, "close-1");
    assert_eq!(mutation.payload.get_str("reason"), Some("close_canceled"));
    assert_eq!(mutation.payload.get_str("order_list_id"), Some("list-1"));
    assert_eq!(mutation.payload.get_str("close_order_list_id"), Some("close-1"));
    assert_eq!(mutation.ts_event, NOW);
    assert!(strategy.state.entries[0].close_order_list_id.is_none());
    assert!(strategy.state.entries[0].is_active());
}

#[test]
fn a_canceled_entry_is_told_with_its_reason() {
    let mut strategy = strategy();
    strategy.state.entries.push(recorded(&credit(70.0)));
    let cached = Some("list-1".to_string());
    let (known, mutation) = strategy.handle_entry_order_canceled(
        "list-1-short",
        &cached,
        OrderListRuntimeStatus::Working,
        NOW,
    );
    assert!(known && mutation.is_none());
    let (known, mutation) = strategy.handle_entry_order_canceled(
        "list-1-short",
        &cached,
        OrderListRuntimeStatus::TerminalWithoutFill,
        NOW,
    );
    assert!(known);
    let mutation = mutation.unwrap();
    assert_eq!(mutation.event_type, "entry_canceled");
    assert_eq!(mutation.order_list_id, "list-1");
    assert_eq!(mutation.payload.get_str("reason"), Some("entry_canceled"));
    assert!(matches!(
        mutation.payload.get("entry").unwrap().get("canceled"),
        Some(Json::Bool(true)),
    ));
    assert!(strategy.state.entries[0].canceled);
    assert!(strategy.mark_entry_canceled("list-1", "entry_canceled", NOW).is_none());
    assert!(strategy.mark_entry_canceled("list-2", "entry_canceled", NOW).is_none());
}

#[test]
fn an_entry_closes_once() {
    let mut strategy = strategy();
    strategy.state.entries.push(recorded(&credit(70.0)));
    let mut close = |now: &str| {
        strategy.mark_entry_closed("list-1", "close-1", None, now.to_string(), NOW)
    };
    let change = close("2026-05-04T15:00:00Z").unwrap();
    match &change.payload {
        Json::Object(fields) => {
            let (name, entry) = fields.last().unwrap();
            assert_eq!(name, "entry");
            assert_eq!(entry.get_str("closed_at_utc"), Some("2026-05-04T15:00:00Z"));
        }
        other => panic!("expected an object, got {other:?}"),
    }
    assert!(close("2026-05-04T15:00:09Z").is_none());
    assert_eq!(
        strategy.state.entries[0].closed_at_utc.as_deref(),
        Some("2026-05-04T15:00:00Z"),
    );
}

#[test]
fn settled_orders_change_the_entry() {
    let now = || "2026-05-04T15:00:00Z".to_string();
    let settle = |decision: ActiveEntryDecision| {
        let mut strategy = strategy();
        strategy.state.entries.push(recorded(&credit(70.0)));
        strategy.state.entries[0].close_order_list_id = Some("close-1".to_string());
        let mutation = strategy.settle_active_entry("list-1", "close-1", decision, now(), NOW);
        (strategy.state.entries.remove(0), mutation)
    };
    let (entry, mutation) = settle(ActiveEntryDecision::MarkClosed);
    assert!(entry.closed);
    assert_eq!(mutation.unwrap().event_type, "entry_closed");
    let (entry, mutation) = settle(ActiveEntryDecision::MarkCanceled);
    assert!(entry.canceled);
    assert_eq!(
        mutation.unwrap().payload.get_str("reason"),
        Some("entry_terminal_without_fill"),
    );
    let (entry, mutation) = settle(ActiveEntryDecision::ClearClose);
    assert!(entry.close_order_list_id.is_none());
    assert_eq!(
        mutation.unwrap().payload.get_str("reason"),
        Some("close_terminal_without_fill"),
    );
    let (entry, mutation) = settle(ActiveEntryDecision::Hold);
    assert!(entry.is_active() && mutation.is_none());
}

#[test]
fn spread_closes_need_a_vertical_plan_and_a_price() {
    let mut strategy = strategy();
    let entry = recorded(&credit(70.0));
    strategy.state.entries.push(entry.clone());
    assert!(matches!(
        strategy.submit_spread_close_entry(&entry, &None, None, amount(-0.2), "stop", "close-1"),
        SpreadCloseOutcome::NotVertical,
    ));
    assert!(matches!(
        strategy.submit_spread_close_entry(
            &entry,
            &Some(plan()),
            Some("spread_quote_stale"),
            amount(-0.2),
            "stop",
            "close-1",
        ),
        SpreadCloseOutcome::Unavailable("spread_quote_stale"),
    ));
    match strategy.submit_spread_close_entry(
        &entry,
        &Some(plan()),
        None,
        amount(-0.2),
        "stop",
        "close-1",
    ) {
        SpreadCloseOutcome::Submit(order) => assert_eq!(order.limit_price, amount(-0.2)),
        other => panic!("expected an order, got {other:?}"),
    }
    assert_eq!(strategy.pending_closes.submissions.len(), 1);
    strategy.abandon_close("close-1");
    assert!(strategy.pending_closes.submissions.is_empty());
}

#[test]
fn alerts_are_recorded_once_per_day() {
    let mut strategy = strategy();
    assert!(strategy.first_alert("2026-05-04", "selected|SPY"));
    assert!(!strategy.first_alert("2026-05-04", "selected|SPY"));
    assert!(strategy.first_alert("2026-05-05", "selected|SPY"));
}

#[test]
fn order_lists_have_distinct_names() {
    assert_eq!(entry_order_list_id("2026-05-04", "SPY", "u"), "options-entry-2026-05-04-SPY-u");
    assert_eq!(close_order_list_id("2026-05-04", "SPY", "u"), "options-close-2026-05-04-SPY-u");
    assert!(order_belongs_to_list(&None, "list-1-short", "list-1"));
    assert!(order_belongs_to_list(&Some("list-1".to_string()), "other", "list-1"));
    assert!(!order_belongs_to_list(&None, "list-12-short", "list-1"));
}

#[test]
fn order_lists_take_the_status_of_their_orders() {
    let order = |filled, working, closed| CachedOrder { filled, working, closed };
    assert_eq!(order_list_status(&Vec::new()), OrderListRuntimeStatus::Missing);
    assert_eq!(
        order_list_status(&vec![order(true, false, true), order(true, false, true)]),
        OrderListRuntimeStatus::Filled,
    );
    assert_eq!(
        order_list_status(&vec![order(true, false, true), order(false, true, false)]),
        OrderListRuntimeStatus::Working,
    );
    assert_eq!(
        order_list_status(&vec![order(false, false, true)]),
        OrderListRuntimeStatus::TerminalWithoutFill,
    );
    assert_eq!(
        order_list_status(&vec![order(true, false, true), order(false, false, true)]),
        OrderListRuntimeStatus::TerminalWithoutFill,
    );
    assert_eq!(
        order_list_status(&vec![order(true, false, true), order(false, false, false)]),
        OrderListRuntimeStatus::Partial,
    );
}

#[test]
fn occupied_legs_and_underlyings_are_reported() {
    let view = BrokerView {
        positions: vec![HeldInstrument {
            symbol: "SPY260515P00400000".to_string(),
            underlying: Some("SPY".to_string()),
        }],
        orders: vec![WorkingOrder {
            symbol: "SPY260620C00500000".to_string(),
            underlying: Some("spy".to_string()),
            order_list_id: Some("other".to_string()),
            client_order_id: "other-1".to_string(),
        }],
    };
    let snapshot = entry_admission_snapshot(&Vec::new(), &view, &credit(70.0)).unwrap();
    assert_eq!(snapshot.open_order_count, 1);
    assert!(snapshot
        .broker_admission_reasons
        .contains(&"existing open position on candidate leg SPY260515P00400000".to_string()));
    assert!(snapshot
        .broker_admission_reasons
        .iter()
        .any(|reason| reason.starts_with("working order already references underlying ")));
}

#[test]
fn orders_of_one_list_are_one_group() {
    let order = |list: Option<&str>, client: &str| WorkingOrder {
        symbol: "SPY260515P00400000".to_string(),
        underlying: None,
        order_list_id: list.map(str::to_string),
        client_order_id: client.to_string(),
    };
    let orders = vec![order(Some("a"), "1"), order(Some("a"), "2"), order(None, "3"), order(None, "a")];
    assert_eq!(open_broker_order_group_count(&orders), 3);
}

#[test]
fn the_entry_strategy_submits_each_key_once() {
    let mut strategy = AlpacaOptionsEntryStrategy::new(AlpacaOptionsEntryStrategyConfig::new(1));
    match strategy.submit_opportunity_data(&put_credit(), "list-1", NOW) {
        OpportunityOutcome::Submit(prepared) => assert_eq!(prepared.submission.order_count, 2),
        other => panic!("expected a submission, got {other:?}"),
    }
    assert!(matches!(
        strategy.submit_opportunity_data(&put_credit(), "list-2", NOW),
        OpportunityOutcome::Duplicate(_),
    ));
    strategy.forget("2026-05-04", &credit(70.0));
    assert!(matches!(
        strategy.submit_opportunity_data(&put_credit(), "list-3", NOW),
        OpportunityOutcome::Submit(_),
    ));
    strategy.config.submit_enabled = false;
    strategy.forget("2026-05-04", &credit(70.0));
    assert!(matches!(
        strategy.submit_opportunity_data(&put_credit(), "list-4", NOW),
        OpportunityOutcome::DryRun,
    ));
}
