//! Admission of selected entries.
use alpaca_options::admission::submission_block_for_selected;
use alpaca_options::admission::EarningsEvent;
use alpaca_options::admission::EntryAdmissionConfig;
use alpaca_options::admission::EntryAdmissionSnapshot;
use alpaca_options::admission::RiskCapitalFigures;
use alpaca_options::admission::SubmissionBlock;
use alpaca_options::amount::Amount;
use alpaca_options::amount::Figure;
use alpaca_options::calendar::CalendarDate;
use alpaca_options::candidates::credit_spread_strategy_name;
use alpaca_options::candidates::CreditSpreadKind;
use alpaca_options::candidates::ScoredContract;
use alpaca_options::candidates::SpreadCandidate;
use alpaca_options::entry::SelectedEntry;
use alpaca_options::entry::SelectedOptionsEntry;
use alpaca_options::state::StrategyState;
use alpaca_options::state::StrategyStateEntryDraft;

fn amount(value: f64) -> Amount {
    Amount { bits: value.to_bits() }
}

fn figure(value: f64) -> Figure {
    Figure { amount: amount(value), text: format!("{value:.2}") }
}

fn scored_contract(symbol: &str, strike: f64) -> ScoredContract {
    ScoredContract {
        symbol: symbol.to_string(),
        expiration_date: "2026-05-15".to_string(),
        dte: 11,
        strike: amount(strike),
        bid: amount(1.0),
        ask: amount(1.1),
        delta_abs: amount(0.20),
        spread_pct: amount(0.05),
        bid_size: 10,
        ask_size: 10,
        volume: 100,
        open_interest: 1_000,
        implied_volatility: Some(amount(0.2)),
    }
}

fn selected_credit_entry(underlying: &str, max_loss: f64) -> SelectedOptionsEntry {
    SelectedOptionsEntry::Credit(SelectedEntry {
        underlying: underlying.to_string(),
        kind: CreditSpreadKind::Put,
        candidate: SpreadCandidate {
            short: scored_contract(&format!("{underlying}260515P00400000"), 400.0),
            long: scored_contract(&format!("{underlying}260515P00395000"), 395.0),
            width: amount(5.0),
            credit: amount(5.0 - max_loss),
            max_loss: amount(max_loss),
            return_on_risk: amount(0.25),
            score: amount(70.0),
        },
    })
}

fn active_draft(underlying: &str, risk_capital_usd: Option<f64>) -> StrategyStateEntryDraft {
    StrategyStateEntryDraft {
        trade_date: "2026-05-03".to_string(),
        underlying: underlying.to_string(),
        strategy: credit_spread_strategy_name(CreditSpreadKind::Put).to_string(),
        order_list_id: format!("{underlying}-entry"),
        short_symbol: format!("{underlying}260515P00400000"),
        long_symbol: format!("{underlying}260515P00395000"),
        short_call_symbol: None,
        long_call_symbol: None,
        quantity: 1,
        credit: amount(1.00),
        debit: None,
        risk_capital_usd: risk_capital_usd.map(amount),
        score: amount(70.0),
        parent_order_id: Some(format!("{underlying}-parent")),
        submitted_at_utc: Some("2026-05-03T14:00:00Z".to_string()),
        spread_instrument_id: None,
        spread_raw_symbol: None,
        spread_legs: Vec::new(),
        entry_pricing_source: None,
    }
}

fn figures(max_loss: f64, quantity: f64, active: f64) -> RiskCapitalFigures {
    let candidate = max_loss * 100.0 * quantity;
    RiskCapitalFigures {
        candidate: Some(figure(candidate)),
        active_known: figure(active),
        projected: figure(active + candidate),
    }
}

fn block(
    config: &EntryAdmissionConfig,
    state: &StrategyState,
    selected: &SelectedOptionsEntry,
    figures: &RiskCapitalFigures,
) -> Option<SubmissionBlock> {
    submission_block_for_selected(
        config,
        state,
        selected,
        "2026-05-04",
        &EntryAdmissionSnapshot::default(),
        figures,
    )
}

#[test]
fn portfolio_risk_capital_blocks_projected_excess() {
    let config = EntryAdmissionConfig {
        quantity: 1,
        max_portfolio_risk_capital_usd: Some(figure(600.0)),
        ..EntryAdmissionConfig::default()
    };
    let mut state = StrategyState::default();
    state.record_entry_submission(
        active_draft("QQQ", Some(300.0)),
        "2026-05-03T14:00:00Z".to_string(),
    );
    let selected = selected_credit_entry("SPY", 3.50);
    let block = block(&config, &state, &selected, &figures(3.50, 1.0, 300.0))
        .expect("projected risk capital should block");
    assert_eq!(block.reason, "risk_max_portfolio_risk_capital");
    assert!(block.details.contains(&"active_risk_capital_usd=300.00".to_string()));
    assert!(block.details.contains(&"candidate_risk_capital_usd=350.00".to_string()));
    assert!(block.details.contains(&"projected_risk_capital_usd=650.00".to_string()));
}

#[test]
fn single_entry_risk_capital_blocks_large_candidate() {
    let config = EntryAdmissionConfig {
        quantity: 2,
        max_single_entry_risk_capital_usd: Some(figure(400.0)),
        ..EntryAdmissionConfig::default()
    };
    let state = StrategyState::default();
    let selected = selected_credit_entry("SPY", 2.50);
    let block = block(&config, &state, &selected, &figures(2.50, 2.0, 0.0))
        .expect("single-entry risk capital should block");
    assert_eq!(block.reason, "risk_max_single_entry_risk_capital");
    assert!(block.details.contains(&"candidate_risk_capital_usd=500.00".to_string()));
}

#[test]
fn configured_portfolio_cap_blocks_unknown_active_risk() {
    let config = EntryAdmissionConfig {
        quantity: 1,
        max_portfolio_risk_capital_usd: Some(figure(1_000.0)),
        block_unestimated_risk_capital: true,
        ..EntryAdmissionConfig::default()
    };
    let mut state = StrategyState::default();
    let mut draft = active_draft("QQQ", None);
    draft.strategy = "naked_call".to_string();
    draft.short_symbol = "QQQ260515C00430000".to_string();
    draft.long_symbol = String::new();
    state.record_entry_submission(draft, "2026-05-03T14:00:00Z".to_string());
    let selected = selected_credit_entry("SPY", 1.00);
    let block = block(&config, &state, &selected, &figures(1.00, 1.0, 0.0))
        .expect("unknown active risk capital should block when configured");
    assert_eq!(block.reason, "risk_capital_unestimated");
    assert!(block.details.contains(&"scope=active_entries".to_string()));
    assert!(block.details.contains(&"unknown_active_entries=1".to_string()));
}

#[test]
fn configured_earnings_event_blocks_selected_underlying() {
    let config = EntryAdmissionConfig {
        event_shock_earnings_events: vec![EarningsEvent {
            underlying: "SPY".to_string(),
            report_date: CalendarDate { year: 2026, month: 5, day: 5 },
            timing: "after_close".to_string(),
            source: "approved_csv".to_string(),
        }],
        event_shock_block_days_before_earnings: 2,
        event_shock_block_days_after_earnings: 1,
        ..EntryAdmissionConfig::default()
    };
    let state = StrategyState::default();
    let selected = selected_credit_entry("SPY", 1.00);
    let block = block(&config, &state, &selected, &figures(1.00, 1.0, 0.0))
        .expect("configured earnings event should block");
    assert_eq!(block.reason, "event_shock_earnings");
    assert!(block.details.contains(&"report_date=2026-05-05".to_string()));
    assert!(block.details.contains(&"timing=after_close".to_string()));
    assert!(block.details.contains(&"days_to_report=1".to_string()));
}
