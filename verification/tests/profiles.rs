//! Strategy profiles.
use std::str::FromStr;

use alpaca_options::amount::Amount;
use alpaca_options::amount::Figure;
use alpaca_options::candidate_set::AlpacaOptionsCandidateProfile;
use alpaca_options::profile::credit_kind_from_family;
use alpaca_options::profile::debit_kind_from_family;
use alpaca_options::profile::enabled_strategy_family_names;
use alpaca_options::profile::naked_kind_from_family;
use alpaca_options::profile::strategy_profile_summaries;
use alpaca_options::profile::unique_strategy_names;
use alpaca_options::profile::AlpacaOptionsStrategyFamily;
use alpaca_options::profile::AlpacaOptionsStrategyMode;
use alpaca_options::profile::AlpacaOptionsStrategyProfile;
use alpaca_options::profile::AlpacaOptionsStrategyRiskOverrides;
use alpaca_options::profile::AlpacaOptionsStrategyScannerConfig;

const FAMILIES: [AlpacaOptionsStrategyFamily; 9] = [
    AlpacaOptionsStrategyFamily::PutCredit,
    AlpacaOptionsStrategyFamily::CallCredit,
    AlpacaOptionsStrategyFamily::IronCondor,
    AlpacaOptionsStrategyFamily::PutDebit,
    AlpacaOptionsStrategyFamily::CallDebit,
    AlpacaOptionsStrategyFamily::NakedPut,
    AlpacaOptionsStrategyFamily::NakedCall,
    AlpacaOptionsStrategyFamily::NakedPutOneToThreeDte,
    AlpacaOptionsStrategyFamily::NakedCallOneToThreeDte,
];

fn profile(id: &str, family: AlpacaOptionsStrategyFamily) -> AlpacaOptionsStrategyProfile {
    AlpacaOptionsStrategyProfile {
        id: id.to_string(),
        family,
        mode: AlpacaOptionsStrategyMode::Live,
        universe_groups: Vec::new(),
        include_underlyings: Vec::new(),
        exclude_underlyings: Vec::new(),
        underlyings: vec!["SPY".to_string(), "QQQ".to_string()],
        quantity: 2,
        scanner: AlpacaOptionsStrategyScannerConfig::Credit,
        risk: AlpacaOptionsStrategyRiskOverrides::default(),
    }
}

#[test]
fn labels_are_read_back() {
    for family in FAMILIES {
        assert_eq!(AlpacaOptionsStrategyFamily::parse(family.as_str()), Ok(family));
    }
    for mode in [AlpacaOptionsStrategyMode::Live, AlpacaOptionsStrategyMode::DryRun] {
        assert_eq!(AlpacaOptionsStrategyMode::parse(mode.as_str()), Ok(mode));
    }
}

#[test]
fn labels_are_read_with_any_case_and_white_space() {
    assert_eq!(
        AlpacaOptionsStrategyMode::from_str("  Watchlist "),
        Ok(AlpacaOptionsStrategyMode::DryRun),
    );
    assert_eq!(
        AlpacaOptionsStrategyFamily::from_str("SHORT_PUT_1_3DTE"),
        Ok(AlpacaOptionsStrategyFamily::NakedPutOneToThreeDte),
    );
}

#[test]
fn unknown_labels_are_refused() {
    assert_eq!(
        AlpacaOptionsStrategyMode::parse(" Paper "),
        Err("unsupported Alpaca strategy mode paper".to_string()),
    );
    assert_eq!(
        AlpacaOptionsStrategyMode::from_str(" Paper "),
        Err("unsupported Alpaca strategy mode paper".to_string()),
    );
    assert_eq!(
        AlpacaOptionsStrategyFamily::from_str("Straddle"),
        Err("unsupported Alpaca strategy family straddle".to_string()),
    );
    assert_eq!(
        AlpacaOptionsStrategyFamily::parse("Straddle"),
        Err("unsupported Alpaca strategy family straddle".to_string()),
    );
}

#[test]
fn every_family_has_at_most_one_kind() {
    for family in FAMILIES {
        let kinds = credit_kind_from_family(family).is_some() as u32
            + debit_kind_from_family(family).is_some() as u32
            + naked_kind_from_family(family).is_some() as u32;
        let expected = if family == AlpacaOptionsStrategyFamily::IronCondor { 0 } else { 1 };
        assert_eq!(kinds, expected);
        assert_eq!(family.is_undefined_risk(), naked_kind_from_family(family).is_some());
    }
}

#[test]
fn summaries_show_risk_overrides() {
    let mut own = profile("core", AlpacaOptionsStrategyFamily::PutCredit);
    assert_eq!(own.summary(), "core:put_credit:live:SPY|QQQ:qty=2");
    assert!(own.risk.is_empty());
    own.mode = AlpacaOptionsStrategyMode::DryRun;
    own.risk.max_active_entries = Some(3);
    own.risk.max_single_entry_risk_capital_usd = Some(Figure {
        amount: Amount { bits: 250.0f64.to_bits() },
        text: "250.00".to_string(),
    });
    assert_eq!(
        own.summary(),
        "core:put_credit:dry_run:SPY|QQQ:qty=2:risk=max_active_entries=3|max_single_entry_risk_capital_usd=250.00",
    );
    assert!(own.is_dry_run());
    assert!(own.scans_underlying("spy"));
    assert!(!own.scans_underlying("IWM"));
}

#[test]
fn names_are_kept_once_in_order() {
    let names = unique_strategy_names(&vec!["b", "a", "b", "c", "a"]);
    assert_eq!(names, vec!["b", "a", "c"]);
    let profiles = vec![
        profile("one", AlpacaOptionsStrategyFamily::CallDebit),
        profile("two", AlpacaOptionsStrategyFamily::PutCredit),
        profile("three", AlpacaOptionsStrategyFamily::CallDebit),
    ];
    assert_eq!(enabled_strategy_family_names(&profiles), vec!["call_debit", "put_credit"]);
    assert_eq!(strategy_profile_summaries(&profiles).len(), 3);
}

#[test]
fn synthetic_profiles_are_live_with_at_least_one_contract() {
    let context = AlpacaOptionsCandidateProfile::synthetic(
        "legacy".to_string(),
        AlpacaOptionsStrategyFamily::IronCondor,
        0,
    );
    assert_eq!(context.quantity, 1);
    assert_eq!(context.mode, AlpacaOptionsStrategyMode::Live);
    assert!(context.risk.is_empty());
    let own = profile("core", AlpacaOptionsStrategyFamily::NakedCall);
    let context = AlpacaOptionsCandidateProfile::from_strategy_profile(&own);
    assert_eq!(context.id, "core");
    assert_eq!(context.quantity, 2);
}
