//! Management of active entries.
use alpaca_options::amount::Amount;
use alpaca_options::management::close_price_cushion_for_attempt;
use alpaca_options::management::AlpacaOptionsManagementConfig;
use alpaca_options::management::CloseQuote;
use alpaca_options::management::RaisedPrices;

fn amount(value: f64) -> Amount {
    Amount { bits: value.to_bits() }
}

fn stepped(config: &AlpacaOptionsManagementConfig, attempts: u32) -> Amount {
    let cushion = f64::from_bits(config.close_price_cushion.bits);
    let step = f64::from_bits(config.close_reprice_step.bits);
    amount(cushion + step * attempts as f64)
}

fn number(value: Amount) -> f64 {
    f64::from_bits(value.bits)
}

fn with_cushion(quote: CloseQuote, cushion: f64) -> CloseQuote {
    let share = cushion / quote.short_leg_count() as f64;
    quote.with_price_cushion(
        amount(cushion),
        RaisedPrices {
            short_ask: amount(number(quote.short_ask) + share),
            short_call_ask: amount(quote.short_call_ask.map_or(0.0, number) + share),
            debit: amount(number(quote.debit) + cushion),
        },
    )
}

#[test]
fn close_quote_cushion_increases_credit_spread_limit_debit() {
    let quote = CloseQuote {
        short_ask: amount(0.70),
        long_bid: amount(0.20),
        short_call_ask: None,
        long_call_bid: None,
        debit: amount(0.50),
    };

    let cushioned = with_cushion(quote, 0.02);

    assert!((number(cushioned.short_ask) - 0.72).abs() < 1e-9);
    assert!((number(cushioned.long_bid) - 0.20).abs() < 1e-9);
    assert!((number(cushioned.debit) - 0.52).abs() < 1e-9);
}

#[test]
fn close_quote_cushion_splits_across_iron_condor_short_legs() {
    let quote = CloseQuote {
        short_ask: amount(0.70),
        long_bid: amount(0.20),
        short_call_ask: Some(amount(0.80)),
        long_call_bid: Some(amount(0.30)),
        debit: amount(1.00),
    };

    let cushioned = with_cushion(quote, 0.04);

    assert!((number(cushioned.short_ask) - 0.72).abs() < 1e-9);
    assert!((number(cushioned.long_bid) - 0.20).abs() < 1e-9);
    assert!((number(cushioned.short_call_ask.unwrap()) - 0.82).abs() < 1e-9);
    assert!((number(cushioned.long_call_bid.unwrap()) - 0.30).abs() < 1e-9);
    assert!((number(cushioned.debit) - 1.04).abs() < 1e-9);
}

#[test]
fn close_price_cushion_ladder_is_attempt_based_and_capped() {
    let config = AlpacaOptionsManagementConfig {
        close_price_cushion: amount(0.02),
        close_reprice_step: amount(0.01),
        max_close_price_cushion: amount(0.05),
        ..AlpacaOptionsManagementConfig::default()
    };
    assert_eq!(close_price_cushion_for_attempt(&config, stepped(&config, 0)), amount(0.02));
    assert_eq!(close_price_cushion_for_attempt(&config, stepped(&config, 2)), amount(0.04));
    assert_eq!(close_price_cushion_for_attempt(&config, stepped(&config, 10)), amount(0.05));
}

#[test]
fn the_cushion_climbs_from_the_configured_one_to_the_maximum() {
    let config = AlpacaOptionsManagementConfig {
        close_price_cushion: amount(0.02),
        close_reprice_step: amount(0.01),
        max_close_price_cushion: amount(0.05),
        ..AlpacaOptionsManagementConfig::default()
    };
    let mut last = config.close_price_cushion;
    for attempts in 0..12 {
        let cushion = close_price_cushion_for_attempt(&config, stepped(&config, attempts));
        assert!(last.is_at_most(cushion));
        assert!(cushion.is_at_most(config.max_close_price_cushion));
        last = cushion;
    }
    assert_eq!(last, amount(0.05));
}
