//! Decisions on managing and closing active entries.
use vstd::prelude::*;

use crate::amount::Amount;
use crate::calendar::age_secs_from_rfc3339;
use crate::calendar::text_age_secs;
use crate::calendar::utc_day_of;
use crate::calendar::MarketWindow;
use crate::calendar::TimeOfDay;
use crate::calendar::UtcInstant;
use crate::state::StrategyStateEntry;
use crate::symbol::alpaca_instrument_id;
use crate::symbol::days_to_expiration;
use crate::symbol::expiration_days;
use crate::symbol::instrument_chars;
use crate::symbol::is_visible;
use crate::text::opt_text;
use crate::text::slices;
use crate::text::texts;
use crate::text_set::TextSet;

verus! {

/// Order path of a close.
#[derive(Clone, Copy, Debug, PartialEq, Eq, Structural)]
pub enum CloseOrderMode {
    /// One order per leg.
    LegacyLegOrderList,
    /// One order for the spread instrument.
    OptionSpread,
}

impl CloseOrderMode {
    /// The status label.
    pub open spec fn label(self) -> Seq<char> {
        match self {
            CloseOrderMode::LegacyLegOrderList => "legacy_leg_order_list"@,
            CloseOrderMode::OptionSpread => "option_spread"@,
        }
    }

    /// Returns the status label.
    pub fn as_str(self) -> (label: &'static str)
        ensures
            label@ == self.label(),
    {
        match self {
            CloseOrderMode::LegacyLegOrderList => "legacy_leg_order_list",
            CloseOrderMode::OptionSpread => "option_spread",
        }
    }
}

/// Management thresholds for one credit-spread strategy runtime.
#[derive(Clone, Copy, Debug)]
pub struct CreditSpreadManagementConfig {
    /// Force every active entry to close.
    pub force_flatten: bool,
    /// Close when debit is at or below this fraction of entry credit.
    pub profit_target_close_fraction: Amount,
    /// Close when debit is at or above this multiple of entry credit.
    pub stop_loss_close_multiple: Amount,
    /// Close after this hold time. Zero disables the trigger.
    pub max_hold_secs: u64,
    /// Close when days to expiration are at or below this value. Negative disables the trigger.
    pub expiration_exit_days: i64,
}

/// Management settings needed by the options strategy.
#[derive(Clone, Debug)]
pub struct AlpacaOptionsManagementConfig {
    /// Delay between management evaluations.
    pub interval_secs: u64,
    /// Whether broker orders which close or reduce risk are enabled.
    pub close_orders_enabled: bool,
    /// Order path of closes.
    pub close_order_mode: CloseOrderMode,
    /// Whether every active entry should be flattened.
    pub force_flatten: bool,
    /// Stale entry timeout.
    pub stale_entry_secs: u64,
    /// Stale close timeout.
    pub stale_close_secs: u64,
    /// Whether non-forced close submissions are limited to regular options hours.
    pub close_regular_hours_only: bool,
    /// Regular options hours.
    pub close_window: MarketWindow,
    /// Additional debit allowed on submitted close limits.
    pub close_price_cushion: Amount,
    /// Additional close cushion added per accepted close attempt.
    pub close_reprice_step: Amount,
    /// Maximum total close cushion after repricing steps.
    pub max_close_price_cushion: Amount,
    /// Maximum accepted close submissions per entry. Zero means unlimited.
    pub max_close_attempts: u32,
    /// Minimum delay after a close submission before another close may be submitted.
    pub close_reprice_cooldown_secs: u64,
    /// Number of high-rank candidate entries to keep quote-subscribed for active risk checks.
    pub active_risk_candidate_quote_limit: usize,
    /// Maximum accepted active-risk quote age. Zero disables freshness blocks.
    pub active_risk_quote_stale_secs: u64,
    /// Profit-target close fraction.
    pub profit_target_close_fraction: Amount,
    /// Stop-loss close multiple.
    pub stop_loss_close_multiple: Amount,
    /// Maximum hold time. Zero disables.
    pub max_hold_secs: u64,
    /// Expiration-risk exit days. Negative disables.
    pub expiration_exit_days: i64,
}

/// The bit pattern of one half.
pub const HALF_BITS: u64 = 0x3FE0_0000_0000_0000;

/// The bit pattern of two.
pub const TWO_BITS: u64 = 0x4000_0000_0000_0000;

/// Whether settings are the default ones.
pub open spec fn default_management(config: AlpacaOptionsManagementConfig) -> bool {
    &&& config.interval_secs == 60
    &&& !config.close_orders_enabled
    &&& config.close_order_mode is LegacyLegOrderList
    &&& !config.force_flatten
    &&& config.stale_entry_secs == 900
    &&& config.stale_close_secs == 900
    &&& config.close_regular_hours_only
    &&& config.close_window.start == TimeOfDay::hm(9, 30)
    &&& config.close_window.end == TimeOfDay::hm(16, 0)
    &&& config.close_window.zone@ == "America/New_York"@
    &&& config.close_price_cushion.bits == 0
    &&& config.close_reprice_step.bits == 0
    &&& config.max_close_price_cushion.bits == 0
    &&& config.max_close_attempts == 0
    &&& config.close_reprice_cooldown_secs == 0
    &&& config.active_risk_candidate_quote_limit == 5
    &&& config.active_risk_quote_stale_secs == 30
    &&& config.profit_target_close_fraction.bits == HALF_BITS
    &&& config.stop_loss_close_multiple.bits == TWO_BITS
    &&& config.max_hold_secs == 0
    &&& config.expiration_exit_days == -1
}

impl Default for AlpacaOptionsManagementConfig {
    fn default() -> (config: AlpacaOptionsManagementConfig)
        ensures
            default_management(config),
    {
        AlpacaOptionsManagementConfig {
            interval_secs: 60,
            close_orders_enabled: false,
            close_order_mode: CloseOrderMode::LegacyLegOrderList,
            force_flatten: false,
            stale_entry_secs: 900,
            stale_close_secs: 900,
            close_regular_hours_only: true,
            close_window: MarketWindow {
                start: TimeOfDay { secs: 34_200, nanos: 0 },
                end: TimeOfDay { secs: 57_600, nanos: 0 },
                zone: "America/New_York".to_owned(),
            },
            close_price_cushion: Amount { bits: 0 },
            close_reprice_step: Amount { bits: 0 },
            max_close_price_cushion: Amount { bits: 0 },
            max_close_attempts: 0,
            close_reprice_cooldown_secs: 0,
            active_risk_candidate_quote_limit: 5,
            active_risk_quote_stale_secs: 30,
            profit_target_close_fraction: Amount { bits: HALF_BITS },
            stop_loss_close_multiple: Amount { bits: TWO_BITS },
            max_hold_secs: 0,
            expiration_exit_days: -1,
        }
    }
}

impl AlpacaOptionsManagementConfig {
    /// Whether non-forced close submissions are allowed at an instant.
    pub open spec fn close_allowed(self, now: UtcInstant) -> bool {
        self.force_flatten || !self.close_regular_hours_only || self.close_window.open_at(now)
    }

    /// Returns `true` if non-forced close submissions are currently allowed.
    #[must_use]
    pub fn inside_close_window(&self, now: UtcInstant) -> (allowed: bool)
        ensures
            allowed == self.close_allowed(now),
    {
        self.force_flatten || !self.close_regular_hours_only || self.close_window.is_open_at(now)
    }

    /// Returns the thresholds that apply to credit entries.
    pub fn credit_config(&self) -> (config: CreditSpreadManagementConfig)
        ensures
            config == self.credit_part(),
    {
        CreditSpreadManagementConfig {
            force_flatten: self.force_flatten,
            profit_target_close_fraction: self.profit_target_close_fraction,
            stop_loss_close_multiple: self.stop_loss_close_multiple,
            max_hold_secs: self.max_hold_secs,
            expiration_exit_days: self.expiration_exit_days,
        }
    }

    /// The thresholds that apply to credit entries.
    pub open spec fn credit_part(self) -> CreditSpreadManagementConfig {
        CreditSpreadManagementConfig {
            force_flatten: self.force_flatten,
            profit_target_close_fraction: self.profit_target_close_fraction,
            stop_loss_close_multiple: self.stop_loss_close_multiple,
            max_hold_secs: self.max_hold_secs,
            expiration_exit_days: self.expiration_exit_days,
        }
    }
}

// ---------------------------------------------------------------------------------------------
// Close quotes
// ---------------------------------------------------------------------------------------------

/// Quote snapshot used to price a close order.
#[derive(Clone, Copy, Debug, PartialEq, Eq, Structural)]
pub struct CloseQuote {
    /// Ask on the short put/primary short leg.
    pub short_ask: Amount,
    /// Bid on the long put/primary long leg.
    pub long_bid: Amount,
    /// Ask on the short call leg for iron condors.
    pub short_call_ask: Option<Amount>,
    /// Bid on the long call leg for iron condors.
    pub long_call_bid: Option<Amount>,
    /// Net close debit. Debit spreads store close credit as a negative debit.
    pub debit: Amount,
}

/// Prices of a close quote with a cushion added.
#[derive(Clone, Copy, Debug)]
pub struct RaisedPrices {
    /// Ask on the primary short leg, raised by the leg's share of the cushion.
    pub short_ask: Amount,
    /// Ask on the short call leg, raised by the leg's share of the cushion.
    pub short_call_ask: Amount,
    /// Net close debit, raised by the cushion.
    pub debit: Amount,
}

impl CloseQuote {
    /// The quote with a cushion above zero on its short legs; bids stay.
    pub open spec fn cushioned(self, cushion: Amount, raised: RaisedPrices) -> CloseQuote {
        if !cushion.above_zero() {
            self
        } else {
            CloseQuote {
                short_ask: raised.short_ask,
                short_call_ask: if self.short_call_ask is Some {
                    Some(raised.short_call_ask)
                } else {
                    None
                },
                debit: raised.debit,
                ..self
            }
        }
    }

    /// Returns the number of short legs that share a cushion.
    pub fn short_leg_count(&self) -> (count: u64)
        ensures
            count == if self.short_call_ask is Some {
                2u64
            } else {
                1
            },
    {
        if self.short_call_ask.is_some() {
            2
        } else {
            1
        }
    }

    /// Applies an additional close-price cushion to short-leg ask prices.
    #[must_use]
    pub fn with_price_cushion(self, cushion: Amount, raised: RaisedPrices) -> (quote: CloseQuote)
        ensures
            quote == self.cushioned(cushion, raised),
    {
        if !cushion.is_above_zero() {
            return self;
        }
        CloseQuote {
            short_ask: raised.short_ask,
            long_bid: self.long_bid,
            short_call_ask: match self.short_call_ask {
                Some(_) => Some(raised.short_call_ask),
                None => None,
            },
            long_call_bid: self.long_call_bid,
            debit: raised.debit,
        }
    }
}

/// Prices on the legs of an entry, as far as there are quotes.
#[derive(Clone, Copy, Debug)]
pub struct CloseTicks {
    /// Ask on the primary short leg.
    pub short_ask: Option<Amount>,
    /// Bid on the primary long leg.
    pub long_bid: Option<Amount>,
    /// Ask on the short call leg.
    pub short_call_ask: Option<Amount>,
    /// Bid on the long call leg.
    pub long_call_bid: Option<Amount>,
}

/// Net prices computed from the prices on the legs.
#[derive(Clone, Copy, Debug)]
pub struct NetPrices {
    /// Primary long bid less primary short ask.
    pub spread_credit: Amount,
    /// Net close debit of all legs.
    pub debit: Amount,
}

/// A price above zero.
pub open spec fn positive(price: Option<Amount>) -> Option<Amount> {
    match price {
        Some(value) => if value.above_zero() {
            Some(value)
        } else {
            None
        },
        None => None,
    }
}

/// The close quote of an entry: every leg needs a price above zero, a debit spread must close for a
/// credit and every other spread for a debit.
pub open spec fn quote_of(
    entry: StrategyStateEntry,
    ticks: CloseTicks,
    net: NetPrices,
) -> Option<CloseQuote> {
    let has_calls = entry.short_call_symbol is Some || entry.long_call_symbol is Some;
    if positive(ticks.short_ask) is None {
        None
    } else if entry.naked() {
        Some(
            CloseQuote {
                short_ask: ticks.short_ask->0,
                long_bid: Amount { bits: 0 },
                short_call_ask: None,
                long_call_bid: None,
                debit: ticks.short_ask->0,
            },
        )
    } else if positive(ticks.long_bid) is None {
        None
    } else if entry.debit_spread() && net.spread_credit.zero_or_below() {
        None
    } else if has_calls && (positive(ticks.short_call_ask) is None || positive(
        ticks.long_call_bid,
    ) is None) {
        None
    } else if !entry.debit_spread() && net.debit.zero_or_below() {
        None
    } else {
        Some(
            CloseQuote {
                short_ask: ticks.short_ask->0,
                long_bid: ticks.long_bid->0,
                short_call_ask: if has_calls {
                    ticks.short_call_ask
                } else {
                    None
                },
                long_call_bid: if has_calls {
                    ticks.long_call_bid
                } else {
                    None
                },
                debit: net.debit,
            },
        )
    }
}

fn positive_price(price: Option<Amount>) -> (kept: Option<Amount>)
    ensures
        kept == positive(price),
{
    match price {
        Some(value) => {
            if value.is_above_zero() {
                Some(value)
            } else {
                None
            }
        },
        None => None,
    }
}

/// Builds a close quote from the prices on the legs of an entry.
#[must_use]
pub fn close_quote_from_ticks(
    entry: &StrategyStateEntry,
    ticks: &CloseTicks,
    net: &NetPrices,
) -> (quote: Option<CloseQuote>)
    ensures
        quote == quote_of(*entry, *ticks, *net),
{
    let short_ask = match positive_price(ticks.short_ask) {
        Some(price) => price,
        None => {
            return None;
        },
    };
    if entry.is_naked_option() {
        return Some(
            CloseQuote {
                short_ask,
                long_bid: Amount { bits: 0 },
                short_call_ask: None,
                long_call_bid: None,
                debit: short_ask,
            },
        );
    }
    let long_bid = match positive_price(ticks.long_bid) {
        Some(price) => price,
        None => {
            return None;
        },
    };
    if entry.is_debit_spread() && net.spread_credit.is_zero_or_below() {
        return None;
    }
    let mut short_call_ask: Option<Amount> = None;
    let mut long_call_bid: Option<Amount> = None;
    if entry.short_call_symbol.is_some() || entry.long_call_symbol.is_some() {
        short_call_ask = positive_price(ticks.short_call_ask);
        if short_call_ask.is_none() {
            return None;
        }
        long_call_bid = positive_price(ticks.long_call_bid);
        if long_call_bid.is_none() {
            return None;
        }
    }
    if !entry.is_debit_spread() && net.debit.is_zero_or_below() {
        return None;
    }
    Some(CloseQuote { short_ask, long_bid, short_call_ask, long_call_bid, debit: net.debit })
}

// ---------------------------------------------------------------------------------------------
// Close reasons
// ---------------------------------------------------------------------------------------------

/// Prices at which an entry is closed, computed from its premium and the configured fractions.
#[derive(Clone, Copy, Debug)]
pub struct CloseThresholds {
    /// Profit-target price.
    pub profit_target: Amount,
    /// Stop-loss price.
    pub stop_loss: Amount,
}

/// Whether an entry has been held for its maximum time.
pub open spec fn held_out(entry: StrategyStateEntry, max_hold_secs: u64, now: UtcInstant) -> bool {
    max_hold_secs > 0 && match text_age_secs(entry.recorded_at_utc@, now) {
        Some(age) => age >= max_hold_secs,
        None => false,
    }
}

/// Whether days to expiration are at or below a limit.
pub open spec fn expires_within(days: Option<int>, limit: i64) -> bool {
    limit >= 0 && match days {
        Some(n) => n <= limit,
        None => false,
    }
}

/// The reason to close a credit entry.
pub open spec fn credit_trigger(
    config: CreditSpreadManagementConfig,
    entry: StrategyStateEntry,
    close_debit: Amount,
    thresholds: CloseThresholds,
    now: UtcInstant,
) -> Option<Seq<char>> {
    if config.force_flatten {
        Some("manual_flatten"@)
    } else if close_debit.at_most(thresholds.profit_target) {
        Some("profit_target"@)
    } else if thresholds.stop_loss.at_most(close_debit) {
        Some("stop_loss"@)
    } else if held_out(entry, config.max_hold_secs, now) {
        Some("max_hold"@)
    } else if expires_within(
        expiration_days(entry.short_symbol@, now.utc_day()),
        config.expiration_exit_days,
    ) {
        Some("expiration_risk"@)
    } else {
        None
    }
}

/// The days to expiration of the short leg, else of the long leg.
pub open spec fn spread_expiration_days(entry: StrategyStateEntry, today: int) -> Option<int> {
    match expiration_days(entry.short_symbol@, today) {
        Some(days) => Some(days),
        None => expiration_days(entry.long_symbol@, today),
    }
}

/// The reason to close a debit entry.
pub open spec fn debit_trigger(
    config: AlpacaOptionsManagementConfig,
    entry: StrategyStateEntry,
    close_credit: Amount,
    thresholds: CloseThresholds,
    now: UtcInstant,
) -> Option<Seq<char>> {
    if config.force_flatten {
        Some("manual_flatten"@)
    } else if entry.debit is None {
        None
    } else if thresholds.profit_target.at_most(close_credit) {
        Some("profit_target"@)
    } else if config.stop_loss_close_multiple.above_zero() && close_credit.at_most(
        thresholds.stop_loss,
    ) {
        Some("stop_loss"@)
    } else if held_out(entry, config.max_hold_secs, now) {
        Some("max_hold"@)
    } else if expires_within(
        spread_expiration_days(entry, now.utc_day()),
        config.expiration_exit_days,
    ) {
        Some("expiration_risk"@)
    } else {
        None
    }
}

/// The reason to close an entry; a debit spread closes for the negative of its close debit.
pub open spec fn close_trigger(
    config: AlpacaOptionsManagementConfig,
    entry: StrategyStateEntry,
    close_debit: Amount,
    thresholds: CloseThresholds,
    now: UtcInstant,
) -> Option<Seq<char>> {
    if entry.debit_spread() {
        debit_trigger(config, entry, close_debit.negated_spec(), thresholds, now)
    } else {
        credit_trigger(config.credit_part(), entry, close_debit, thresholds, now)
    }
}

/// Returns the age in seconds from the state entry's recorded timestamp.
#[must_use]
pub fn recorded_age_secs(entry: &StrategyStateEntry, now: UtcInstant) -> (age: Option<u64>)
    requires
        now.valid(),
    ensures
        match age {
            Some(secs) => text_age_secs(entry.recorded_at_utc@, now) == Some(secs as int),
            None => text_age_secs(entry.recorded_at_utc@, now) is None,
        },
{
    age_secs_from_rfc3339(entry.recorded_at_utc.as_str(), now)
}

fn within_limit(days: Option<i64>, limit: i64) -> (yes: bool)
    ensures
        yes == expires_within(
            match days {
                Some(n) => Some(n as int),
                None => None,
            },
            limit,
        ),
{
    limit >= 0 && match days {
        Some(n) => n <= limit,
        None => false,
    }
}

/// Evaluates whether a credit spread should be closed at the current debit. The thresholds are the
/// entry credit times the profit-target fraction and times the stop-loss multiple.
#[must_use]
pub fn credit_spread_close_reason(
    config: &CreditSpreadManagementConfig,
    entry: &StrategyStateEntry,
    close_debit: Amount,
    thresholds: &CloseThresholds,
    now: UtcInstant,
) -> (reason: Option<&'static str>)
    requires
        now.valid(),
    ensures
        crate::text::opt_slice(reason) == credit_trigger(*config, *entry, close_debit, *thresholds, now),
{
    if config.force_flatten {
        return Some("manual_flatten");
    }
    if close_debit.is_at_most(thresholds.profit_target) {
        return Some("profit_target");
    }
    if thresholds.stop_loss.is_at_most(close_debit) {
        return Some("stop_loss");
    }
    if held_to_limit(entry, config.max_hold_secs, now) {
        return Some("max_hold");
    }
    let today: i64 = utc_day_of(now);
    if within_limit(
        days_to_expiration(entry.short_symbol.as_str(), today),
        config.expiration_exit_days,
    ) {
        return Some("expiration_risk");
    }
    None
}

/// Returns the days to expiration of the short leg, else of the long leg.
pub fn entry_days_to_expiration(entry: &StrategyStateEntry, today: i64) -> (days: Option<i64>)
    requires
        -0x1000_0000_0000_0000 <= today <= 0x1000_0000_0000_0000,
    ensures
        match days {
            Some(n) => spread_expiration_days(*entry, today as int) == Some(n as int),
            None => spread_expiration_days(*entry, today as int) is None,
        },
{
    match days_to_expiration(entry.short_symbol.as_str(), today) {
        Some(days) => Some(days),
        None => days_to_expiration(entry.long_symbol.as_str(), today),
    }
}

fn held_to_limit(entry: &StrategyStateEntry, max_hold_secs: u64, now: UtcInstant) -> (yes: bool)
    requires
        now.valid(),
    ensures
        yes == held_out(*entry, max_hold_secs, now),
{
    max_hold_secs > 0 && match recorded_age_secs(entry, now) {
        Some(age) => age >= max_hold_secs,
        None => false,
    }
}

/// Evaluates whether a debit spread should be closed for the current credit. The thresholds are the
/// entry debit times one plus the profit-target fraction, and divided by the stop-loss multiple.
#[must_use]
pub fn debit_spread_close_reason(
    config: &AlpacaOptionsManagementConfig,
    entry: &StrategyStateEntry,
    close_credit: Amount,
    thresholds: &CloseThresholds,
    now: UtcInstant,
) -> (reason: Option<String>)
    requires
        now.valid(),
    ensures
        opt_text(reason) == debit_trigger(*config, *entry, close_credit, *thresholds, now),
{
    if config.force_flatten {
        return Some("manual_flatten".to_owned());
    }
    if entry.entry_debit().is_none() {
        return None;
    }
    if thresholds.profit_target.is_at_most(close_credit) {
        return Some("profit_target".to_owned());
    }
    if config.stop_loss_close_multiple.is_above_zero() && close_credit.is_at_most(
        thresholds.stop_loss,
    ) {
        return Some("stop_loss".to_owned());
    }
    if held_to_limit(entry, config.max_hold_secs, now) {
        return Some("max_hold".to_owned());
    }
    let today: i64 = utc_day_of(now);
    if within_limit(entry_days_to_expiration(entry, today), config.expiration_exit_days) {
        return Some("expiration_risk".to_owned());
    }
    None
}

/// Returns the close reason for one active entry.
#[must_use]
pub fn close_reason(
    config: &AlpacaOptionsManagementConfig,
    entry: &StrategyStateEntry,
    close_debit: Amount,
    thresholds: &CloseThresholds,
    now: UtcInstant,
) -> (reason: Option<String>)
    requires
        now.valid(),
    ensures
        opt_text(reason) == close_trigger(*config, *entry, close_debit, *thresholds, now),
{
    if entry.is_debit_spread() {
        debit_spread_close_reason(config, entry, close_debit.negated(), thresholds, now)
    } else {
        match credit_spread_close_reason(
            &config.credit_config(),
            entry,
            close_debit,
            thresholds,
            now,
        ) {
            Some(reason) => Some(reason.to_owned()),
            None => None,
        }
    }
}

// ---------------------------------------------------------------------------------------------
// Close gates
// ---------------------------------------------------------------------------------------------

/// Whether an entry has used up its close attempts.
pub open spec fn attempts_used_up(config: AlpacaOptionsManagementConfig, entry: StrategyStateEntry) -> bool {
    !config.force_flatten && config.max_close_attempts > 0 && entry.close_attempts
        >= config.max_close_attempts
}

/// The seconds until a close may be submitted again.
pub open spec fn cooldown_left(
    config: AlpacaOptionsManagementConfig,
    entry: StrategyStateEntry,
    now: UtcInstant,
) -> Option<int> {
    if config.force_flatten || config.close_reprice_cooldown_secs == 0 {
        None
    } else {
        match entry.last_close_submitted_at_utc {
            Some(text) => match text_age_secs(text@, now) {
                Some(age) => if age < config.close_reprice_cooldown_secs {
                    Some(config.close_reprice_cooldown_secs - age)
                } else {
                    None
                },
                None => None,
            },
            None => None,
        }
    }
}

/// Returns `true` when close attempts are exhausted.
#[must_use]
pub fn close_attempts_exhausted(
    config: &AlpacaOptionsManagementConfig,
    entry: &StrategyStateEntry,
) -> (exhausted: bool)
    ensures
        exhausted == attempts_used_up(*config, *entry),
{
    !config.force_flatten && config.max_close_attempts > 0 && entry.close_attempts
        >= config.max_close_attempts
}

/// Returns reprice cooldown seconds remaining, if a close replacement is blocked.
#[must_use]
pub fn close_reprice_cooldown_remaining_secs(
    config: &AlpacaOptionsManagementConfig,
    entry: &StrategyStateEntry,
    now: UtcInstant,
) -> (remaining: Option<u64>)
    requires
        now.valid(),
    ensures
        match remaining {
            Some(secs) => cooldown_left(*config, *entry, now) == Some(secs as int) && secs > 0,
            None => cooldown_left(*config, *entry, now) is None,
        },
{
    if config.force_flatten || config.close_reprice_cooldown_secs == 0 {
        return None;
    }
    match &entry.last_close_submitted_at_utc {
        Some(text) => match age_secs_from_rfc3339(text.as_str(), now) {
            Some(age) => {
                if age < config.close_reprice_cooldown_secs {
                    Some(config.close_reprice_cooldown_secs - age)
                } else {
                    None
                }
            },
            None => None,
        },
        None => None,
    }
}

/// Returns the bounded close price cushion for the next close submission attempt. `stepped` is the
/// configured cushion plus the reprice step times the attempts so far.
#[must_use]
pub fn close_price_cushion_for_attempt(
    config: &AlpacaOptionsManagementConfig,
    stepped: Amount,
) -> (cushion: Amount)
    ensures
        cushion == bounded_cushion(*config, stepped),
{
    stepped.larger(Amount { bits: 0 }).smaller(
        config.max_close_price_cushion.larger(config.close_price_cushion),
    )
}

/// A cushion between zero and the larger of the configured cushion and its maximum.
pub open spec fn bounded_cushion(config: AlpacaOptionsManagementConfig, stepped: Amount) -> Amount {
    stepped.larger_of(Amount { bits: 0 }).smaller_of(
        config.max_close_price_cushion.larger_of(config.close_price_cushion),
    )
}

/// The close cushion never goes past the configured maximum, and never below zero unless both
/// configured cushions do.
pub proof fn cushion_stays_in_bounds(config: AlpacaOptionsManagementConfig, stepped: Amount)
    requires
        !config.max_close_price_cushion.is_nan(),
        !config.close_price_cushion.is_nan(),
    ensures
        bounded_cushion(config, stepped).at_most(
            config.max_close_price_cushion.larger_of(config.close_price_cushion),
        ),
        config.max_close_price_cushion.rank() >= 0 || config.close_price_cushion.rank() >= 0
            ==> bounded_cushion(config, stepped).rank() >= 0,
{
}

/// The close cushion never shrinks as the stepped cushion grows.
pub proof fn cushion_grows_with_the_step(
    config: AlpacaOptionsManagementConfig,
    one: Amount,
    two: Amount,
)
    requires
        !config.max_close_price_cushion.is_nan(),
        !config.close_price_cushion.is_nan(),
        one.at_most(two),
    ensures
        bounded_cushion(config, one).at_most(bounded_cushion(config, two)),
{
}

/// Where the configured cushion lies between zero and its maximum, the close cushion is a ladder
/// between the two: it starts at the configured cushion, and attempts whose stepped cushions grow from
/// there climb from it and stop at the maximum. `one` and `two` are the stepped cushions of an earlier
/// and a later attempt.
pub proof fn cushion_climbs_to_its_maximum(
    config: AlpacaOptionsManagementConfig,
    one: Amount,
    two: Amount,
)
    requires
        (Amount { bits: 0 }).at_most(config.close_price_cushion),
        config.close_price_cushion.at_most(config.max_close_price_cushion),
        config.close_price_cushion.at_most(one),
        one.at_most(two),
    ensures
        bounded_cushion(config, config.close_price_cushion) == config.close_price_cushion,
        config.close_price_cushion.at_most(bounded_cushion(config, one)),
        bounded_cushion(config, one).at_most(bounded_cushion(config, two)),
        bounded_cushion(config, two).at_most(config.max_close_price_cushion),
{
}

/// A forced flatten closes every entry that a price can be had for and passes every close gate.
pub proof fn flatten_overrides_the_close_gates(
    config: AlpacaOptionsManagementConfig,
    entry: StrategyStateEntry,
    close_debit: Amount,
    thresholds: CloseThresholds,
    now: UtcInstant,
)
    requires
        config.force_flatten,
    ensures
        close_trigger(config, entry, close_debit, thresholds, now) == Some("manual_flatten"@),
        !attempts_used_up(config, entry),
        cooldown_left(config, entry, now) is None,
        config.close_allowed(now),
{
}

/// Returns all Alpaca option instrument IDs needed for management quotes, each once and in symbol
/// order; there are none when a leg has no instrument ID.
pub fn management_instrument_ids(entry: &StrategyStateEntry) -> (ids: Option<Vec<String>>)
    ensures
        ids is Some <==> (forall|i: int|
            0 <= i < entry.leg_symbols().len() ==> is_visible(#[trigger] entry.leg_symbols()[i])),
        ids matches Some(found) ==> exists|legs: TextSet|
            #![trigger legs.wf()]
            legs.wf() && (forall|x: Seq<char>|
                #[trigger] legs.has(x) <==> entry.leg_symbols().contains(x)) && found@.len()
                == legs@.len() && (forall|i: int|
                0 <= i < legs@.len() ==> (#[trigger] found@[i])@ == instrument_chars(legs@[i])),
{
    let symbols = entry.symbols();
    let mut owned: Vec<String> = Vec::new();
    for i in 0..symbols.len()
        invariant
            texts(owned@) == slices(symbols@).take(i as int),
    {
        let ghost before = owned@;
        owned.push(symbols[i].to_owned());
        proof {
            assert(texts(owned@) =~= texts(before).push(symbols@[i as int]@));
            assert(slices(symbols@).take(i + 1) =~= slices(symbols@).take(i as int).push(
                symbols@[i as int]@,
            ));
        }
    }
    assert(slices(symbols@).take(symbols@.len() as int) =~= slices(symbols@));
    let legs = TextSet::from_texts(&owned);
    let sorted = legs.to_texts();
    let mut ids: Vec<String> = Vec::new();
    let n: usize = sorted.len();
    for i in 0..n
        invariant
            n == sorted@.len(),
            texts(sorted@) == legs@,
            forall|x: Seq<char>| #[trigger] legs.has(x) <==> entry.leg_symbols().contains(x),
            ids@.len() == i,
            forall|k: int| 0 <= k < i ==> is_visible(#[trigger] legs@[k]),
            forall|k: int| 0 <= k < i ==> (#[trigger] ids@[k])@ == instrument_chars(legs@[k]),
    {
        match alpaca_instrument_id(sorted[i].as_str()) {
            Some(id) => {
                assert(is_visible(legs@[i as int]));
                ids.push(id);
            },
            None => {
                proof {
                    assert(texts(sorted@)[i as int] == legs@[i as int]);
                    assert(legs.has(legs@[i as int]));
                    let k = entry.leg_symbols().index_of(legs@[i as int]);
                    assert(!is_visible(entry.leg_symbols()[k]));
                }
                return None;
            },
        }
    }
    proof {
        assert(texts(sorted@).len() == legs@.len());
        assert forall|i: int| 0 <= i < entry.leg_symbols().len() implies is_visible(
            #[trigger] entry.leg_symbols()[i],
        ) by {
            let x = entry.leg_symbols()[i];
            assert(entry.leg_symbols().contains(x));
            assert(legs.has(x));
            let k = legs@.index_of(x);
            assert(is_visible(legs@[k]));
        }
        assert(legs.wf());
    }
    Some(ids)
}

} // verus!
