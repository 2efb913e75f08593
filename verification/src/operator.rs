//! Operator commands.
use vstd::prelude::*;

use crate::broker::AlpacaAccount;
use crate::broker::AlpacaOrder;
use crate::broker::AlpacaPosition;
use crate::calendar::date_chars;
use crate::calendar::date_text;
use crate::calendar::CalendarDate;
use crate::evidence::chars_or;
use crate::preview::count_multi_leg_orders;
use crate::preview::multi_leg_orders;
use crate::status::account_status;
use crate::status::count_asset_class;
use crate::status::is_set;
use crate::status::leg_total;
use crate::status::nested_leg_count;
use crate::status::positions_of;
use crate::text::bool_chars;
use crate::text::bool_text;
use crate::text::count_text;
use crate::text::decimal;
use crate::text::opt_text;
use crate::text::texts;

verus! {

/// Operator commands.
#[derive(Clone, Copy, Debug, PartialEq, Eq, Structural)]
pub enum AlpacaOperatorCommand {
    /// Prints supervised runtime status.
    Status,
    /// Checks the broker account, positions, and open orders.
    Account,
    /// Summarizes the configured Alpaca account fleet.
    Fleet,
    /// Emits candidate alerts from the operational store.
    CandidateAlerts,
    /// Builds performance reports from broker fills and operational ledgers.
    Performance,
    /// Replays candidate evidence against historical Alpaca option bars.
    Replay,
    /// Syncs operational strategy state to configured local state files.
    SyncState,
    /// Loads option contracts through the Alpaca data API.
    OptionContracts,
    /// Loads option snapshots through the Alpaca data API.
    OptionSnapshots,
    /// Probes REST-backed order/fill/position reconciliation.
    Reconciliation,
    /// Probes trade-update WebSocket authorization and listening.
    TradeUpdates,
}

/// A text, or `unknown`.
pub open spec fn known(value: Option<String>) -> Seq<char> {
    chars_or(opt_text(value), "unknown"@)
}

/// The line of an account.
pub open spec fn account_chars(account: AlpacaAccount) -> Seq<char> {
    "account: status="@ + known(account.status) + " currency="@ + known(account.currency)
        + " trading_blocked="@ + bool_chars(is_set(account.trading_blocked))
        + " transfers_blocked="@ + bool_chars(is_set(account.transfers_blocked))
        + " account_blocked="@ + bool_chars(is_set(account.account_blocked))
        + " trade_suspended_by_user="@ + bool_chars(is_set(account.trade_suspended_by_user))
        + " buying_power="@ + known(account.buying_power) + " options_buying_power="@ + known(
        account.options_buying_power,
    ) + " portfolio_value="@ + known(account.portfolio_value) + " cash="@ + known(account.cash)
}

/// The line of the positions.
pub open spec fn positions_chars(positions: Seq<AlpacaPosition>) -> Seq<char> {
    "positions: total="@ + decimal(positions.len()) + " options="@ + decimal(
        positions_of(positions, "us_option"@).len(),
    ) + " equities="@ + decimal(positions_of(positions, "us_equity"@).len())
}

/// The line of the orders.
pub open spec fn orders_chars(orders: Seq<AlpacaOrder>) -> Seq<char> {
    "orders: open="@ + decimal(orders.len()) + " mleg="@ + decimal(multi_leg_orders(orders).len())
        + " nested_legs="@ + decimal(leg_total(orders))
}

/// Writes the account, the positions and the open orders as lines.
pub fn account_order_lines(
    account: &AlpacaAccount,
    positions: &Vec<AlpacaPosition>,
    orders: &Vec<AlpacaOrder>,
) -> (lines: Vec<String>)
    requires
        leg_total(orders@) <= usize::MAX,
    ensures
        texts(lines@) == seq![
            account_chars(*account),
            positions_chars(positions@),
            orders_chars(orders@),
        ],
{
    let shown = account_status(account);
    let mut lines: Vec<String> = Vec::new();
    lines.push(
        "account: status=".to_owned().concat(shown.status.as_str()).concat(" currency=").concat(
            shown.currency.as_str(),
        ).concat(" trading_blocked=").concat(bool_text(shown.trading_blocked)).concat(
            " transfers_blocked=",
        ).concat(bool_text(shown.transfers_blocked)).concat(" account_blocked=").concat(
            bool_text(shown.account_blocked),
        ).concat(" trade_suspended_by_user=").concat(
            bool_text(shown.trade_suspended_by_user),
        ).concat(" buying_power=").concat(shown.buying_power.as_str()).concat(
            " options_buying_power=",
        ).concat(shown.options_buying_power.as_str()).concat(" portfolio_value=").concat(
            shown.portfolio_value.as_str(),
        ).concat(" cash=").concat(shown.cash.as_str()),
    );
    lines.push(
        "positions: total=".to_owned().concat(count_text(positions.len()).as_str()).concat(
            " options=",
        ).concat(count_text(count_asset_class(positions, "us_option")).as_str()).concat(
            " equities=",
        ).concat(count_text(count_asset_class(positions, "us_equity")).as_str()),
    );
    lines.push(
        "orders: open=".to_owned().concat(count_text(orders.len()).as_str()).concat(
            " mleg=",
        ).concat(count_text(count_multi_leg_orders(orders)).as_str()).concat(
            " nested_legs=",
        ).concat(count_text(nested_leg_count(orders)).as_str()),
    );
    assert(texts(lines@) =~= seq![
        account_chars(*account),
        positions_chars(positions@),
        orders_chars(orders@),
    ]);
    lines
}

/// What a snapshot of an option holds.
#[derive(Clone, Copy, Debug, PartialEq, Eq, Structural)]
pub struct SnapshotFacts {
    /// Whether it has a valid quote.
    pub valid_quote: bool,
    /// Whether it has greeks or an implied volatility.
    pub greek_inputs: bool,
    /// Whether it has a delta.
    pub delta: bool,
    /// Whether it has an implied volatility.
    pub implied_volatility: bool,
}

/// The snapshots that pass a test.
pub open spec fn snapshots_with(
    snapshots: Seq<SnapshotFacts>,
    pass: spec_fn(SnapshotFacts) -> bool,
) -> nat {
    snapshots.filter(pass).len()
}

/// The line of the snapshots of an underlying.
pub open spec fn snapshot_chars(
    underlying: Seq<char>,
    requested: nat,
    contract_limit: nat,
    snapshots: Seq<SnapshotFacts>,
) -> Seq<char> {
    underlying + ": requested "@ + decimal(requested) + " snapshots from "@ + decimal(contract_limit)
        + " contracts; snapshots="@ + decimal(snapshots.len()) + ", quotes="@ + decimal(
        snapshots_with(snapshots, |facts: SnapshotFacts| facts.valid_quote),
    ) + ", greeks_or_iv="@ + decimal(
        snapshots_with(snapshots, |facts: SnapshotFacts| facts.greek_inputs),
    ) + ", delta="@ + decimal(snapshots_with(snapshots, |facts: SnapshotFacts| facts.delta))
        + ", iv="@ + decimal(
        snapshots_with(snapshots, |facts: SnapshotFacts| facts.implied_volatility),
    )
}

/// Writes the line of the snapshots of an underlying.
pub fn option_snapshot_line(
    underlying: &str,
    requested: usize,
    contract_limit: usize,
    snapshots: &Vec<SnapshotFacts>,
) -> (line: String)
    ensures
        line@ == snapshot_chars(
            underlying@,
            requested as nat,
            contract_limit as nat,
            snapshots@,
        ),
{
    let mut quotes: usize = 0;
    let mut greeks: usize = 0;
    let mut deltas: usize = 0;
    let mut volatilities: usize = 0;
    let n: usize = snapshots.len();
    for i in 0..n
        invariant
            n == snapshots@.len(),
            quotes <= i,
            greeks <= i,
            deltas <= i,
            volatilities <= i,
            quotes == snapshots_with(
                snapshots@.take(i as int),
                |facts: SnapshotFacts| facts.valid_quote,
            ),
            greeks == snapshots_with(
                snapshots@.take(i as int),
                |facts: SnapshotFacts| facts.greek_inputs,
            ),
            deltas == snapshots_with(
                snapshots@.take(i as int),
                |facts: SnapshotFacts| facts.delta,
            ),
            volatilities == snapshots_with(
                snapshots@.take(i as int),
                |facts: SnapshotFacts| facts.implied_volatility,
            ),
    {
        proof {
            crate::text_set::filter_step(
                snapshots@,
                i as int,
                |facts: SnapshotFacts| facts.valid_quote,
            );
            crate::text_set::filter_step(
                snapshots@,
                i as int,
                |facts: SnapshotFacts| facts.greek_inputs,
            );
            crate::text_set::filter_step(snapshots@, i as int, |facts: SnapshotFacts| facts.delta);
            crate::text_set::filter_step(
                snapshots@,
                i as int,
                |facts: SnapshotFacts| facts.implied_volatility,
            );
        }
        if snapshots[i].valid_quote {
            quotes += 1;
        }
        if snapshots[i].greek_inputs {
            greeks += 1;
        }
        if snapshots[i].delta {
            deltas += 1;
        }
        if snapshots[i].implied_volatility {
            volatilities += 1;
        }
    }
    assert(snapshots@.take(n as int) =~= snapshots@);
    underlying.to_owned().concat(": requested ").concat(count_text(requested).as_str()).concat(
        " snapshots from ",
    ).concat(count_text(contract_limit).as_str()).concat(" contracts; snapshots=").concat(
        count_text(n).as_str(),
    ).concat(", quotes=").concat(count_text(quotes).as_str()).concat(", greeks_or_iv=").concat(
        count_text(greeks).as_str(),
    ).concat(", delta=").concat(count_text(deltas).as_str()).concat(", iv=").concat(
        count_text(volatilities).as_str(),
    )
}

/// Returns the underlyings to load snapshots for: those given, or the default ones.
pub fn snapshot_underlyings(args: Vec<String>) -> (underlyings: Vec<String>)
    ensures
        args@.len() > 0 ==> underlyings == args,
        args@.len() == 0 ==> texts(underlyings@) == seq!["SPY"@, "QQQ"@],
{
    if args.len() == 0 {
        let underlyings = vec!["SPY".to_owned(), "QQQ".to_owned()];
        assert(texts(underlyings@) =~= seq!["SPY"@, "QQQ"@]);
        underlyings
    } else {
        args
    }
}

/// The day number of 9999-12-31.
pub const LAST_DAY: i64 = 3_652_059;

/// Returns the date some days after a date.
///
/// Calls `time::Date::from_calendar_date`, which takes every date of the Gregorian calendar in the
/// years -9999 to 9999, and adds a `time::Duration` of whole days, which moves the date by that many
/// days of the calendar and panics beyond 9999-12-31.
#[verifier::external_body]
fn days_after(date: CalendarDate, days: i64) -> (later: CalendarDate)
    requires
        date.valid(),
        -9999 <= date.year <= 9999,
        0 <= days,
        date.day_number() + days <= LAST_DAY,
    ensures
        later.valid(),
        later.day_number() == date.day_number() + days,
{
    let month = time::Month::try_from(date.month as u8).unwrap();
    let start = time::Date::from_calendar_date(date.year, month, date.day as u8).unwrap();
    let later = start + time::Duration::days(days);
    CalendarDate { year: later.year(), month: later.month() as u32, day: later.day() as u32 }
}

/// The number of days that contracts are loaded for.
pub const EXPIRATION_DAYS: i64 = 14;

/// Returns the first and the last expiration that contracts are loaded for: those given, else today
/// and two weeks from today.
pub fn contract_expirations(
    min_expiration: Option<String>,
    max_expiration: Option<String>,
    today: CalendarDate,
) -> (range: (String, String))
    requires
        today.valid(),
        -9999 <= today.year <= 9999,
        max_expiration is None ==> today.day_number() + EXPIRATION_DAYS <= LAST_DAY,
    ensures
        range.0@ == match min_expiration {
            Some(text) => text@,
            None => date_chars(today),
        },
        match max_expiration {
            Some(text) => range.1@ == text@,
            None => exists|last: CalendarDate|
                last.valid() && #[trigger] last.day_number() == today.day_number()
                    + EXPIRATION_DAYS && range.1@ == date_chars(last),
        },
{
    let first = match min_expiration {
        Some(text) => text,
        None => date_text(today),
    };
    let last = match max_expiration {
        Some(text) => text,
        None => {
            let later = days_after(today, EXPIRATION_DAYS);
            assert(later.valid() && later.day_number() == today.day_number() + EXPIRATION_DAYS);
            date_text(later)
        },
    };
    (first, last)
}

} // verus!
