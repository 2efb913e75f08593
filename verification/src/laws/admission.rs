//! Laws of admitting entries.
use vstd::prelude::*;

use crate::admission::admission_block;
use crate::admission::broker_block;
use crate::admission::capital_block;
use crate::admission::duplicate_block;
use crate::admission::entry_gate;
use crate::admission::fleet_sector_block;
use crate::admission::fleet_underlying_block;
use crate::admission::may_submit;
use crate::admission::names_uncovered_permission;
use crate::admission::reason_label;
use crate::admission::risk_gate;
use crate::admission::sector_block;
use crate::admission::shock_block;
use crate::admission::underlying_block;
use crate::admission::BlockView;
use crate::admission::EarningsEvent;
use crate::admission::EntryAdmissionConfig;
use crate::admission::EntryAdmissionSnapshot;
use crate::admission::ReasonClass;
use crate::admission::RiskCapitalFigures;
use crate::broker_view::admission_reasons;
use crate::broker_view::BrokerView;
use crate::calendar::date_in;
use crate::calendar::CalendarDate;
use crate::calendar::UtcInstant;
use crate::entry::SelectedOptionsEntry;
use crate::state::active_entries;
use crate::state::active_in_sector;
use crate::state::active_on;
use crate::state::counted_on;
use crate::state::StrategyState;
use crate::state::StrategyStateEntry;
use crate::text::lower;
use crate::text::opt_text;
use crate::text::upper;
use crate::text_map::TextMap;

verus! {

// ---------------------------------------------------------------------------------------------
// Risk capital
// ---------------------------------------------------------------------------------------------

/// Whether some open entry has no risk-capital estimate.
pub open spec fn some_unestimated(state: StrategyState) -> bool {
    exists|entry: StrategyStateEntry| #[trigger]
        state.entries@.contains(entry) && super::state::open_entry(entry)
            && entry.risk_capital_usd is None
}

/// Whether the risk capital of a candidate is within the limits: its own within that of a single entry,
/// the projected one within that of the portfolio, and nothing unestimated where that is not allowed.
pub open spec fn capital_within_limits(
    config: EntryAdmissionConfig,
    state: StrategyState,
    figures: RiskCapitalFigures,
) -> bool {
    let limited = config.max_single_entry_risk_capital_usd is Some
        || config.max_portfolio_risk_capital_usd is Some;
    match figures.candidate {
        None => !limited || !config.block_unestimated_risk_capital,
        Some(candidate) => {
            &&& config.max_single_entry_risk_capital_usd matches Some(limit)
                ==> !limit.amount.below(candidate.amount)
            &&& config.max_portfolio_risk_capital_usd matches Some(limit) ==> !limit.amount.below(
                figures.projected.amount,
            ) && !(config.block_unestimated_risk_capital && some_unestimated(state))
        },
    }
}

proof fn unestimated_tells(entries: Seq<StrategyStateEntry>)
    ensures
        crate::admission::unestimated(entries).len() > 0 <==> (exists|entry: StrategyStateEntry| #[trigger]
            entries.contains(entry) && super::state::open_entry(entry)
                && entry.risk_capital_usd is None),
{
    let kept = crate::admission::unestimated(entries);
    assert forall|entry: StrategyStateEntry| #[trigger] kept.contains(entry) <==> entries.contains(
        entry,
    ) && super::state::open_entry(entry) && entry.risk_capital_usd is None by {
        crate::text_set::filter_has(
            entries,
            |e: StrategyStateEntry| e.active() && e.risk_capital_usd is None,
            entry,
        );
    }
    if kept.len() > 0 {
        assert(kept.contains(kept[0]));
    }
    if exists|entry: StrategyStateEntry| #[trigger]
        entries.contains(entry) && super::state::open_entry(entry)
            && entry.risk_capital_usd is None {
        let entry = choose|entry: StrategyStateEntry| #[trigger]
            entries.contains(entry) && super::state::open_entry(entry)
                && entry.risk_capital_usd is None;
        assert(kept.contains(entry));
    }
}

/// The risk-capital gate lets a candidate through exactly when its risk capital is within the limits,
/// each of the limits by itself.
pub proof fn risk_capital_stays_within_its_limits(
    config: EntryAdmissionConfig,
    state: StrategyState,
    selected: SelectedOptionsEntry,
    figures: RiskCapitalFigures,
)
    ensures
        capital_block(config, state, selected, figures) is None <==> capital_within_limits(
            config,
            state,
            figures,
        ),
{
    unestimated_tells(state.entries@);
}

/// An admitted entry keeps the portfolio within its limit, whether or not single entries have a limit
/// of their own: the projected risk capital is not above the limit, and no open entry is unestimated
/// where that blocks.
pub proof fn admitted_entries_keep_the_portfolio_within_its_limit(
    config: EntryAdmissionConfig,
    state: StrategyState,
    selected: SelectedOptionsEntry,
    trade_date: Seq<char>,
    snapshot: EntryAdmissionSnapshot,
    figures: RiskCapitalFigures,
)
    requires
        admission_block(config, state, selected, trade_date, snapshot, figures) is None,
        figures.candidate is Some,
    ensures
        config.max_portfolio_risk_capital_usd matches Some(limit) ==> !limit.amount.below(
            figures.projected.amount,
        ),
        config.max_portfolio_risk_capital_usd is Some && config.block_unestimated_risk_capital
            ==> !some_unestimated(state),
        config.max_single_entry_risk_capital_usd matches Some(limit) ==> !limit.amount.below(
            figures.candidate->0.amount,
        ),
{
    unestimated_tells(state.entries@);
}

/// What is over a limit is named: the candidate's own risk capital before the portfolio's.
pub proof fn capital_blocks_name_the_limit(
    config: EntryAdmissionConfig,
    state: StrategyState,
    selected: SelectedOptionsEntry,
    figures: RiskCapitalFigures,
)
    requires
        figures.candidate is Some,
    ensures
        ({
            let block = capital_block(config, state, selected, figures);
            let over_single = config.max_single_entry_risk_capital_usd matches Some(limit)
                && limit.amount.below(figures.candidate->0.amount);
            let over_portfolio = config.max_portfolio_risk_capital_usd matches Some(limit)
                && limit.amount.below(figures.projected.amount);
            let unknown = config.max_portfolio_risk_capital_usd is Some
                && config.block_unestimated_risk_capital && some_unestimated(state);
            &&& over_single ==> block->0.reason == "risk_max_single_entry_risk_capital"@
            &&& !over_single && unknown ==> block->0.reason == "risk_capital_unestimated"@
            &&& !over_single && !unknown && over_portfolio ==> block->0.reason
                == "risk_max_portfolio_risk_capital"@
            &&& block is Some <==> over_single || unknown || over_portfolio
        }),
{
    unestimated_tells(state.entries@);
}

/// A higher limit never blocks a candidate that a lower one lets through.
pub proof fn higher_portfolio_limits_admit_more(
    lower: EntryAdmissionConfig,
    higher: EntryAdmissionConfig,
    state: StrategyState,
    selected: SelectedOptionsEntry,
    figures: RiskCapitalFigures,
)
    requires
        lower.max_portfolio_risk_capital_usd is Some,
        higher.max_portfolio_risk_capital_usd is Some,
        lower.max_portfolio_risk_capital_usd->0.amount.at_most(
            higher.max_portfolio_risk_capital_usd->0.amount,
        ),
        higher == (EntryAdmissionConfig {
            max_portfolio_risk_capital_usd: higher.max_portfolio_risk_capital_usd,
            ..lower
        }),
        capital_block(lower, state, selected, figures) is None,
    ensures
        capital_block(higher, state, selected, figures) is None,
{
}

// ---------------------------------------------------------------------------------------------
// Counts
// ---------------------------------------------------------------------------------------------

/// Whether a count leaves room under a limit.
pub open spec fn room(count: int, limit: Option<usize>) -> bool {
    limit matches Some(most) ==> count < most
}

/// The count gate lets a candidate through exactly when there is room for an active entry, for a
/// submission on the trade date, for an open order and for an entry of the fleet.
pub proof fn counts_leave_room(
    config: EntryAdmissionConfig,
    state: StrategyState,
    trade_date: Seq<char>,
    snapshot: EntryAdmissionSnapshot,
)
    ensures
        risk_gate(config, state, trade_date, snapshot).as_block() is None <==> {
            &&& room(active_entries(state.entries@).len() as int, config.max_active_entries)
            &&& room(
                counted_on(state.entries@, trade_date).len() as int,
                config.max_daily_submits,
            )
            &&& room(snapshot.open_order_count as int, config.max_open_orders)
            &&& room(config.fleet_active_entries as int, config.fleet_max_active_entries)
        },
{
}

/// Whether a block tells of a count that has reached its limit.
pub open spec fn tells_of_limit(
    block: Option<BlockView>,
    reason: Seq<char>,
    count: int,
    limit: Option<usize>,
) -> bool {
    &&& block matches Some(found) && found.reason == reason && found.limit == limit && found.current
        == Some(count as usize)
    &&& !room(count, limit)
}

/// A block of the count gate tells of the count and the limit that it reached, the first of active
/// entries, submissions of the day, open orders and entries of the fleet.
pub proof fn count_blocks_name_the_limit(
    config: EntryAdmissionConfig,
    state: StrategyState,
    trade_date: Seq<char>,
    snapshot: EntryAdmissionSnapshot,
)
    ensures
        ({
            let block = risk_gate(config, state, trade_date, snapshot).as_block();
            let active = active_entries(state.entries@).len() as int;
            let submits = counted_on(state.entries@, trade_date).len() as int;
            let orders = snapshot.open_order_count as int;
            if !room(active, config.max_active_entries) {
                tells_of_limit(
                    block,
                    "risk_max_active_entries"@,
                    active,
                    config.max_active_entries,
                )
            } else if !room(submits, config.max_daily_submits) {
                tells_of_limit(
                    block,
                    "risk_max_daily_submits"@,
                    submits,
                    config.max_daily_submits,
                )
            } else if !room(orders, config.max_open_orders) {
                tells_of_limit(block, "risk_max_open_orders"@, orders, config.max_open_orders)
            } else {
                block is Some ==> tells_of_limit(
                    block,
                    "fleet_max_active_entries"@,
                    config.fleet_active_entries as int,
                    config.fleet_max_active_entries,
                )
            }
        }),
{
}

/// The sector that an underlying is assigned to, whatever the case of its letters.
pub open spec fn assigned(sectors: TextMap<String>, underlying: Seq<char>) -> Option<Seq<char>> {
    opt_text(sectors.at(upper(underlying)))
}

/// The entries of a fleet that are counted under a name; none are where there is no count.
pub open spec fn fleet_count(counts: TextMap<usize>, name: Seq<char>) -> int {
    match counts.at(name) {
        Some(count) => count as int,
        None => 0,
    }
}

/// Entries are kept to the limits on their underlying and their sector, in the account and in the
/// fleet; where an underlying has no sector, only those on the underlying bind.
pub proof fn underlyings_and_sectors_leave_room(
    config: EntryAdmissionConfig,
    state: StrategyState,
    underlying: Seq<char>,
)
    ensures
        underlying_block(config, state, underlying) is None <==> room(
            active_on(state.entries@, underlying).len() as int,
            config.max_active_entries_per_underlying,
        ),
        sector_block(config, state, underlying) is None <==> (assigned(config.sectors, underlying)
            matches Some(sector) ==> room(
            active_in_sector(state.entries@, config.sectors, sector).len() as int,
            config.max_active_entries_per_sector,
        )),
        fleet_underlying_block(config, underlying) is None <==> room(
            fleet_count(config.fleet_active_entries_by_underlying, upper(underlying)),
            config.fleet_max_active_entries_per_underlying,
        ),
        fleet_sector_block(config, underlying) is None <==> (assigned(
            config.fleet_sectors,
            underlying,
        ) matches Some(sector) ==> room(
            fleet_count(config.fleet_active_entries_by_sector, sector),
            config.fleet_max_active_entries_per_sector,
        )),
        underlying_block(config, state, underlying) matches Some(found) ==> found.reason
            == "risk_max_active_entries_per_underlying"@ && found.limit
            == config.max_active_entries_per_underlying,
        sector_block(config, state, underlying) matches Some(found) ==> found.reason
            == "risk_max_active_entries_per_sector"@ && found.limit
            == config.max_active_entries_per_sector,
        fleet_underlying_block(config, underlying) matches Some(found) ==> found.reason
            == "fleet_max_active_entries_per_underlying"@ && found.limit
            == config.fleet_max_active_entries_per_underlying,
        fleet_sector_block(config, underlying) matches Some(found) ==> found.reason
            == "fleet_max_active_entries_per_sector"@ && found.limit
            == config.fleet_max_active_entries_per_sector,
{
}

// ---------------------------------------------------------------------------------------------
// Earnings and repetition
// ---------------------------------------------------------------------------------------------

/// Whether a report on an underlying lies from the configured days after it to those before it.
pub open spec fn report_is_near(
    config: EntryAdmissionConfig,
    event: EarningsEvent,
    date: CalendarDate,
    underlying: Seq<char>,
) -> bool {
    &&& event.underlying@ == upper(underlying)
    &&& event.report_date.valid()
    &&& event.report_date.day_number() <= date.day_number()
        + config.event_shock_block_days_before_earnings
    &&& date.day_number() <= event.report_date.day_number()
        + config.event_shock_block_days_after_earnings
}

proof fn shock_position_tells(
    config: EntryAdmissionConfig,
    events: Seq<EarningsEvent>,
    date: CalendarDate,
    underlying: Seq<char>,
)
    ensures
        ({
            let at = crate::admission::shock_position(config, events, date, underlying);
            &&& 0 <= at <= events.len()
            &&& at < events.len() ==> report_is_near(config, events[at], date, underlying)
            &&& forall|i: int|
                0 <= i < at ==> !report_is_near(config, #[trigger] events[i], date, underlying)
        }),
    decreases events.len(),
{
    if events.len() > 0 && !crate::admission::shocks(config, events[0], date, underlying) {
        let rest = events.drop_first();
        shock_position_tells(config, rest, date, underlying);
        let at = crate::admission::shock_position(config, events, date, underlying);
        assert forall|i: int| 0 <= i < at implies !report_is_near(
            config,
            #[trigger] events[i],
            date,
            underlying,
        ) by {
            if i > 0 {
                assert(rest[i - 1] == events[i]);
            }
        }
        if at < events.len() {
            assert(rest[at - 1] == events[at]);
        }
    }
}

/// Around an earnings report no entry on the underlying is admitted: from the configured number of days
/// before it to the configured number of days after it, and on no other day.
pub proof fn earnings_block_the_days_around_them(
    config: EntryAdmissionConfig,
    trade_date: Seq<char>,
    underlying: Seq<char>,
)
    ensures
        shock_block(config, trade_date, underlying) is Some <==> (date_in(trade_date) matches Some(date)
            && exists|event: EarningsEvent| #[trigger]
            config.event_shock_earnings_events@.contains(event) && report_is_near(
                config,
                event,
                date,
                underlying,
            )),
        shock_block(config, trade_date, underlying) matches Some(found) ==> found.reason
            == "event_shock_earnings"@,
{
    let events = config.event_shock_earnings_events@;
    if date_in(trade_date) is Some {
        let date = date_in(trade_date)->0;
        shock_position_tells(config, events, date, underlying);
        let at = crate::admission::shock_position(config, events, date, underlying);
        if at < events.len() {
            assert(events.contains(events[at]));
        }
        if exists|event: EarningsEvent| #[trigger]
            events.contains(event) && report_is_near(config, event, date, underlying) {
            let event = choose|event: EarningsEvent| #[trigger]
                events.contains(event) && report_is_near(config, event, date, underlying);
            assert(events[events.index_of(event)] == event);
        }
    }
}

/// An underlying is entered once a trade date: a second entry is blocked exactly when there is one of
/// that date on it, whatever the case of its letters, that was submitted and not canceled.
pub proof fn underlyings_are_entered_once_a_day(
    state: StrategyState,
    trade_date: Seq<char>,
    underlying: Seq<char>,
)
    ensures
        duplicate_block(state, trade_date, underlying) is Some <==> (exists|
            entry: StrategyStateEntry,
        | #[trigger]
            state.entries@.contains(entry) && entry.submitted && !entry.canceled && entry.trade_date@
                == trade_date && lower(entry.underlying@) == lower(underlying)),
        duplicate_block(state, trade_date, underlying) matches Some(found) ==> found.reason
            == "daily_duplicate_state"@,
{
    let entries = state.entries@;
    assert forall|i: int| 0 <= i < entries.len() implies entries.contains(#[trigger] entries[i]) by {}
    if exists|entry: StrategyStateEntry| #[trigger]
        entries.contains(entry) && entry.submitted && !entry.canceled && entry.trade_date@
            == trade_date && lower(entry.underlying@) == lower(underlying) {
        let entry = choose|entry: StrategyStateEntry| #[trigger]
            entries.contains(entry) && entry.submitted && !entry.canceled && entry.trade_date@
                == trade_date && lower(entry.underlying@) == lower(underlying);
        assert(entries[entries.index_of(entry)] == entry);
        assert(entries[entries.index_of(entry)].risk_counted());
    }
}

/// Whether the broker canceled a naked entry for want of permission.
pub open spec fn refused_naked(state: StrategyState) -> bool {
    exists|entry: StrategyStateEntry| #[trigger]
        state.entries@.contains(entry) && entry.canceled && super::closing::named_naked(entry)
            && opt_text(entry.close_reason) == Some("entry_rejected_uncovered_option_permission"@)
}

proof fn refused_naked_tells(state: StrategyState)
    ensures
        crate::admission::permission_refused(state) == refused_naked(state),
{
    let entries = state.entries@;
    assert forall|i: int| 0 <= i < entries.len() implies entries.contains(#[trigger] entries[i]) by {}
    if refused_naked(state) {
        let entry = choose|entry: StrategyStateEntry| #[trigger]
            entries.contains(entry) && entry.canceled && super::closing::named_naked(entry)
                && opt_text(entry.close_reason) == Some(
                "entry_rejected_uncovered_option_permission"@,
            );
        assert(entries[entries.index_of(entry)] == entry);
        assert(entries[entries.index_of(entry)].canceled);
    }
}

/// An entry is admitted exactly when no gate stands against it: the broker has not refused a naked
/// entry where this is one, every count leaves room, no earnings report is near, the risk capital is
/// within its limits, its underlying was not entered that day, and the broker has no reason against
/// it.
pub proof fn entries_are_admitted_when_nothing_stands_against_them(
    config: EntryAdmissionConfig,
    state: StrategyState,
    selected: SelectedOptionsEntry,
    trade_date: Seq<char>,
    snapshot: EntryAdmissionSnapshot,
    figures: RiskCapitalFigures,
)
    ensures
        admission_block(config, state, selected, trade_date, snapshot, figures) is None <==> {
            let underlying = selected.underlying_chars();
            &&& !(selected is NakedOption && refused_naked(state))
            &&& room(active_entries(state.entries@).len() as int, config.max_active_entries)
            &&& room(
                counted_on(state.entries@, trade_date).len() as int,
                config.max_daily_submits,
            )
            &&& room(snapshot.open_order_count as int, config.max_open_orders)
            &&& room(config.fleet_active_entries as int, config.fleet_max_active_entries)
            &&& !(date_in(trade_date) matches Some(date) && exists|event: EarningsEvent| #[trigger]
                config.event_shock_earnings_events@.contains(event) && report_is_near(
                    config,
                    event,
                    date,
                    underlying,
                ))
            &&& capital_within_limits(config, state, figures)
            &&& room(
                active_on(state.entries@, underlying).len() as int,
                config.max_active_entries_per_underlying,
            )
            &&& assigned(config.sectors, underlying) matches Some(sector) ==> room(
                active_in_sector(state.entries@, config.sectors, sector).len() as int,
                config.max_active_entries_per_sector,
            )
            &&& room(
                fleet_count(config.fleet_active_entries_by_underlying, upper(underlying)),
                config.fleet_max_active_entries_per_underlying,
            )
            &&& assigned(config.fleet_sectors, underlying) matches Some(sector) ==> room(
                fleet_count(config.fleet_active_entries_by_sector, sector),
                config.fleet_max_active_entries_per_sector,
            )
            &&& !(exists|entry: StrategyStateEntry| #[trigger]
                state.entries@.contains(entry) && entry.submitted && !entry.canceled
                    && entry.trade_date@ == trade_date && lower(entry.underlying@) == lower(
                    underlying,
                ))
            &&& snapshot.broker_admission_reasons@.len() == 0
        },
{
    let underlying = selected.underlying_chars();
    refused_naked_tells(state);
    counts_leave_room(config, state, trade_date, snapshot);
    earnings_block_the_days_around_them(config, trade_date, underlying);
    risk_capital_stays_within_its_limits(config, state, selected, figures);
    underlyings_and_sectors_leave_room(config, state, underlying);
    underlyings_are_entered_once_a_day(state, trade_date, underlying);
}

// ---------------------------------------------------------------------------------------------
// Account gates
// ---------------------------------------------------------------------------------------------

/// The account is open to entries exactly when the kill switch is off and the entry window is open or
/// ignored; the kill switch is told first.
pub proof fn accounts_open_to_entries(config: EntryAdmissionConfig, now: UtcInstant)
    ensures
        entry_gate(config, now) is Continue <==> !config.kill_switch && (config.ignore_entry_window
            || config.entry_window.open_at(now)),
        entry_gate(config, now) is KillSwitch <==> config.kill_switch,
{
}

/// A strategy submits exactly when submission is on and the strategy is not one to try only.
pub proof fn tried_strategies_never_submit(config: EntryAdmissionConfig, strategy: Seq<char>)
    ensures
        may_submit(config, strategy) <==> config.submit_enabled
            && !config.dry_run_strategy_family_names.has(strategy),
{
}

// ---------------------------------------------------------------------------------------------
// Broker reasons
// ---------------------------------------------------------------------------------------------

/// Reasons of the broker block, and the block tells them all.
pub proof fn broker_reasons_block(reasons: Seq<Seq<char>>)
    ensures
        broker_block(reasons) is None <==> reasons.len() == 0,
        broker_block(reasons) matches Some(found) ==> found.details == reasons && found.reason
            == reason_label(reasons),
{
}

/// Whether a reason says that the account may not trade.
pub open spec fn says_untradable(reason: Seq<char>) -> bool {
    ||| reason == "account trading_blocked is true"@
    ||| reason == "account_blocked is true"@
    ||| reason == "trade_suspended_by_user is true"@
    ||| exists|rest: Seq<char>| reason == #[trigger] ("account status is "@ + rest)
}

/// Whether a reason says that the account lacks an options level or buying power.
pub open spec fn says_insufficient(reason: Seq<char>) -> bool {
    ||| exists|rest: Seq<char>| reason == #[trigger] ("options_trading_level_"@ + rest)
    ||| exists|rest: Seq<char>| reason == #[trigger] ("options_approved_level_"@ + rest)
    ||| exists|rest: Seq<char>| reason == #[trigger] ("max_options_trading_level_"@ + rest)
    ||| reason == "options_buying_power_non_positive"@
}

/// Whether a reason tells of an assignment, an exercise, or a poll for them that failed.
pub open spec fn says_lifecycle(reason: Seq<char>) -> bool {
    ||| exists|rest: Seq<char>| reason == #[trigger] ("lifecycle_activity_poll_failed"@ + rest)
    ||| exists|rest: Seq<char>| reason == #[trigger] ("assignment activity "@ + rest)
    ||| exists|rest: Seq<char>| reason == #[trigger] ("exercise activity "@ + rest)
}

proof fn beginnings_split(whole: Seq<char>, part: Seq<char>)
    ensures
        crate::text::begins_with(whole, part) <==> (exists|rest: Seq<char>| whole == #[trigger] (
        part + rest)),
{
    if crate::text::begins_with(whole, part) {
        let rest = whole.skip(part.len() as int);
        assert(whole =~= part + rest);
    }
    if exists|rest: Seq<char>| whole == #[trigger] (part + rest) {
        let rest = choose|rest: Seq<char>| whole == #[trigger] (part + rest);
        assert(whole.subrange(0, part.len() as int) =~= part);
    }
}

proof fn classes_tell(reason: Seq<char>)
    ensures
        crate::admission::in_class(ReasonClass::AccountState, reason) == says_untradable(reason),
        crate::admission::in_class(ReasonClass::OptionsLevel, reason) == says_insufficient(reason),
        crate::admission::in_class(ReasonClass::Lifecycle, reason) == says_lifecycle(reason),
{
    beginnings_split(reason, "account status is "@);
    beginnings_split(reason, "options_trading_level_"@);
    beginnings_split(reason, "options_approved_level_"@);
    beginnings_split(reason, "max_options_trading_level_"@);
    beginnings_split(reason, "lifecycle_activity_poll_failed"@);
    beginnings_split(reason, "assignment activity "@);
    beginnings_split(reason, "exercise activity "@);
}

/// Whether one of some reasons begins with a text.
pub open spec fn some_start(reasons: Seq<Seq<char>>, text: Seq<char>) -> bool {
    exists|i: int, rest: Seq<char>|
        0 <= i < reasons.len() && #[trigger] reasons[i] == #[trigger] (text + rest)
}

proof fn starts_tell(reasons: Seq<Seq<char>>, class: ReasonClass, text: Seq<char>)
    requires
        forall|reason: Seq<char>|
            #[trigger] crate::admission::in_class(class, reason) == crate::text::begins_with(
                reason,
                text,
            ),
    ensures
        crate::admission::any_in_class(reasons, class) == some_start(reasons, text),
{
    if crate::admission::any_in_class(reasons, class) {
        let i = choose|i: int|
            0 <= i < reasons.len() && crate::admission::in_class(class, #[trigger] reasons[i]);
        beginnings_split(reasons[i], text);
        let rest = choose|rest: Seq<char>| reasons[i] == #[trigger] (text + rest);
        assert(reasons[i] == text + rest);
    }
    if some_start(reasons, text) {
        let (i, rest) = choose|i: int, rest: Seq<char>|
            0 <= i < reasons.len() && #[trigger] reasons[i] == #[trigger] (text + rest);
        beginnings_split(reasons[i], text);
        assert(crate::admission::in_class(class, reasons[i]));
    }
}

/// A block is named by the most pressing of its reasons: an account that may not trade, one without the
/// level or the buying power for options, an assignment or exercise, symbols that do not belong
/// together, a position on a leg, one on the underlying, an order on a leg, one on the underlying.
pub proof fn blocks_are_named_by_the_most_pressing_reason(reasons: Seq<Seq<char>>)
    ensures
        ({
            let label = reason_label(reasons);
            if exists|i: int| 0 <= i < reasons.len() && says_untradable(#[trigger] reasons[i]) {
                label == "account_not_tradable"@
            } else if exists|i: int|
                0 <= i < reasons.len() && says_insufficient(#[trigger] reasons[i]) {
                label == "options_level_insufficient"@
            } else if exists|i: int| 0 <= i < reasons.len() && says_lifecycle(#[trigger] reasons[i]) {
                label == "account_lifecycle_event"@
            } else if reasons.contains("candidate option symbols must resolve to one underlying"@) {
                label == "invalid_candidate_symbols"@
            } else if some_start(reasons, "existing open position on candidate leg "@) {
                label == "existing_candidate_leg_position"@
            } else if some_start(reasons, "existing open option position on underlying "@) {
                label == "existing_underlying_position"@
            } else if some_start(reasons, "working order already references candidate leg "@) {
                label == "working_candidate_leg_order"@
            } else if some_start(reasons, "working order already references underlying "@) {
                label == "working_underlying_order"@
            } else {
                label == "broker_admission_rejected"@
            }
        }),
{
    let account = ReasonClass::AccountState;
    let level = ReasonClass::OptionsLevel;
    let lifecycle = ReasonClass::Lifecycle;
    let symbols = ReasonClass::CandidateSymbols;
    assert forall|i: int| 0 <= i < reasons.len() implies {
        &&& crate::admission::in_class(account, #[trigger] reasons[i]) == says_untradable(
            reasons[i],
        )
        &&& crate::admission::in_class(level, reasons[i]) == says_insufficient(reasons[i])
        &&& crate::admission::in_class(lifecycle, reasons[i]) == says_lifecycle(reasons[i])
    } by {
        classes_tell(reasons[i]);
    }
    assert(crate::admission::any_in_class(reasons, account) == (exists|i: int|
        0 <= i < reasons.len() && says_untradable(#[trigger] reasons[i])));
    assert(crate::admission::any_in_class(reasons, level) == (exists|i: int|
        0 <= i < reasons.len() && says_insufficient(#[trigger] reasons[i])));
    assert(crate::admission::any_in_class(reasons, lifecycle) == (exists|i: int|
        0 <= i < reasons.len() && says_lifecycle(#[trigger] reasons[i])));
    let line = "candidate option symbols must resolve to one underlying"@;
    if reasons.contains(line) {
        assert(crate::admission::in_class(symbols, reasons[reasons.index_of(line)]));
    }
    starts_tell(
        reasons,
        ReasonClass::LegPosition,
        "existing open position on candidate leg "@,
    );
    starts_tell(
        reasons,
        ReasonClass::UnderlyingPosition,
        "existing open option position on underlying "@,
    );
    starts_tell(
        reasons,
        ReasonClass::LegOrder,
        "working order already references candidate leg "@,
    );
    starts_tell(
        reasons,
        ReasonClass::UnderlyingOrder,
        "working order already references underlying "@,
    );
}

/// A rejection is one for want of permission exactly when it names both the code and the phrase, in any
/// case of letters.
pub proof fn permission_is_named_by_code_and_phrase(before: Seq<char>, reason: Seq<char>)
    requires
        lower(before) == lower(reason),
    ensures
        names_uncovered_permission(before) == names_uncovered_permission(reason),
        names_uncovered_permission(reason) ==> crate::text::holds_part(lower(reason), "40310000"@),
        names_uncovered_permission(reason) <==> crate::text::holds_part(
            lower(reason),
            "40310000"@,
        ) && crate::text::holds_part(
            lower(reason),
            "not eligible to trade uncovered option contracts"@,
        ),
{
}

// ---------------------------------------------------------------------------------------------
// What the broker holds
// ---------------------------------------------------------------------------------------------

/// A candidate is free of reasons exactly when the account has none and the broker neither holds nor
/// works anything on one of its legs or on its underlying.
pub proof fn occupied_candidates_have_reasons(
    account_reasons: Seq<Seq<char>>,
    view: BrokerView,
    entry: SelectedOptionsEntry,
)
    ensures
        admission_reasons(account_reasons, view, entry).len() == 0 <==> {
            &&& account_reasons.len() == 0
            &&& forall|i: int|
                0 <= i < view.positions@.len() ==> !entry.symbols().contains(
                    (#[trigger] view.positions@[i]).symbol@,
                ) && !(view.positions@[i].underlying matches Some(text) && lower(text@) == lower(
                    entry.underlying_chars(),
                ))
            &&& forall|i: int|
                0 <= i < view.orders@.len() ==> !entry.symbols().contains(
                    (#[trigger] view.orders@[i]).symbol@,
                ) && !(view.orders@[i].underlying matches Some(text) && lower(text@) == lower(
                    entry.underlying_chars(),
                ))
        },
{
    legs_tell(view, entry.symbols());
    positions_tell(view.positions@, entry.symbols(), entry.underlying_chars());
    orders_tell(view.orders@, entry.symbols(), entry.underlying_chars());
}

proof fn legs_tell(view: BrokerView, symbols: Seq<Seq<char>>)
    ensures
        crate::broker_view::leg_reasons(view, symbols).len() == 0 <==> {
            &&& forall|i: int|
                0 <= i < view.positions@.len() ==> !symbols.contains(
                    (#[trigger] view.positions@[i]).symbol@,
                )
            &&& forall|i: int|
                0 <= i < view.orders@.len() ==> !symbols.contains(
                    (#[trigger] view.orders@[i]).symbol@,
                )
        },
    decreases symbols.len(),
{
    if symbols.len() > 0 {
        let rest = symbols.drop_last();
        let last = symbols.last();
        legs_tell(view, rest);
        assert(symbols[symbols.len() - 1] == last);
        assert forall|x: Seq<char>| #[trigger] symbols.contains(x) <==> rest.contains(x) || x
            == last by {
            if rest.contains(x) {
                assert(symbols[rest.index_of(x)] == x);
            }
            if symbols.contains(x) && symbols.index_of(x) < rest.len() {
                assert(rest[symbols.index_of(x)] == x);
            }
        }
        if view.holds(last) {
            let i = choose|i: int|
                0 <= i < view.positions@.len() && (#[trigger] view.positions@[i]).symbol@ == last;
            assert(symbols.contains(view.positions@[i].symbol@));
        }
        if view.works(last) {
            let i = choose|i: int|
                0 <= i < view.orders@.len() && (#[trigger] view.orders@[i]).symbol@ == last;
            assert(symbols.contains(view.orders@[i].symbol@));
        }
    }
}

proof fn positions_tell(
    positions: Seq<crate::broker_view::HeldInstrument>,
    symbols: Seq<Seq<char>>,
    underlying: Seq<char>,
)
    ensures
        crate::broker_view::position_reasons(positions, symbols, underlying).len() == 0 <==> (forall|
            i: int,
        |
            0 <= i < positions.len() ==> symbols.contains((#[trigger] positions[i]).symbol@) || !(
            positions[i].underlying matches Some(text) && lower(text@) == lower(underlying))),
    decreases positions.len(),
{
    if positions.len() > 0 {
        let rest = positions.drop_last();
        positions_tell(rest, symbols, underlying);
        assert forall|i: int| 0 <= i < rest.len() implies #[trigger] rest[i] == positions[i] by {}
        assert(forall|i: int| 0 <= i < rest.len() ==> #[trigger] positions[i] == rest[i]);
    }
}

proof fn orders_tell(
    orders: Seq<crate::broker_view::WorkingOrder>,
    symbols: Seq<Seq<char>>,
    underlying: Seq<char>,
)
    ensures
        crate::broker_view::order_reasons(orders, symbols, underlying).len() == 0 <==> (forall|
            i: int,
        |
            0 <= i < orders.len() ==> symbols.contains((#[trigger] orders[i]).symbol@) || !(
            orders[i].underlying matches Some(text) && lower(text@) == lower(underlying))),
    decreases orders.len(),
{
    if orders.len() > 0 {
        let rest = orders.drop_last();
        orders_tell(rest, symbols, underlying);
        assert(forall|i: int| 0 <= i < rest.len() ==> #[trigger] orders[i] == rest[i]);
    }
}

/// A position on a leg of the candidate is among the reasons against it.
pub proof fn held_legs_are_told(
    view: BrokerView,
    entry: SelectedOptionsEntry,
    symbol: Seq<char>,
)
    requires
        entry.symbols().contains(symbol),
        view.holds(symbol),
    ensures
        admission_reasons(Seq::empty(), view, entry).contains(
            "existing open position on candidate leg "@ + symbol,
        ),
{
    let all = crate::broker_view::leg_reasons(view, entry.symbols());
    held_leg_is_told(view, entry.symbols(), symbol);
    let reasons = admission_reasons(Seq::empty(), view, entry);
    let i = all.index_of("existing open position on candidate leg "@ + symbol);
    assert(reasons[i] == all[i]);
}

proof fn held_leg_is_told(view: BrokerView, symbols: Seq<Seq<char>>, symbol: Seq<char>)
    requires
        symbols.contains(symbol),
        view.holds(symbol),
    ensures
        crate::broker_view::leg_reasons(view, symbols).contains(
            "existing open position on candidate leg "@ + symbol,
        ),
    decreases symbols.len(),
{
    let line = "existing open position on candidate leg "@ + symbol;
    let rest = symbols.drop_last();
    let before = crate::broker_view::leg_reasons(view, rest);
    let all = crate::broker_view::leg_reasons(view, symbols);
    if symbols.last() == symbol {
        assert(all[before.len() as int] == line);
    } else {
        let i = symbols.index_of(symbol);
        assert(rest[i] == symbol);
        held_leg_is_told(view, rest, symbol);
        assert(all[before.index_of(line)] == line);
    }
}

} // verus!
