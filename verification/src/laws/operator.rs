//! Laws of the operator's status, alerts and checks.
use vstd::prelude::*;

use crate::alerts::account_alerts;
use crate::alerts::attempt_alerts;
use crate::alerts::by_severity;
use crate::alerts::exposure_alerts;
use crate::alerts::has_critical;
use crate::alerts::hourly_count;
use crate::alerts::order_alerts;
use crate::alerts::policy_alerts;
use crate::alerts::raised_alerts;
use crate::alerts::risk_alerts;
use crate::alerts::runtime_alerts;
use crate::alerts::AlertInputs;
use crate::alerts::AlertSeverity;
use crate::alerts::AlertView;
use crate::broker::AlpacaOrder;
use crate::broker::AlpacaPosition;
use crate::calendar::instant_in;
use crate::calendar::UtcInstant;
use crate::doctor::verdict_of;
use crate::doctor::CollectedStatus;
use crate::evidence::Evidence;
use crate::lint::all_issues;
use crate::lint::none_blocks;
use crate::lint::retired_order_names;
use crate::lint::retired_strategy_names;
use crate::lint::LoadedConfig;
use crate::preroll::check_issue;
use crate::preroll::checks_path;
use crate::preroll::names_path;
use crate::preroll::readable;
use crate::preroll::source_of;
use crate::preroll::IssueView;
use crate::preroll::MountDefault;
use crate::preroll::PathFacts;
use crate::preroll::PreRollCheck;
use crate::preroll::PreRollReport;
use crate::preroll::SourceView;
use crate::profile::AlpacaOptionsStrategyProfile;
use crate::runtime::AlpacaOptionsRuntimeConfig;
use crate::state::StrategyState;
use crate::status::engine_state_of;
use crate::status::leg_total;
use crate::status::order_numbers;
use crate::status::position_numbers;
use crate::status::AccountStatus;
use crate::status::ActiveEntryStatus;
use crate::status::OperatorConfig;
use crate::status::OrdersStatus;
use crate::status::PositionsStatus;
use crate::status::RiskStatus;
use crate::status::ServiceStatus;
use crate::status::StrategyStateStatus;
use crate::text::opt_text;
use crate::text::trimmed;
use crate::text_set::TextSet;

verus! {

// ---------------------------------------------------------------------------------------------
// Engine state
// ---------------------------------------------------------------------------------------------

/// The engine is broken exactly when something is critical. Short of that it is blocked when the account
/// may not trade, or when it may open nothing and has nothing; it trades when it has an order or a
/// position, and is idle otherwise.
pub proof fn engine_states_follow_from_what_is_there(
    critical: bool,
    open_orders_enabled: bool,
    orders: OrdersStatus,
    positions: PositionsStatus,
    account: AccountStatus,
)
    ensures
        ({
            let state = engine_state_of(critical, open_orders_enabled, orders, positions, account);
            let barred = account.trading_blocked || account.trade_suspended_by_user;
            let exposed = orders.open > 0 || positions.total > 0;
            &&& state is Broken <==> critical
            &&& state is Trading <==> !critical && !barred && exposed
            &&& state is Idle <==> !critical && !barred && !exposed && open_orders_enabled
            &&& state is Blocked <==> !critical && (barred || (!exposed && !open_orders_enabled))
        }),
{
}

// ---------------------------------------------------------------------------------------------
// Counts
// ---------------------------------------------------------------------------------------------

proof fn filters_are_shorter<A>(items: Seq<A>, pass: spec_fn(A) -> bool)
    ensures
        items.filter(pass).len() <= items.len(),
    decreases items.len(),
{
    reveal(Seq::filter);
    if items.len() > 0 {
        filters_are_shorter(items.drop_last(), pass);
    }
}

/// Whether a working order was submitted, or else made, longer ago than a limit.
pub open spec fn overdue(order: AlpacaOrder, now: UtcInstant, limit: int) -> bool {
    let since = if order.submitted_at is Some {
        order.submitted_at
    } else {
        order.created_at
    };
    order.working && (since matches Some(text) && instant_in(text@) matches Some(then)
        && crate::calendar::nanos_since(now, then) > limit * 1_000_000_000)
}

/// One or nothing.
pub open spec fn one_if(holds: bool) -> int {
    if holds {
        1
    } else {
        0
    }
}

/// One more open order is counted once as open, and where it belongs as a multi-leg, an overdue, a partly
/// filled and a waiting one; its legs are counted too.
pub proof fn open_orders_are_counted(
    open: Seq<AlpacaOrder>,
    order: AlpacaOrder,
    recent: Seq<AlpacaOrder>,
    now: UtcInstant,
    limit: int,
)
    requires
        open.len() < usize::MAX,
        leg_total(open.push(order)) <= usize::MAX,
    ensures
        ({
            let before = order_numbers(open, recent, now, limit);
            let after = order_numbers(open.push(order), recent, now, limit);
            let status = opt_text(order.status);
            &&& after.open == before.open + 1
            &&& after.open_mleg == before.open_mleg + one_if(
                opt_text(order.order_class) == Some("mleg"@),
            )
            &&& after.nested_legs == before.nested_legs + (match order.legs {
                Some(legs) => legs@.len(),
                None => 0,
            })
            &&& after.stale_working == before.stale_working + one_if(overdue(order, now, limit))
            &&& after.partial_filled == before.partial_filled + one_if(
                order.working && order.filled.above_zero(),
            )
            &&& after.accepted_not_filled == before.accepted_not_filled + one_if(
                (status == Some("accepted"@) || status == Some("new"@)) && (order.filled.bits == 0
                    || order.filled.bits == 0x8000_0000_0000_0000),
            )
            &&& after.recent_rejected == before.recent_rejected
        }),
{
    let all = open.push(order);
    reveal(Seq::filter);
    assert(all.drop_last() =~= open);
    assert(all.last() == order);
    filters_are_shorter(
        all,
        |o: AlpacaOrder| crate::status::stale(o, now, limit),
    );
    filters_are_shorter(all, |o: AlpacaOrder| crate::status::partly_filled(o));
    filters_are_shorter(all, |o: AlpacaOrder| crate::status::awaits_fill(o));
    filters_are_shorter(all, |o: AlpacaOrder| opt_text(o.order_class) == Some("mleg"@));
    filters_are_shorter(open, |o: AlpacaOrder| crate::status::stale(o, now, limit));
    filters_are_shorter(open, |o: AlpacaOrder| crate::status::partly_filled(o));
    filters_are_shorter(open, |o: AlpacaOrder| crate::status::awaits_fill(o));
    filters_are_shorter(open, |o: AlpacaOrder| opt_text(o.order_class) == Some("mleg"@));
}

/// One more recent order is counted exactly when it was rejected.
pub proof fn rejected_orders_are_counted(
    open: Seq<AlpacaOrder>,
    recent: Seq<AlpacaOrder>,
    order: AlpacaOrder,
    now: UtcInstant,
    limit: int,
)
    requires
        recent.len() < usize::MAX,
    ensures
        order_numbers(open, recent.push(order), now, limit).recent_rejected == order_numbers(
            open,
            recent,
            now,
            limit,
        ).recent_rejected + one_if(opt_text(order.status) == Some("rejected"@)),
{
    let all = recent.push(order);
    reveal(Seq::filter);
    assert(all.drop_last() =~= recent);
    filters_are_shorter(recent, |o: AlpacaOrder| opt_text(o.status) == Some("rejected"@));
}

/// One more position is counted once, by its asset class, and as unmanaged exactly when no open entry
/// has its symbol.
pub proof fn positions_are_counted(
    positions: Seq<AlpacaPosition>,
    position: AlpacaPosition,
    state: StrategyState,
)
    requires
        positions.len() < usize::MAX,
    ensures
        ({
            let before = position_numbers(positions, state);
            let after = position_numbers(positions.push(position), state);
            let class = opt_text(position.asset_class);
            &&& after.total == before.total + 1
            &&& after.options == before.options + one_if(class == Some("us_option"@))
            &&& after.equities == before.equities + one_if(class == Some("us_equity"@))
            &&& after.unmanaged == before.unmanaged + one_if(
                !(position.symbol matches Some(symbol) && exists|i: int|
                    0 <= i < state.entries@.len() && super::state::open_entry(
                        #[trigger] state.entries@[i],
                    ) && state.entries@[i].leg_symbols().contains(symbol@)),
            )
        }),
{
    let all = positions.push(position);
    reveal(Seq::filter);
    assert(all.drop_last() =~= positions);
    assert(all.last() == position);
    filters_are_shorter(positions, |p: AlpacaPosition| opt_text(p.asset_class) == Some("us_option"@));
    filters_are_shorter(positions, |p: AlpacaPosition| opt_text(p.asset_class) == Some("us_equity"@));
    filters_are_shorter(
        positions,
        |p: AlpacaPosition| crate::status::unmanaged_position(p, state),
    );
    if position.symbol is Some {
        let symbol = position.symbol->0@;
        assert(state.has_active_symbol(symbol) == (exists|i: int|
            0 <= i < state.entries@.len() && super::state::open_entry(#[trigger] state.entries@[i])
                && state.entries@[i].leg_symbols().contains(symbol)));
    }
}

// ---------------------------------------------------------------------------------------------
// Alerts
// ---------------------------------------------------------------------------------------------

/// Whether some alert has a severity and a code.
pub open spec fn raised(alerts: Seq<AlertView>, severity: AlertSeverity, code: Seq<char>) -> bool {
    exists|i: int|
        0 <= i < alerts.len() && (#[trigger] alerts[i]).severity == severity && alerts[i].code == code
}

/// A service that is down, an account that is not active and one that may not trade are critical;
/// orders that are switched off are told. There is one alert for each and no other.
pub proof fn accounts_raise_alerts(
    config: OperatorConfig,
    service: ServiceStatus,
    account: AccountStatus,
)
    ensures
        ({
            let alerts = account_alerts(config, service, account);
            let down = service.active == Some(false);
            let inactive = account.status@ != "ACTIVE"@;
            let barred = account.trading_blocked || account.account_blocked
                || account.trade_suspended_by_user;
            &&& alerts.len() == one_if(down) + one_if(inactive) + one_if(barred) + one_if(
                !config.open_orders_enabled,
            ) + one_if(!config.close_orders_enabled)
            &&& down ==> raised(alerts, AlertSeverity::Critical, "service_inactive"@)
            &&& inactive ==> raised(alerts, AlertSeverity::Critical, "account_not_active"@)
            &&& barred ==> raised(alerts, AlertSeverity::Critical, "account_trading_blocked"@)
            &&& !config.open_orders_enabled ==> raised(
                alerts,
                AlertSeverity::Info,
                "open_orders_disabled"@,
            )
            &&& !config.close_orders_enabled ==> raised(
                alerts,
                AlertSeverity::Info,
                "close_orders_disabled"@,
            )
        }),
{
    let alerts = account_alerts(config, service, account);
    let a = one_if(service.active == Some(false));
    let b = a + one_if(account.status@ != "ACTIVE"@);
    let c = b + one_if(
        account.trading_blocked || account.account_blocked || account.trade_suspended_by_user,
    );
    let d = c + one_if(!config.open_orders_enabled);
    if a > 0 {
        assert(alerts[0].code == "service_inactive"@);
    }
    if b > a {
        assert(alerts[a].code == "account_not_active"@);
    }
    if c > b {
        assert(alerts[b].code == "account_trading_blocked"@);
    }
    if d > c {
        assert(alerts[c].code == "open_orders_disabled"@);
    }
    if !config.close_orders_enabled {
        assert(alerts[d].code == "close_orders_disabled"@);
    }
}

/// Rejected, overdue and partly filled orders are warned of, waiting ones are told.
pub proof fn orders_raise_alerts(stale_order_secs: i64, orders: OrdersStatus)
    ensures
        ({
            let alerts = order_alerts(stale_order_secs, orders);
            &&& alerts.len() == one_if(orders.recent_rejected > 0) + one_if(orders.stale_working > 0)
                + one_if(orders.partial_filled > 0) + one_if(orders.accepted_not_filled > 0)
            &&& orders.recent_rejected > 0 ==> raised(
                alerts,
                AlertSeverity::Warning,
                "recent_rejected_orders"@,
            )
            &&& orders.stale_working > 0 ==> raised(
                alerts,
                AlertSeverity::Warning,
                "stale_working_orders"@,
            )
            &&& orders.partial_filled > 0 ==> raised(
                alerts,
                AlertSeverity::Warning,
                "partial_filled_orders"@,
            )
            &&& orders.accepted_not_filled > 0 ==> raised(
                alerts,
                AlertSeverity::Info,
                "accepted_not_filled_orders"@,
            )
        }),
{
    let alerts = order_alerts(stale_order_secs, orders);
    let a = one_if(orders.recent_rejected > 0);
    let b = a + one_if(orders.stale_working > 0);
    let c = b + one_if(orders.partial_filled > 0);
    if a > 0 {
        assert(alerts[0].code == "recent_rejected_orders"@);
    }
    if b > a {
        assert(alerts[a].code == "stale_working_orders"@);
    }
    if c > b {
        assert(alerts[b].code == "partial_filled_orders"@);
    }
    if orders.accepted_not_filled > 0 {
        assert(alerts[c].code == "accepted_not_filled_orders"@);
    }
}

/// Positions that no entry accounts for, and exposure without a state, are critical; active entries
/// without any exposure are warned of.
pub proof fn exposure_raises_alerts(
    open_orders: int,
    orders: OrdersStatus,
    positions: PositionsStatus,
    state: StrategyStateStatus,
)
    ensures
        ({
            let alerts = exposure_alerts(open_orders, orders, positions, state);
            let mismatch = state.active_entries > 0 && open_orders == 0 && positions.total == 0;
            let lost = !state.exists && (orders.open > 0 || positions.total > 0);
            &&& alerts.len() == one_if(positions.unmanaged > 0) + one_if(mismatch) + one_if(lost)
            &&& positions.unmanaged > 0 ==> raised(
                alerts,
                AlertSeverity::Critical,
                "unmanaged_positions"@,
            )
            &&& mismatch ==> raised(alerts, AlertSeverity::Warning, "state_broker_mismatch"@)
            &&& lost ==> raised(alerts, AlertSeverity::Critical, "missing_strategy_state"@)
        }),
{
    let alerts = exposure_alerts(open_orders, orders, positions, state);
    let mismatch = state.active_entries > 0 && open_orders == 0 && positions.total == 0;
    let a = one_if(positions.unmanaged > 0);
    let b = a + one_if(mismatch);
    if a > 0 {
        assert(alerts[0].code == "unmanaged_positions"@);
    }
    if b > a {
        assert(alerts[a].code == "state_broker_mismatch"@);
    }
    if !state.exists && (orders.open > 0 || positions.total > 0) {
        assert(alerts[b].code == "missing_strategy_state"@);
    }
}

/// Whether a count has reached a cap.
pub open spec fn capped(count: usize, cap: Option<usize>) -> bool {
    cap matches Some(limit) && limit <= count
}

/// The number of groups whose count has reached a cap.
pub open spec fn capped_groups(counts: Seq<(String, usize)>, cap: Option<usize>) -> int
    decreases counts.len(),
{
    if counts.len() == 0 {
        0
    } else {
        one_if(capped(counts[0].1, cap)) + capped_groups(counts.drop_first(), cap)
    }
}

proof fn capped_groups_push(counts: Seq<(String, usize)>, cap: Option<usize>)
    requires
        counts.len() > 0,
    ensures
        capped_groups(counts, cap) == capped_groups(counts.drop_last(), cap) + one_if(
            capped(counts.last().1, cap),
        ),
    decreases counts.len(),
{
    if counts.len() > 1 {
        capped_groups_push(counts.drop_first(), cap);
        assert(counts.drop_first().drop_last() =~= counts.drop_last().drop_first());
        assert(counts.drop_first().last() == counts.last());
        assert(counts.drop_last()[0] == counts[0]);
    } else {
        assert(counts.drop_first() =~= counts.drop_last());
    }
}

proof fn group_alerts_tell(
    counts: Seq<(String, usize)>,
    cap: Option<usize>,
    code: Seq<char>,
    middle: Seq<char>,
)
    ensures
        ({
            let alerts = crate::alerts::group_cap_alerts(counts, cap, code, middle);
            &&& alerts.len() == capped_groups(counts, cap)
            &&& forall|i: int|
                0 <= i < alerts.len() ==> (#[trigger] alerts[i]).severity == AlertSeverity::Warning
                    && alerts[i].code == code
        }),
    decreases counts.len(),
{
    if counts.len() > 0 {
        group_alerts_tell(counts.drop_last(), cap, code, middle);
        capped_groups_push(counts, cap);
    }
}

/// Every count that has reached its cap is warned of, each underlying and each sector by itself, and no
/// other.
pub proof fn caps_raise_alerts(risk: RiskStatus)
    ensures
        ({
            let alerts = risk_alerts(risk);
            let by_underlying = capped_groups(
                risk.active_entries_by_underlying@,
                risk.max_active_entries_per_underlying,
            );
            let by_sector = capped_groups(
                risk.active_entries_by_sector@,
                risk.max_active_entries_per_sector,
            );
            &&& alerts.len() == one_if(capped(risk.active_entries, risk.max_active_entries))
                + by_underlying + by_sector + one_if(
                capped(risk.daily_submits, risk.max_daily_submits),
            ) + one_if(capped(risk.open_orders, risk.max_open_orders))
            &&& capped(risk.active_entries, risk.max_active_entries) ==> raised(
                alerts,
                AlertSeverity::Warning,
                "risk_max_active_entries"@,
            )
            &&& by_underlying > 0 ==> raised(
                alerts,
                AlertSeverity::Warning,
                "risk_max_active_entries_per_underlying"@,
            )
            &&& by_sector > 0 ==> raised(
                alerts,
                AlertSeverity::Warning,
                "risk_max_active_entries_per_sector"@,
            )
            &&& capped(risk.daily_submits, risk.max_daily_submits) ==> raised(
                alerts,
                AlertSeverity::Warning,
                "risk_max_daily_submits"@,
            )
            &&& capped(risk.open_orders, risk.max_open_orders) ==> raised(
                alerts,
                AlertSeverity::Warning,
                "risk_max_open_orders"@,
            )
        }),
{
    let alerts = risk_alerts(risk);
    group_alerts_tell(
        risk.active_entries_by_underlying@,
        risk.max_active_entries_per_underlying,
        "risk_max_active_entries_per_underlying"@,
        " active entries are at the per-underlying cap: "@,
    );
    group_alerts_tell(
        risk.active_entries_by_sector@,
        risk.max_active_entries_per_sector,
        "risk_max_active_entries_per_sector"@,
        " active entries are at the sector cap: "@,
    );
    let a = one_if(capped(risk.active_entries, risk.max_active_entries));
    let b = a + capped_groups(
        risk.active_entries_by_underlying@,
        risk.max_active_entries_per_underlying,
    );
    let c = b + capped_groups(risk.active_entries_by_sector@, risk.max_active_entries_per_sector);
    let d = c + one_if(capped(risk.daily_submits, risk.max_daily_submits));
    if a > 0 {
        assert(alerts[0].code == "risk_max_active_entries"@);
    }
    if b > a {
        assert(alerts[a].code == "risk_max_active_entries_per_underlying"@);
    }
    if c > b {
        assert(alerts[b].code == "risk_max_active_entries_per_sector"@);
    }
    if d > c {
        assert(alerts[c].code == "risk_max_daily_submits"@);
    }
    if capped(risk.open_orders, risk.max_open_orders) {
        assert(alerts[d].code == "risk_max_open_orders"@);
    }
}

/// An entry that has used up its close attempts is critical, and only where there is a limit to them.
pub proof fn used_up_attempts_are_critical(
    entries: Seq<ActiveEntryStatus>,
    entry: ActiveEntryStatus,
    limit: u32,
)
    ensures
        ({
            let before = attempt_alerts(entries, limit);
            let after = attempt_alerts(entries.push(entry), limit);
            let used_up = 0 < limit <= entry.close_attempts;
            &&& after.len() == before.len() + one_if(used_up)
            &&& used_up ==> after.last().severity == AlertSeverity::Critical && after.last().code
                == "close_attempts_exhausted"@
        }),
        attempt_alerts(Seq::empty(), limit).len() == 0,
{
    assert(entries.push(entry).drop_last() =~= entries);
}

/// A poll, a stream or a reconciliation that failed within the hour is critical, as is a lifecycle block
/// within the day; more than one start within the hour is warned of.
pub proof fn failures_within_the_hour_raise_alerts(
    events: Seq<Evidence>,
    block: Option<Seq<char>>,
    now: UtcInstant,
)
    ensures
        ({
            let alerts = runtime_alerts(events, block, now);
            let count = |kind: Seq<char>| hourly_count(events, kind, now);
            &&& alerts.len() == one_if(count("option_lifecycle_poll_error"@) > 0) + one_if(
                block is Some,
            ) + one_if(count("runner_start"@) > 1) + one_if(count("websocket_disconnect"@) > 0)
                + one_if(count("reconciliation_error"@) > 0)
            &&& count("option_lifecycle_poll_error"@) > 0 ==> raised(
                alerts,
                AlertSeverity::Critical,
                "option_lifecycle_poll_error"@,
            )
            &&& block is Some ==> raised(
                alerts,
                AlertSeverity::Critical,
                "option_lifecycle_block"@,
            )
            &&& count("runner_start"@) > 1 ==> raised(
                alerts,
                AlertSeverity::Warning,
                "service_restart_recent"@,
            )
            &&& count("websocket_disconnect"@) > 0 ==> raised(
                alerts,
                AlertSeverity::Critical,
                "websocket_disconnect"@,
            )
            &&& count("reconciliation_error"@) > 0 ==> raised(
                alerts,
                AlertSeverity::Critical,
                "reconciliation_error"@,
            )
        }),
{
    let alerts = runtime_alerts(events, block, now);
    let a = one_if(hourly_count(events, "option_lifecycle_poll_error"@, now) > 0);
    let b = a + one_if(block is Some);
    let c = b + one_if(hourly_count(events, "runner_start"@, now) > 1);
    let d = c + one_if(hourly_count(events, "websocket_disconnect"@, now) > 0);
    if a > 0 {
        assert(alerts[0].code == "option_lifecycle_poll_error"@);
    }
    if b > a {
        assert(alerts[a].code == "option_lifecycle_block"@);
    }
    if c > b {
        assert(alerts[b].code == "service_restart_recent"@);
    }
    if d > c {
        assert(alerts[c].code == "websocket_disconnect"@);
    }
    if hourly_count(events, "reconciliation_error"@, now) > 0 {
        assert(alerts[d].code == "reconciliation_error"@);
    }
}

/// Everything that raises an alert is among the alerts, and nothing else is: their number is that of the
/// parts.
pub proof fn every_part_raises_its_alerts(inputs: AlertInputs<'_>, block: Option<Seq<char>>)
    ensures
        ({
            let all = raised_alerts(inputs, block);
            let account = account_alerts(*inputs.config, *inputs.service, *inputs.account);
            let policy = policy_alerts(inputs.config.fleet_policy_blocks@);
            let orders = order_alerts(inputs.config.stale_order_secs, *inputs.orders);
            let exposure = exposure_alerts(
                inputs.open_orders@.len() as int,
                *inputs.orders,
                *inputs.positions,
                *inputs.strategy_state,
            );
            let risk = risk_alerts(*inputs.risk);
            let attempts = attempt_alerts(
                inputs.active_entries@,
                inputs.config.max_close_attempts,
            );
            let management = crate::alerts::management_alerts(inputs.events@, inputs.now);
            let runtime = runtime_alerts(inputs.events@, block, inputs.now);
            &&& all.len() == account.len() + inputs.config.fleet_policy_blocks@.len() + orders.len()
                + exposure.len() + risk.len() + attempts.len() + management.len() + runtime.len()
            &&& forall|i: int| 0 <= i < account.len() ==> all.contains(#[trigger] account[i])
            &&& forall|i: int| 0 <= i < policy.len() ==> all.contains(#[trigger] policy[i])
            &&& forall|i: int| 0 <= i < orders.len() ==> all.contains(#[trigger] orders[i])
            &&& forall|i: int| 0 <= i < exposure.len() ==> all.contains(#[trigger] exposure[i])
            &&& forall|i: int| 0 <= i < risk.len() ==> all.contains(#[trigger] risk[i])
            &&& forall|i: int| 0 <= i < attempts.len() ==> all.contains(#[trigger] attempts[i])
            &&& forall|i: int| 0 <= i < management.len() ==> all.contains(#[trigger] management[i])
            &&& forall|i: int| 0 <= i < runtime.len() ==> all.contains(#[trigger] runtime[i])
        }),
{
    let all = raised_alerts(inputs, block);
    let account = account_alerts(*inputs.config, *inputs.service, *inputs.account);
    let policy = policy_alerts(inputs.config.fleet_policy_blocks@);
    let orders = order_alerts(inputs.config.stale_order_secs, *inputs.orders);
    let exposure = exposure_alerts(
        inputs.open_orders@.len() as int,
        *inputs.orders,
        *inputs.positions,
        *inputs.strategy_state,
    );
    let risk = risk_alerts(*inputs.risk);
    let attempts = attempt_alerts(inputs.active_entries@, inputs.config.max_close_attempts);
    let management = crate::alerts::management_alerts(inputs.events@, inputs.now);
    let runtime = runtime_alerts(inputs.events@, block, inputs.now);
    let p1 = account.len() as int;
    let p2 = p1 + policy.len();
    let p3 = p2 + orders.len();
    let p4 = p3 + exposure.len();
    let p5 = p4 + risk.len();
    let p6 = p5 + attempts.len();
    let p7 = p6 + management.len();
    assert forall|i: int| 0 <= i < account.len() implies all.contains(#[trigger] account[i]) by {
        assert(all[i] == account[i]);
    }
    assert forall|i: int| 0 <= i < policy.len() implies all.contains(#[trigger] policy[i]) by {
        assert(all[p1 + i] == policy[i]);
    }
    assert forall|i: int| 0 <= i < orders.len() implies all.contains(#[trigger] orders[i]) by {
        assert(all[p2 + i] == orders[i]);
    }
    assert forall|i: int| 0 <= i < exposure.len() implies all.contains(#[trigger] exposure[i]) by {
        assert(all[p3 + i] == exposure[i]);
    }
    assert forall|i: int| 0 <= i < risk.len() implies all.contains(#[trigger] risk[i]) by {
        assert(all[p4 + i] == risk[i]);
    }
    assert forall|i: int| 0 <= i < attempts.len() implies all.contains(#[trigger] attempts[i]) by {
        assert(all[p5 + i] == attempts[i]);
    }
    assert forall|i: int| 0 <= i < management.len() implies all.contains(
        #[trigger] management[i],
    ) by {
        assert(all[p6 + i] == management[i]);
    }
    assert forall|i: int| 0 <= i < runtime.len() implies all.contains(#[trigger] runtime[i]) by {
        assert(all[p7 + i] == runtime[i]);
    }
}

/// A fleet policy that blocks is critical, each block by itself.
pub proof fn policy_blocks_are_critical(blocks: Seq<String>, i: int)
    requires
        0 <= i < blocks.len(),
    ensures
        policy_alerts(blocks).len() == blocks.len(),
        policy_alerts(blocks)[i].severity == AlertSeverity::Critical,
        policy_alerts(blocks)[i].code == "fleet_policy_block"@,
{
}

/// How pressing a severity is.
pub open spec fn pressing(severity: AlertSeverity) -> int {
    match severity {
        AlertSeverity::Critical => 2,
        AlertSeverity::Warning => 1,
        AlertSeverity::Info => 0,
    }
}

proof fn severities_stay(alerts: Seq<AlertView>, severity: AlertSeverity)
    ensures
        forall|i: int|
            0 <= i < crate::alerts::alerts_of(alerts, severity).len() ==> (
            #[trigger] crate::alerts::alerts_of(alerts, severity)[i]).severity == severity,
{
    let kept = crate::alerts::alerts_of(alerts, severity);
    assert forall|i: int| 0 <= i < kept.len() implies (#[trigger] kept[i]).severity == severity by {
        assert(kept.contains(kept[i]));
        crate::text_set::filter_has(
            alerts,
            |alert: AlertView| alert.severity == severity,
            kept[i],
        );
    }
}

/// Alerts are told in the order of their severity, the most pressing first.
pub proof fn the_most_pressing_alert_comes_first(alerts: Seq<AlertView>, i: int, j: int)
    requires
        0 <= i <= j < by_severity(alerts).len(),
    ensures
        pressing(by_severity(alerts)[i].severity) >= pressing(by_severity(alerts)[j].severity),
{
    severities_stay(alerts, AlertSeverity::Critical);
    severities_stay(alerts, AlertSeverity::Warning);
    severities_stay(alerts, AlertSeverity::Info);
}

/// Something is critical exactly when a critical alert was raised.
pub proof fn critical_alerts_break_the_engine(alerts: Seq<AlertView>)
    ensures
        has_critical(alerts) <==> exists|alert: AlertView| #[trigger]
            alerts.contains(alert) && alert.severity is Critical,
{
    assert forall|i: int| 0 <= i < alerts.len() implies alerts.contains(#[trigger] alerts[i]) by {}
    if exists|alert: AlertView| #[trigger] alerts.contains(alert) && alert.severity is Critical {
        let alert = choose|alert: AlertView| #[trigger]
            alerts.contains(alert) && alert.severity is Critical;
        assert(alerts[alerts.index_of(alert)].severity is Critical);
    }
}

// ---------------------------------------------------------------------------------------------
// Doctor
// ---------------------------------------------------------------------------------------------

/// A doctor's verdict is that of the status, except that a failed check or a configuration that does not
/// pass breaks it, and a missing scanner report degrades a healthy one.
pub proof fn verdicts_follow_from_the_checks(
    status: CollectedStatus,
    ok: bool,
    issues: Seq<IssueView>,
    scanner_failed: bool,
)
    ensures
        ({
            let verdict = verdict_of(status, ok, issues, scanner_failed);
            let shown = match status {
                CollectedStatus::Collected(value) => value.text_field("health"@),
                CollectedStatus::Failed(_) => Some("broken"@),
            };
            let health = if shown is Some {
                shown->0
            } else {
                "broken"@
            };
            &&& !ok ==> verdict.health == "broken"@ && verdict.reasons.contains(
                "config_lint_failed"@,
            )
            &&& ok && scanner_failed && health == "healthy"@ ==> verdict.health == "degraded"@
                && verdict.next_action == "inspect_scanner_report"@ && verdict.reasons.contains(
                "scanner_report_unavailable"@,
            )
            &&& ok && !(scanner_failed && health == "healthy"@) ==> verdict.health == health
            &&& status matches CollectedStatus::Failed(error) ==> verdict.reasons.contains(
                "status_collect_failed: "@ + error@,
            )
            &&& status is Failed && ok ==> verdict.next_action
                == "inspect_alpaca_account_config_and_broker_connectivity"@
        }),
{
    reveal_strlit("healthy");
    reveal_strlit("broken");
    assert("healthy"@.len() == 7);
    assert("broken"@.len() == 6);
    let one = crate::doctor::status_verdict(status);
    let two = crate::doctor::after_config(one, ok, issues);
    let three = crate::doctor::after_scanner(two, scanner_failed);
    if !ok {
        assert(two.reasons[one.reasons.len() as int] == "config_lint_failed"@);
        assert(three == two);
        assert(two.reasons.contains("config_lint_failed"@));
    }
    if two.health == "healthy"@ && scanner_failed {
        assert(three.reasons[two.reasons.len() as int] == "scanner_report_unavailable"@);
        assert(three.reasons.contains("scanner_report_unavailable"@));
    }
    if status is Failed {
        assert(one.reasons[0] == "status_collect_failed: "@ + status->Failed_0@);
        assert(two.reasons[0] == one.reasons[0]);
        assert(three.reasons[0] == one.reasons[0]);
        assert(three.reasons.contains(one.reasons[0]));
    }
}

/// The first issue that keeps a configuration from passing is the one to fix.
pub proof fn the_first_error_is_fixed_first(
    status: CollectedStatus,
    issues: Seq<IssueView>,
    scanner_failed: bool,
    at: int,
)
    requires
        0 <= at < issues.len(),
        issues[at].severity == "error"@ || issues[at].severity == "critical"@,
        forall|i: int|
            0 <= i < at ==> (#[trigger] issues[i]).severity != "error"@ && issues[i].severity
                != "critical"@,
    ensures
        verdict_of(status, false, issues, scanner_failed).next_action == "fix_"@ + issues[at].code
            + ": "@ + issues[at].message,
{
    reveal_strlit("healthy");
    reveal_strlit("broken");
    assert("healthy"@.len() == 7);
    assert("broken"@.len() == 6);
    first_error(issues, at);
}

proof fn first_error(issues: Seq<IssueView>, at: int)
    requires
        0 <= at < issues.len(),
        issues[at].severity == "error"@ || issues[at].severity == "critical"@,
        forall|i: int|
            0 <= i < at ==> (#[trigger] issues[i]).severity != "error"@ && issues[i].severity
                != "critical"@,
    ensures
        crate::doctor::first_blocking(issues) == at,
    decreases at,
{
    if at > 0 {
        let rest = issues.drop_first();
        assert(issues[0].severity != "error"@);
        assert forall|i: int| 0 <= i < at - 1 implies (#[trigger] rest[i]).severity != "error"@
            && rest[i].severity != "critical"@ by {
            assert(rest[i] == issues[i + 1]);
        }
        first_error(rest, at - 1);
    }
}

// ---------------------------------------------------------------------------------------------
// Configuration
// ---------------------------------------------------------------------------------------------

/// Whether a loaded configuration is sound: every profile has a quantity, no fleet policy blocks it, and
/// a source that it requires is there.
pub open spec fn sound(config: AlpacaOptionsRuntimeConfig) -> bool {
    &&& forall|i: int|
        0 <= i < config.strategy_profiles@.len() ==> (#[trigger] config.strategy_profiles@[i]).quantity
            > 0
    &&& config.fleet_policy_blocks@.len() == 0
    &&& !(config.event_shock.required && config.event_shock.dry_run_only)
}

proof fn severities_differ()
    ensures
        "error"@.len() == 5,
        "critical"@.len() == 8,
        "warning"@.len() == 7,
        "info"@.len() == 4,
{
    reveal_strlit("error");
    reveal_strlit("critical");
    reveal_strlit("warning");
    reveal_strlit("info");
}

proof fn parts_block(a: Seq<IssueView>, b: Seq<IssueView>)
    ensures
        none_blocks(a + b) <==> none_blocks(a) && none_blocks(b),
{
    let all = a + b;
    if none_blocks(all) {
        assert forall|i: int| 0 <= i < a.len() implies !crate::lint::blocks_success(
            #[trigger] a[i],
        ) by {
            assert(all[i] == a[i]);
        }
        assert forall|i: int| 0 <= i < b.len() implies !crate::lint::blocks_success(
            #[trigger] b[i],
        ) by {
            assert(all[a.len() + i] == b[i]);
        }
    }
    if none_blocks(a) && none_blocks(b) {
        assert forall|i: int| 0 <= i < all.len() implies !crate::lint::blocks_success(
            #[trigger] all[i],
        ) by {
            if i < a.len() {
                assert(all[i] == a[i]);
            } else {
                assert(all[i] == b[i - a.len()]);
            }
        }
    }
}

proof fn issue_blocks(
    holds: bool,
    severity: Seq<char>,
    code: Seq<char>,
    message: Seq<char>,
    path: Option<Seq<char>>,
)
    ensures
        none_blocks(crate::lint::issue_if(holds, severity, code, message, path)) <==> !(holds && (
        severity == "error"@ || severity == "critical"@)),
{
    let issues = crate::lint::issue_if(holds, severity, code, message, path);
    if holds {
        assert(issues[0].severity == severity);
    }
}

proof fn profile_blocks(profile: AlpacaOptionsStrategyProfile)
    ensures
        none_blocks(crate::lint::profile_issues(profile)) <==> profile.quantity > 0,
{
    severities_differ();
    let issues = crate::lint::profile_issues(profile);
    if profile.quantity == 0 {
        assert(issues.last().severity == "error"@);
        assert(crate::lint::blocks_success(issues[issues.len() - 1]));
    }
}

proof fn profiles_block(profiles: Seq<AlpacaOptionsStrategyProfile>)
    ensures
        none_blocks(crate::lint::all_profile_issues(profiles)) <==> (forall|i: int|
            0 <= i < profiles.len() ==> (#[trigger] profiles[i]).quantity > 0),
    decreases profiles.len(),
{
    if profiles.len() > 0 {
        let rest = profiles.drop_last();
        profiles_block(rest);
        profile_blocks(profiles.last());
        parts_block(
            crate::lint::all_profile_issues(rest),
            crate::lint::profile_issues(profiles.last()),
        );
        assert(forall|i: int| 0 <= i < rest.len() ==> #[trigger] profiles[i] == rest[i]);
    }
}

proof fn shapes_block(config: AlpacaOptionsRuntimeConfig)
    ensures
        none_blocks(crate::lint::shape_issues(config)) <==> sound(config),
{
    severities_differ();
    profiles_block(config.strategy_profiles@);
    let policy = crate::lint::policy_issues(config.fleet_policy_blocks@);
    if config.fleet_policy_blocks@.len() > 0 {
        assert(crate::lint::blocks_success(policy[0]));
    }
    let shock = crate::lint::shock_issues(config.event_shock);
    if config.event_shock.required && config.event_shock.dry_run_only {
        assert(crate::lint::blocks_success(shock[0]));
    }
    let profiles = crate::lint::all_profile_issues(config.strategy_profiles@);
    let whole = crate::lint::shape_issues(config);
    let head = whole.take(whole.len() - shock.len() - policy.len() - profiles.len());
    assert(whole =~= head + profiles + policy + shock);
    assert(none_blocks(head)) by {
        assert forall|i: int| 0 <= i < head.len() implies !crate::lint::blocks_success(
            #[trigger] head[i],
        ) by {
            assert(head[i] == whole[i]);
            assert(whole[i].severity == "warning"@);
        }
    }
    parts_block(head, profiles);
    parts_block(head + profiles, policy);
    parts_block(head + profiles + policy, shock);
}

/// Whether one of some variables is set.
pub open spec fn some_set(names: Seq<Seq<char>>, set_vars: TextSet) -> bool {
    exists|name: Seq<char>| #[trigger] names.contains(name) && set_vars.has(name)
}

proof fn set_names_tell(names: Seq<Seq<char>>, set_vars: TextSet)
    ensures
        crate::lint::set_names(names, set_vars).len() > 0 <==> some_set(names, set_vars),
{
    let kept = crate::lint::set_names(names, set_vars);
    assert forall|name: Seq<char>| #[trigger] kept.contains(name) <==> names.contains(name)
        && set_vars.has(name) by {
        crate::text_set::filter_has(names, |n: Seq<char>| set_vars.has(n), name);
    }
    if kept.len() > 0 {
        assert(kept.contains(kept[0]));
    }
    if some_set(names, set_vars) {
        let name = choose|name: Seq<char>| #[trigger] names.contains(name) && set_vars.has(name);
        assert(kept.contains(name));
    }
}

/// A configuration passes exactly when none of the retired variables is set, it could be loaded, it is
/// sound, and no check of the mounts found an error.
pub proof fn configurations_pass_when_nothing_is_wrong(
    loaded: LoadedConfig,
    set_vars: TextSet,
    pre_roll: Option<PreRollReport>,
)
    ensures
        none_blocks(all_issues(loaded, set_vars, pre_roll)) <==> {
            &&& !some_set(retired_order_names(), set_vars)
            &&& !some_set(retired_strategy_names(), set_vars)
            &&& loaded matches LoadedConfig::Loaded(config) && sound(config)
            &&& pre_roll matches Some(report) ==> (forall|i: int|
                0 <= i < report.issues@.len() ==> (#[trigger] report.issues@[i]).severity@
                    != "error"@ && report.issues@[i].severity@ != "critical"@)
        },
{
    severities_differ();
    set_names_tell(retired_order_names(), set_vars);
    set_names_tell(retired_strategy_names(), set_vars);
    let retired = crate::lint::retired_issues(set_vars);
    let load = crate::lint::load_issues(loaded);
    let mounts = crate::lint::pre_roll_issues(pre_roll);
    parts_block(retired, load);
    parts_block(retired + load, mounts);
    if retired.len() > 0 {
        assert(crate::lint::blocks_success(retired[0]));
    }
    match loaded {
        LoadedConfig::Loaded(config) => shapes_block(config),
        LoadedConfig::Failed { message, path } => {
            assert(crate::lint::blocks_success(load[0]));
        },
    }
    if pre_roll is Some {
        let issues = pre_roll->0.issues@;
        assert forall|i: int| 0 <= i < issues.len() implies #[trigger] mounts[i] == issues[i]@ by {}
        if none_blocks(mounts) {
            assert forall|i: int| 0 <= i < issues.len() implies (#[trigger] issues[i]).severity@
                != "error"@ && issues[i].severity@ != "critical"@ by {
                assert(!crate::lint::blocks_success(mounts[i]));
            }
        }
    }
}

/// The retired variables are those of the order capabilities and of the strategy composition.
pub proof fn retired_variables_are_known()
    ensures
        retired_order_names().contains("ALPACA_SUBMIT"@),
        retired_order_names().contains("ALPACA_MANAGE"@),
        retired_order_names().contains("ALPACA_CLOSE"@),
        retired_order_names().contains("ALPACA_KILL_SWITCH"@),
        retired_order_names().contains("ALPACA_OPTIONS_LIVE_ENTRY_SUBMIT_ENABLED"@),
        retired_strategy_names().contains("ALPACA_STRATEGY_FAMILIES"@),
        retired_strategy_names().contains("ALPACA_DRY_RUN_FAMILIES"@),
        retired_strategy_names().contains("ALPACA_QTY"@),
        retired_order_names().len() + retired_strategy_names().len() == 8,
{
    let a = retired_order_names();
    assert(a[0] == "ALPACA_SUBMIT"@ && a[1] == "ALPACA_MANAGE"@ && a[2] == "ALPACA_CLOSE"@ && a[3]
        == "ALPACA_KILL_SWITCH"@ && a[4] == "ALPACA_OPTIONS_LIVE_ENTRY_SUBMIT_ENABLED"@);
    let b = retired_strategy_names();
    assert(b[0] == "ALPACA_STRATEGY_FAMILIES"@ && b[1] == "ALPACA_DRY_RUN_FAMILIES"@ && b[2]
        == "ALPACA_QTY"@);
}

// ---------------------------------------------------------------------------------------------
// Mounts
// ---------------------------------------------------------------------------------------------

/// A path can be read in the container exactly when it is of the expected sort and others may read it,
/// and enter it where it is a directory.
pub proof fn containers_read_what_others_may_read(facts: PathFacts, expect_dir: bool)
    requires
        !(facts.is_dir && facts.is_file),
    ensures
        readable(facts, expect_dir) <==> if expect_dir {
            facts.is_dir && facts.mode & 4 == 4 && facts.mode & 1 == 1
        } else {
            facts.is_file && facts.mode & 4 == 4
        },
{
    let m = facts.mode;
    assert((m & 5 == 5) == (m & 4 == 4 && m & 1 == 1)) by (bit_vector);
}

/// A check of a path passes exactly when the path is there and can be read; a missing one is told apart
/// from one that cannot be read, and only these two are issues.
pub proof fn checks_tell_missing_from_unreadable(
    check: PreRollCheck,
    facts: Option<PathFacts>,
    expect_dir: bool,
    in_container: bool,
)
    requires
        checks_path(check, facts, expect_dir),
    ensures
        check.exists == Some(facts is Some),
        facts is None ==> check.status@ == "missing"@ && check.container_readable is None,
        facts matches Some(found) ==> check.container_readable == Some(readable(found, expect_dir)),
        check_issue(check, in_container) is None <==> (facts matches Some(found) && readable(
            found,
            expect_dir,
        )),
        check_issue(check, in_container) matches Some(issue) ==> issue.severity == "error"@ && (
        issue.code == if in_container {
            if facts is None {
                "container_mount_missing"@
            } else {
                "container_mount_not_readable"@
            }
        } else {
            if facts is None {
                "docker_mount_missing"@
            } else {
                "docker_mount_not_container_readable"@
            }
        }),
{
    reveal_strlit("missing");
    reveal_strlit("ok");
    reveal_strlit("not_container_readable");
    assert("missing"@.len() == 7);
    assert("ok"@.len() == 2);
    assert("not_container_readable"@.len() == 22);
}

/// A source is a path exactly when it holds a slash.
pub proof fn sources_with_a_slash_are_paths(value: Seq<char>)
    ensures
        names_path(value) <==> value.contains('/'),
{
    reveal_strlit("/");
    reveal_strlit("./");
    reveal_strlit("../");
    if value.contains('/') {
        let at = value.index_of('/');
        assert(value.subrange(at, at + 1) =~= "/"@);
        assert(crate::text::stands_at(value, "/"@, at));
    }
    if crate::text::begins_with(value, "/"@) {
        assert(value.subrange(0, 1)[0] == value[0]);
    }
    if crate::text::begins_with(value, "./"@) {
        assert(value.subrange(0, 2)[1] == value[1]);
    }
    if crate::text::begins_with(value, "../"@) {
        assert(value.subrange(0, 3)[2] == value[2]);
    }
    if crate::text::holds_part(value, "/"@) {
        let at = choose|at: int| crate::text::stands_at(value, "/"@, at);
        assert(value.subrange(at, at + 1)[0] == value[at]);
    }
}

/// A mount's source is what the environment names, a path or a volume, and the default where it names
/// nothing but space.
pub proof fn the_environment_names_the_source(default: MountDefault, value: Option<Seq<char>>)
    ensures
        ({
            let source = source_of(default, value);
            let named = value matches Some(text) && trimmed(text).len() > 0;
            &&& named && value->0.contains('/') ==> source == SourceView::Bind(value->0)
            &&& named && !value->0.contains('/') ==> source == SourceView::NamedVolume(value->0)
            &&& !named ==> match default {
                MountDefault::NamedVolume(name) => source == SourceView::NamedVolume(name@),
                MountDefault::ComposeFile(name) => source == SourceView::Bind(name@),
            }
        }),
{
    if value is Some {
        sources_with_a_slash_are_paths(value->0);
    }
}

/// A configuration is warned of once for each thing that is not as it should be.
pub proof fn configurations_are_warned_of(config: AlpacaOptionsRuntimeConfig)
    ensures
        crate::lint::shape_issues(config).len() == one_if(config.universe_groups@.len() == 0)
            + one_if(
            config.open_orders_enabled && (forall|i: int|
                0 <= i < config.strategy_profiles@.len() ==> !((
                #[trigger] config.strategy_profiles@[i]).mode is Live)),
        ) + crate::lint::all_profile_issues(config.strategy_profiles@).len()
            + crate::lint::policy_issues(config.fleet_policy_blocks@).len()
            + crate::lint::shock_issues(config.event_shock).len(),
{
    let live = crate::lint::live_profiles(config.strategy_profiles@);
    let profiles = config.strategy_profiles@;
    if live.len() > 0 {
        assert(live.contains(live[0]));
        crate::text_set::filter_has(
            profiles,
            |profile: crate::profile::AlpacaOptionsStrategyProfile| profile.mode is Live,
            live[0],
        );
        let i = profiles.index_of(live[0]);
        assert(profiles[i].mode is Live);
    }
    if exists|i: int| 0 <= i < profiles.len() && (#[trigger] profiles[i]).mode is Live {
        let i = choose|i: int| 0 <= i < profiles.len() && (#[trigger] profiles[i]).mode is Live;
        assert(profiles.contains(profiles[i]));
        crate::text_set::filter_has(
            profiles,
            |profile: crate::profile::AlpacaOptionsStrategyProfile| profile.mode is Live,
            profiles[i],
        );
        assert(live.contains(profiles[i]));
    }
}

/// A profile is warned of once for underlyings of its own alone, once for a live strategy of undefined
/// risk, and once for a quantity of zero.
pub proof fn profiles_have_three_things_to_warn_of(
    profile: crate::profile::AlpacaOptionsStrategyProfile,
)
    ensures
        crate::lint::profile_issues(profile).len() == one_if(
            profile.universe_groups@.len() == 0 && profile.include_underlyings@.len() > 0,
        ) + one_if(profile.mode is Live && profile.family.undefined_risk()) + one_if(
            profile.quantity == 0,
        ),
{
}

/// The phrases by which a configuration error is told, in the order in which they are looked for.
pub open spec fn error_phrases() -> Seq<(Seq<char>, Seq<char>)> {
    seq![
        ("retired Alpaca order capability env vars"@, "retired_order_capability_env_vars"@),
        ("retired Alpaca strategy composition env vars"@, "retired_strategy_composition_env_vars"@),
        ("positional Alpaca underlyings are retired"@, "retired_positional_underlyings"@),
        ("references unknown universe group"@, "unknown_universe_group"@),
        (
            "requires universe_groups, underlyings, or include_underlyings"@,
            "profile_missing_universe"@,
        ),
        (
            "requires at least one explicit [[strategies]] profile"@,
            "missing_strategy_profiles"@,
        ),
        ("unknown field"@, "unknown_config_field"@),
    ]
}

/// A configuration error has the code of the first phrase that its message holds, and is invalid in
/// general where it holds none.
pub proof fn errors_are_coded_by_their_phrase(message: Seq<char>, at: int)
    requires
        0 <= at <= error_phrases().len(),
        forall|i: int|
            0 <= i < at ==> !crate::text::holds_part(message, (#[trigger] error_phrases()[i]).0),
        at < error_phrases().len() ==> crate::text::holds_part(message, error_phrases()[at].0),
    ensures
        at < error_phrases().len() ==> crate::lint::error_code(message) == error_phrases()[at].1,
        at == error_phrases().len() ==> crate::lint::error_code(message)
            == "runtime_config_invalid"@,
{
    assert(forall|i: int|
        0 <= i < at ==> !crate::text::holds_part(message, (#[trigger] error_phrases()[i]).0));
    if at > 0 {
        let _ = error_phrases()[0];
    }
    if at > 1 {
        let _ = error_phrases()[1];
    }
    if at > 2 {
        let _ = error_phrases()[2];
    }
    if at > 3 {
        let _ = error_phrases()[3];
    }
    if at > 4 {
        let _ = error_phrases()[4];
    }
    if at > 5 {
        let _ = error_phrases()[5];
    }
    if at > 6 {
        let _ = error_phrases()[6];
    }
}

} // verus!
