//! Operator alerts.
use vstd::prelude::*;

use crate::broker::AlpacaOrder;
use crate::calendar::UtcInstant;
use crate::evidence::chars_or;
use crate::evidence::compact_chars;
use crate::evidence::compact_json;
use crate::evidence::last_where;
use crate::evidence::last_where_bounds;
use crate::evidence::latest_recent_event;
use crate::evidence::latest_recent_lifecycle_block;
use crate::evidence::passing;
use crate::evidence::recent_block;
use crate::evidence::recent_event_count;
use crate::evidence::recent_lifecycle_block;
use crate::evidence::recent_management_block_reason;
use crate::evidence::recent_of_type;
use crate::evidence::some_passes;
use crate::evidence::Evidence;
use crate::json::Json;
use crate::status::AccountStatus;
use crate::status::ActiveEntryStatus;
use crate::status::OperatorConfig;
use crate::status::OrdersStatus;
use crate::status::PositionsStatus;
use crate::status::RiskStatus;
use crate::status::ServiceStatus;
use crate::status::StrategyStateStatus;
use crate::text::count_text;
use crate::text::decimal;
use crate::text::decimal_text;
use crate::text::opt_text;
use crate::text::same_text;
use crate::text::signed_decimal;
use crate::text::signed_text;
use crate::text_map::TextMap;
use crate::text_set::filter_step;

verus! {

/// How serious an alert is.
#[derive(Clone, Copy, Debug, PartialEq, Eq, Structural)]
pub enum AlertSeverity {
    /// For information.
    Info,
    /// To be looked at.
    Warning,
    /// To be acted on.
    Critical,
}

/// The name of a severity.
pub open spec fn severity_name(severity: AlertSeverity) -> Seq<char> {
    match severity {
        AlertSeverity::Info => "Info"@,
        AlertSeverity::Warning => "Warning"@,
        AlertSeverity::Critical => "Critical"@,
    }
}

impl AlertSeverity {
    /// Returns the name of the severity.
    pub fn name(self) -> (name: &'static str)
        ensures
            name@ == severity_name(self),
    {
        match self {
            AlertSeverity::Info => "Info",
            AlertSeverity::Warning => "Warning",
            AlertSeverity::Critical => "Critical",
        }
    }
}

/// An alert for the operator.
#[derive(Clone, Debug)]
pub struct OperatorAlert {
    /// Severity.
    pub severity: AlertSeverity,
    /// Code.
    pub code: &'static str,
    /// Message.
    pub message: String,
}

/// What an alert says.
pub struct AlertView {
    /// Severity.
    pub severity: AlertSeverity,
    /// Code.
    pub code: Seq<char>,
    /// Message.
    pub message: Seq<char>,
}

impl View for OperatorAlert {
    type V = AlertView;

    open spec fn view(&self) -> AlertView {
        AlertView { severity: self.severity, code: self.code@, message: self.message@ }
    }
}

/// What some alerts say.
pub open spec fn alert_views(alerts: Seq<OperatorAlert>) -> Seq<AlertView> {
    Seq::new(alerts.len(), |i: int| alerts[i]@)
}

/// One alert where a condition holds.
pub open spec fn alert_if(
    holds: bool,
    severity: AlertSeverity,
    code: Seq<char>,
    message: Seq<char>,
) -> Seq<AlertView> {
    if holds {
        seq![AlertView { severity, code, message }]
    } else {
        Seq::empty()
    }
}

fn alert_when(
    alerts: &mut Vec<OperatorAlert>,
    holds: bool,
    severity: AlertSeverity,
    code: &'static str,
    message: String,
)
    ensures
        alert_views(final(alerts)@) == alert_views(old(alerts)@) + alert_if(
            holds,
            severity,
            code@,
            message@,
        ),
{
    if holds {
        alerts.push(OperatorAlert { severity, code, message });
    }
    assert(alert_views(alerts@) =~= alert_views(old(alerts)@) + alert_if(
        holds,
        severity,
        code@,
        message@,
    ));
}

// ---------------------------------------------------------------------------------------------
// Service and account
// ---------------------------------------------------------------------------------------------

/// The alerts on the service and the account.
pub open spec fn account_alerts(
    config: OperatorConfig,
    service: ServiceStatus,
    account: AccountStatus,
) -> Seq<AlertView> {
    alert_if(
        service.active == Some(false),
        AlertSeverity::Critical,
        "service_inactive"@,
        service.name@ + " is not active"@,
    ) + alert_if(
        account.status@ != "ACTIVE"@,
        AlertSeverity::Critical,
        "account_not_active"@,
        "Alpaca account status is "@ + account.status@,
    ) + alert_if(
        account.trading_blocked || account.account_blocked || account.trade_suspended_by_user,
        AlertSeverity::Critical,
        "account_trading_blocked"@,
        "Alpaca account is blocked or trading is suspended"@,
    ) + alert_if(
        !config.open_orders_enabled,
        AlertSeverity::Info,
        "open_orders_disabled"@,
        "broker orders which open new risk are disabled"@,
    ) + alert_if(
        !config.close_orders_enabled,
        AlertSeverity::Info,
        "close_orders_disabled"@,
        "broker orders which close or reduce risk are disabled"@,
    )
}

fn push_account_alerts(
    alerts: &mut Vec<OperatorAlert>,
    config: &OperatorConfig,
    service: &ServiceStatus,
    account: &AccountStatus,
)
    ensures
        alert_views(final(alerts)@) == alert_views(old(alerts)@) + account_alerts(
            *config,
            *service,
            *account,
        ),
{
    let inactive: bool = match service.active {
        Some(active) => !active,
        None => false,
    };
    alert_when(
        alerts,
        inactive,
        AlertSeverity::Critical,
        "service_inactive",
        service.name.clone().concat(" is not active"),
    );
    alert_when(
        alerts,
        !same_text(account.status.as_str(), "ACTIVE"),
        AlertSeverity::Critical,
        "account_not_active",
        "Alpaca account status is ".to_owned().concat(account.status.as_str()),
    );
    alert_when(
        alerts,
        account.trading_blocked || account.account_blocked || account.trade_suspended_by_user,
        AlertSeverity::Critical,
        "account_trading_blocked",
        "Alpaca account is blocked or trading is suspended".to_owned(),
    );
    alert_when(
        alerts,
        !config.open_orders_enabled,
        AlertSeverity::Info,
        "open_orders_disabled",
        "broker orders which open new risk are disabled".to_owned(),
    );
    alert_when(
        alerts,
        !config.close_orders_enabled,
        AlertSeverity::Info,
        "close_orders_disabled",
        "broker orders which close or reduce risk are disabled".to_owned(),
    );
    assert(alert_views(alerts@) =~= alert_views(old(alerts)@) + account_alerts(
        *config,
        *service,
        *account,
    ));
}

/// One alert for each policy that blocks new entries.
pub open spec fn policy_alerts(blocks: Seq<String>) -> Seq<AlertView> {
    Seq::new(
        blocks.len(),
        |i: int|
            AlertView {
                severity: AlertSeverity::Critical,
                code: "fleet_policy_block"@,
                message: "fleet policy is blocking new entries: "@ + blocks[i]@,
            },
    )
}

fn push_policy_alerts(alerts: &mut Vec<OperatorAlert>, blocks: &Vec<String>)
    ensures
        alert_views(final(alerts)@) == alert_views(old(alerts)@) + policy_alerts(blocks@),
{
    let n: usize = blocks.len();
    let ghost start = alert_views(alerts@);
    assert(start =~= start + policy_alerts(blocks@.take(0)));
    for i in 0..n
        invariant
            n == blocks@.len(),
            alert_views(alerts@) == start + policy_alerts(blocks@.take(i as int)),
    {
        alert_when(
            alerts,
            true,
            AlertSeverity::Critical,
            "fleet_policy_block",
            "fleet policy is blocking new entries: ".to_owned().concat(blocks[i].as_str()),
        );
        assert(alert_views(alerts@) =~= start + policy_alerts(blocks@.take(i + 1)));
    }
    assert(blocks@.take(n as int) =~= blocks@);
}

// ---------------------------------------------------------------------------------------------
// Orders and positions
// ---------------------------------------------------------------------------------------------

/// The alerts on orders.
pub open spec fn order_alerts(stale_order_secs: i64, orders: OrdersStatus) -> Seq<AlertView> {
    alert_if(
        orders.recent_rejected > 0,
        AlertSeverity::Warning,
        "recent_rejected_orders"@,
        decimal(orders.recent_rejected as nat) + " recent Alpaca orders are rejected"@,
    ) + alert_if(
        orders.stale_working > 0,
        AlertSeverity::Warning,
        "stale_working_orders"@,
        decimal(orders.stale_working as nat) + " open orders are older than "@ + signed_decimal(
            stale_order_secs as int,
        ) + " seconds"@,
    ) + alert_if(
        orders.partial_filled > 0,
        AlertSeverity::Warning,
        "partial_filled_orders"@,
        decimal(orders.partial_filled as nat) + " open orders have partial fills"@,
    ) + alert_if(
        orders.accepted_not_filled > 0,
        AlertSeverity::Info,
        "accepted_not_filled_orders"@,
        decimal(orders.accepted_not_filled as nat)
            + " open orders are accepted/new with no fill yet"@,
    )
}

fn push_order_alerts(alerts: &mut Vec<OperatorAlert>, stale_order_secs: i64, orders: &OrdersStatus)
    ensures
        alert_views(final(alerts)@) == alert_views(old(alerts)@) + order_alerts(
            stale_order_secs,
            *orders,
        ),
{
    alert_when(
        alerts,
        orders.recent_rejected > 0,
        AlertSeverity::Warning,
        "recent_rejected_orders",
        count_text(orders.recent_rejected).concat(" recent Alpaca orders are rejected"),
    );
    alert_when(
        alerts,
        orders.stale_working > 0,
        AlertSeverity::Warning,
        "stale_working_orders",
        count_text(orders.stale_working).concat(" open orders are older than ").concat(
            signed_text(stale_order_secs).as_str(),
        ).concat(" seconds"),
    );
    alert_when(
        alerts,
        orders.partial_filled > 0,
        AlertSeverity::Warning,
        "partial_filled_orders",
        count_text(orders.partial_filled).concat(" open orders have partial fills"),
    );
    alert_when(
        alerts,
        orders.accepted_not_filled > 0,
        AlertSeverity::Info,
        "accepted_not_filled_orders",
        count_text(orders.accepted_not_filled).concat(
            " open orders are accepted/new with no fill yet",
        ),
    );
    assert(alert_views(alerts@) =~= alert_views(old(alerts)@) + order_alerts(
        stale_order_secs,
        *orders,
    ));
}

/// The alerts on positions and on what the strategy state says of them.
pub open spec fn exposure_alerts(
    open_orders: int,
    orders: OrdersStatus,
    positions: PositionsStatus,
    strategy_state: StrategyStateStatus,
) -> Seq<AlertView> {
    alert_if(
        positions.unmanaged > 0,
        AlertSeverity::Critical,
        "unmanaged_positions"@,
        decimal(positions.unmanaged as nat)
            + " open positions are not represented in strategy state"@,
    ) + alert_if(
        strategy_state.active_entries > 0 && open_orders == 0 && positions.total == 0,
        AlertSeverity::Warning,
        "state_broker_mismatch"@,
        "strategy state has active entries but broker has no open orders or positions"@,
    ) + alert_if(
        !strategy_state.exists && (orders.open > 0 || positions.total > 0),
        AlertSeverity::Critical,
        "missing_strategy_state"@,
        "broker exposure exists but the local strategy state file is missing"@,
    )
}

fn push_exposure_alerts(
    alerts: &mut Vec<OperatorAlert>,
    open_orders: usize,
    orders: &OrdersStatus,
    positions: &PositionsStatus,
    strategy_state: &StrategyStateStatus,
)
    ensures
        alert_views(final(alerts)@) == alert_views(old(alerts)@) + exposure_alerts(
            open_orders as int,
            *orders,
            *positions,
            *strategy_state,
        ),
{
    alert_when(
        alerts,
        positions.unmanaged > 0,
        AlertSeverity::Critical,
        "unmanaged_positions",
        count_text(positions.unmanaged).concat(
            " open positions are not represented in strategy state",
        ),
    );
    alert_when(
        alerts,
        strategy_state.active_entries > 0 && open_orders == 0 && positions.total == 0,
        AlertSeverity::Warning,
        "state_broker_mismatch",
        "strategy state has active entries but broker has no open orders or positions".to_owned(),
    );
    alert_when(
        alerts,
        !strategy_state.exists && (orders.open > 0 || positions.total > 0),
        AlertSeverity::Critical,
        "missing_strategy_state",
        "broker exposure exists but the local strategy state file is missing".to_owned(),
    );
    assert(alert_views(alerts@) =~= alert_views(old(alerts)@) + exposure_alerts(
        open_orders as int,
        *orders,
        *positions,
        *strategy_state,
    ));
}

// ---------------------------------------------------------------------------------------------
// Risk caps
// ---------------------------------------------------------------------------------------------

/// An alert where a count is at its cap.
pub open spec fn cap_alert(
    current: usize,
    cap: Option<usize>,
    code: Seq<char>,
    head: Seq<char>,
) -> Seq<AlertView> {
    match cap {
        Some(limit) => alert_if(
            current >= limit,
            AlertSeverity::Warning,
            code,
            head + decimal(current as nat) + "/"@ + decimal(limit as nat),
        ),
        None => Seq::empty(),
    }
}

fn push_cap_alert(
    alerts: &mut Vec<OperatorAlert>,
    current: usize,
    cap: Option<usize>,
    code: &'static str,
    head: String,
)
    ensures
        alert_views(final(alerts)@) == alert_views(old(alerts)@) + cap_alert(
            current,
            cap,
            code@,
            head@,
        ),
{
    match cap {
        Some(limit) => {
            alert_when(
                alerts,
                current >= limit,
                AlertSeverity::Warning,
                code,
                head.concat(count_text(current).as_str()).concat("/").concat(
                    count_text(limit).as_str(),
                ),
            );
        },
        None => {
            assert(alert_views(alerts@) =~= alert_views(old(alerts)@) + cap_alert(
                current,
                cap,
                code@,
                head@,
            ));
        },
    }
}

/// An alert for each key whose count is at the cap, in key order.
pub open spec fn group_cap_alerts(
    counts: Seq<(String, usize)>,
    cap: Option<usize>,
    code: Seq<char>,
    middle: Seq<char>,
) -> Seq<AlertView>
    decreases counts.len(),
{
    if counts.len() == 0 {
        Seq::empty()
    } else {
        group_cap_alerts(counts.drop_last(), cap, code, middle) + cap_alert(
            counts.last().1,
            cap,
            code,
            counts.last().0@ + middle,
        )
    }
}

fn push_group_cap_alerts(
    alerts: &mut Vec<OperatorAlert>,
    counts: &TextMap<usize>,
    cap: Option<usize>,
    code: &'static str,
    middle: &'static str,
)
    ensures
        alert_views(final(alerts)@) == alert_views(old(alerts)@) + group_cap_alerts(
            counts@,
            cap,
            code@,
            middle@,
        ),
{
    let n: usize = counts.len();
    let ghost start = alert_views(alerts@);
    assert(start =~= start + group_cap_alerts(counts@.take(0), cap, code@, middle@));
    for i in 0..n
        invariant
            n == counts@.len(),
            alert_views(alerts@) == start + group_cap_alerts(
                counts@.take(i as int),
                cap,
                code@,
                middle@,
            ),
    {
        push_cap_alert(
            alerts,
            *counts.value(i),
            cap,
            code,
            counts.key(i).to_owned().concat(middle),
        );
        proof {
            let next = counts@.take(i + 1);
            assert(next.drop_last() =~= counts@.take(i as int));
            assert(next.last() == counts@[i as int]);
            assert(alert_views(alerts@) =~= start + group_cap_alerts(next, cap, code@, middle@));
        }
    }
    assert(counts@.take(n as int) =~= counts@);
}

/// The alerts on risk caps.
pub open spec fn risk_alerts(risk: RiskStatus) -> Seq<AlertView> {
    cap_alert(
        risk.active_entries,
        risk.max_active_entries,
        "risk_max_active_entries"@,
        "active strategy entries are at the configured cap: "@,
    ) + group_cap_alerts(
        risk.active_entries_by_underlying@,
        risk.max_active_entries_per_underlying,
        "risk_max_active_entries_per_underlying"@,
        " active entries are at the per-underlying cap: "@,
    ) + group_cap_alerts(
        risk.active_entries_by_sector@,
        risk.max_active_entries_per_sector,
        "risk_max_active_entries_per_sector"@,
        " active entries are at the sector cap: "@,
    ) + cap_alert(
        risk.daily_submits,
        risk.max_daily_submits,
        "risk_max_daily_submits"@,
        "daily submissions for "@ + risk.trade_date@ + " are at the configured cap: "@,
    ) + cap_alert(
        risk.open_orders,
        risk.max_open_orders,
        "risk_max_open_orders"@,
        "open orders are at the configured cap: "@,
    )
}

fn push_risk_alerts(alerts: &mut Vec<OperatorAlert>, risk: &RiskStatus)
    ensures
        alert_views(final(alerts)@) == alert_views(old(alerts)@) + risk_alerts(*risk),
{
    push_cap_alert(
        alerts,
        risk.active_entries,
        risk.max_active_entries,
        "risk_max_active_entries",
        "active strategy entries are at the configured cap: ".to_owned(),
    );
    push_group_cap_alerts(
        alerts,
        &risk.active_entries_by_underlying,
        risk.max_active_entries_per_underlying,
        "risk_max_active_entries_per_underlying",
        " active entries are at the per-underlying cap: ",
    );
    push_group_cap_alerts(
        alerts,
        &risk.active_entries_by_sector,
        risk.max_active_entries_per_sector,
        "risk_max_active_entries_per_sector",
        " active entries are at the sector cap: ",
    );
    push_cap_alert(
        alerts,
        risk.daily_submits,
        risk.max_daily_submits,
        "risk_max_daily_submits",
        "daily submissions for ".to_owned().concat(risk.trade_date.as_str()).concat(
            " are at the configured cap: ",
        ),
    );
    push_cap_alert(
        alerts,
        risk.open_orders,
        risk.max_open_orders,
        "risk_max_open_orders",
        "open orders are at the configured cap: ".to_owned(),
    );
    assert(alert_views(alerts@) =~= alert_views(old(alerts)@) + risk_alerts(*risk));
}

/// An alert for each active entry whose close attempts are exhausted.
pub open spec fn attempt_alerts(
    entries: Seq<ActiveEntryStatus>,
    max_close_attempts: u32,
) -> Seq<AlertView>
    decreases entries.len(),
{
    if entries.len() == 0 {
        Seq::empty()
    } else {
        let entry = entries.last();
        attempt_alerts(entries.drop_last(), max_close_attempts) + alert_if(
            max_close_attempts > 0 && entry.close_attempts >= max_close_attempts,
            AlertSeverity::Critical,
            "close_attempts_exhausted"@,
            entry.underlying@ + " "@ + entry.strategy@ + " close attempts are exhausted: "@
                + decimal(entry.close_attempts as nat) + "/"@ + decimal(max_close_attempts as nat),
        )
    }
}

fn push_attempt_alerts(
    alerts: &mut Vec<OperatorAlert>,
    entries: &Vec<ActiveEntryStatus>,
    max_close_attempts: u32,
)
    ensures
        alert_views(final(alerts)@) == alert_views(old(alerts)@) + attempt_alerts(
            entries@,
            max_close_attempts,
        ),
{
    let n: usize = entries.len();
    let ghost start = alert_views(alerts@);
    assert(start =~= start + attempt_alerts(entries@.take(0), max_close_attempts));
    for i in 0..n
        invariant
            n == entries@.len(),
            alert_views(alerts@) == start + attempt_alerts(
                entries@.take(i as int),
                max_close_attempts,
            ),
    {
        let entry = &entries[i];
        alert_when(
            alerts,
            max_close_attempts > 0 && entry.close_attempts >= max_close_attempts,
            AlertSeverity::Critical,
            "close_attempts_exhausted",
            entry.underlying.clone().concat(" ").concat(entry.strategy.as_str()).concat(
                " close attempts are exhausted: ",
            ).concat(decimal_text(entry.close_attempts as u64).as_str()).concat("/").concat(
                decimal_text(max_close_attempts as u64).as_str(),
            ),
        );
        proof {
            let next = entries@.take(i + 1);
            assert(next.drop_last() =~= entries@.take(i as int));
            assert(next.last() == entries@[i as int]);
            assert(alert_views(alerts@) =~= start + attempt_alerts(next, max_close_attempts));
        }
    }
    assert(entries@.take(n as int) =~= entries@);
}

// ---------------------------------------------------------------------------------------------
// Events
// ---------------------------------------------------------------------------------------------

/// The value of the last recent event of a type.
pub open spec fn recent_value(events: Seq<Evidence>, event_type: Seq<char>, now: UtcInstant) -> Option<
    Json,
> {
    match last_where(events, |value: Json| recent_of_type(value, event_type, now, 3600)) {
        Some(at) => Some(events[at].value),
        None => None,
    }
}

/// The alert on the last recent management block, unless that is about stale quotes.
pub open spec fn block_alert(event: Option<Json>) -> Seq<AlertView> {
    match event {
        Some(value) => {
            let reason = chars_or(value.text_field("reason"@), "unknown"@);
            alert_if(
                reason != "active_risk_quote_stale"@,
                AlertSeverity::Warning,
                "management_block"@,
                "recent management block: "@ + reason,
            )
        },
        None => Seq::empty(),
    }
}

/// The alert on the close trigger of the last recent management snapshot.
pub open spec fn trigger_alert(event: Option<Json>) -> Seq<AlertView> {
    match event {
        Some(value) => match value.text_field("close_reason"@) {
            Some(reason) => alert_if(
                true,
                AlertSeverity::Warning,
                "close_trigger_active"@,
                chars_or(value.text_field("underlying"@), "unknown"@)
                    + " has an active close trigger: "@ + reason,
            ),
            None => Seq::empty(),
        },
        None => Seq::empty(),
    }
}

/// The number of events of a type in the last hour.
pub open spec fn hourly_count(events: Seq<Evidence>, event_type: Seq<char>, now: UtcInstant) -> nat {
    passing(events, |value: Json| recent_of_type(value, event_type, now, 3600)).len()
}

/// The alerts on management events.
pub open spec fn management_alerts(events: Seq<Evidence>, now: UtcInstant) -> Seq<AlertView> {
    block_alert(recent_value(events, "management_block"@, now)) + trigger_alert(
        recent_value(events, "management_snapshot"@, now),
    ) + alert_if(
        some_passes(
            events,
            |value: Json| recent_block(value, "active_risk_quote_stale"@, now, 3600),
        ),
        AlertSeverity::Warning,
        "active_risk_quote_stale"@,
        "active-risk option quotes are stale for at least one managed entry"@,
    )
}

/// The alert on a recent lifecycle block with a compact text.
pub open spec fn lifecycle_block_alert(block: Option<Seq<char>>) -> Seq<AlertView> {
    match block {
        Some(text) => alert_if(
            true,
            AlertSeverity::Critical,
            "option_lifecycle_block"@,
            "recent option lifecycle block: "@ + text,
        ),
        None => Seq::empty(),
    }
}

/// The alerts on lifecycle, service and reconciliation events, with the compact text of the recent
/// lifecycle block.
pub open spec fn runtime_alerts(
    events: Seq<Evidence>,
    block: Option<Seq<char>>,
    now: UtcInstant,
) -> Seq<AlertView> {
    alert_if(
        hourly_count(events, "option_lifecycle_poll_error"@, now) > 0,
        AlertSeverity::Critical,
        "option_lifecycle_poll_error"@,
        "the option lifecycle risk poller failed in the last hour"@,
    ) + lifecycle_block_alert(block) + alert_if(
        hourly_count(events, "runner_start"@, now) > 1,
        AlertSeverity::Warning,
        "service_restart_recent"@,
        "the runner emitted multiple start events in the last hour"@,
    ) + alert_if(
        hourly_count(events, "websocket_disconnect"@, now) > 0,
        AlertSeverity::Critical,
        "websocket_disconnect"@,
        "a trade-update websocket disconnect event was emitted in the last hour"@,
    ) + alert_if(
        hourly_count(events, "reconciliation_error"@, now) > 0,
        AlertSeverity::Critical,
        "reconciliation_error"@,
        "a broker reconciliation repair error was emitted in the last hour"@,
    )
}

fn push_management_alerts(alerts: &mut Vec<OperatorAlert>, events: &Vec<Evidence>, now: UtcInstant)
    ensures
        alert_views(final(alerts)@) == alert_views(old(alerts)@) + management_alerts(events@, now),
{
    let ghost start = alert_views(alerts@);
    let ghost blocked = recent_value(events@, "management_block"@, now);
    let ghost shot = recent_value(events@, "management_snapshot"@, now);
    proof {
        last_where_bounds(
            events@,
            |value: Json| recent_of_type(value, "management_block"@, now, 3600),
        );
        last_where_bounds(
            events@,
            |value: Json| recent_of_type(value, "management_snapshot"@, now, 3600),
        );
    }
    match latest_recent_event(events, "management_block", now, 3600) {
        Some(at) => {
            let reason = match events[at].value.get_str("reason") {
                Some(text) => text,
                None => "unknown",
            };
            alert_when(
                alerts,
                !same_text(reason, "active_risk_quote_stale"),
                AlertSeverity::Warning,
                "management_block",
                "recent management block: ".to_owned().concat(reason),
            );
        },
        None => {},
    }
    assert(alert_views(alerts@) =~= start + block_alert(blocked));
    match latest_recent_event(events, "management_snapshot", now, 3600) {
        Some(at) => {
            let value = &events[at].value;
            match value.get_str("close_reason") {
                Some(reason) => {
                    let underlying = match value.get_str("underlying") {
                        Some(text) => text,
                        None => "unknown",
                    };
                    alert_when(
                        alerts,
                        true,
                        AlertSeverity::Warning,
                        "close_trigger_active",
                        underlying.to_owned().concat(" has an active close trigger: ").concat(
                            reason,
                        ),
                    );
                },
                None => {},
            }
        },
        None => {},
    }
    assert(alert_views(alerts@) =~= start + block_alert(blocked) + trigger_alert(shot));
    alert_when(
        alerts,
        recent_management_block_reason(events, "active_risk_quote_stale", now, 3600),
        AlertSeverity::Warning,
        "active_risk_quote_stale",
        "active-risk option quotes are stale for at least one managed entry".to_owned(),
    );
    assert(alert_views(alerts@) =~= start + management_alerts(events@, now));
}

fn push_runtime_alerts(
    alerts: &mut Vec<OperatorAlert>,
    events: &Vec<Evidence>,
    block: Option<String>,
    now: UtcInstant,
)
    ensures
        alert_views(final(alerts)@) == alert_views(old(alerts)@) + runtime_alerts(
            events@,
            opt_text(block),
            now,
        ),
{
    let ghost start = alert_views(alerts@);
    let ghost block_text = opt_text(block);
    alert_when(
        alerts,
        recent_event_count(events, "option_lifecycle_poll_error", now, 3600) > 0,
        AlertSeverity::Critical,
        "option_lifecycle_poll_error",
        "the option lifecycle risk poller failed in the last hour".to_owned(),
    );
    let ghost polled = alert_views(alerts@);
    match block {
        Some(text) => {
            alert_when(
                alerts,
                true,
                AlertSeverity::Critical,
                "option_lifecycle_block",
                "recent option lifecycle block: ".to_owned().concat(text.as_str()),
            );
        },
        None => {},
    }
    assert(alert_views(alerts@) =~= polled + lifecycle_block_alert(block_text));
    alert_when(
        alerts,
        recent_event_count(events, "runner_start", now, 3600) > 1,
        AlertSeverity::Warning,
        "service_restart_recent",
        "the runner emitted multiple start events in the last hour".to_owned(),
    );
    alert_when(
        alerts,
        recent_event_count(events, "websocket_disconnect", now, 3600) > 0,
        AlertSeverity::Critical,
        "websocket_disconnect",
        "a trade-update websocket disconnect event was emitted in the last hour".to_owned(),
    );
    alert_when(
        alerts,
        recent_event_count(events, "reconciliation_error", now, 3600) > 0,
        AlertSeverity::Critical,
        "reconciliation_error",
        "a broker reconciliation repair error was emitted in the last hour".to_owned(),
    );
    assert(alert_views(alerts@) =~= start + runtime_alerts(events@, block_text, now));
}

// ---------------------------------------------------------------------------------------------
// All alerts
// ---------------------------------------------------------------------------------------------

/// What the alerts are raised from.
#[derive(Clone, Copy)]
pub struct AlertInputs<'a> {
    /// Configuration.
    pub config: &'a OperatorConfig,
    /// Service.
    pub service: &'a ServiceStatus,
    /// Account.
    pub account: &'a AccountStatus,
    /// Orders.
    pub orders: &'a OrdersStatus,
    /// Positions.
    pub positions: &'a PositionsStatus,
    /// Strategy state.
    pub strategy_state: &'a StrategyStateStatus,
    /// Active entries.
    pub active_entries: &'a Vec<ActiveEntryStatus>,
    /// Risk.
    pub risk: &'a RiskStatus,
    /// Open orders.
    pub open_orders: &'a Vec<AlpacaOrder>,
    /// Events.
    pub events: &'a Vec<Evidence>,
    /// Current time.
    pub now: UtcInstant,
}

/// The alerts in the order in which they are raised, with the compact text of the recent lifecycle
/// block.
pub open spec fn raised_alerts(inputs: AlertInputs<'_>, block: Option<Seq<char>>) -> Seq<AlertView> {
    account_alerts(*inputs.config, *inputs.service, *inputs.account) + policy_alerts(
        inputs.config.fleet_policy_blocks@,
    ) + order_alerts(inputs.config.stale_order_secs, *inputs.orders) + exposure_alerts(
        inputs.open_orders@.len() as int,
        *inputs.orders,
        *inputs.positions,
        *inputs.strategy_state,
    ) + risk_alerts(*inputs.risk) + attempt_alerts(
        inputs.active_entries@,
        inputs.config.max_close_attempts,
    ) + management_alerts(inputs.events@, inputs.now) + runtime_alerts(
        inputs.events@,
        block,
        inputs.now,
    )
}

/// Raises all alerts, given the compact text of the recent lifecycle block.
pub fn raise_alerts(inputs: AlertInputs<'_>, block: Option<String>) -> (alerts: Vec<OperatorAlert>)
    ensures
        alert_views(alerts@) == raised_alerts(inputs, opt_text(block)),
{
    let mut alerts: Vec<OperatorAlert> = Vec::new();
    let ghost text = opt_text(block);
    assert(alert_views(alerts@) =~= Seq::<AlertView>::empty());
    push_account_alerts(&mut alerts, inputs.config, inputs.service, inputs.account);
    assert(alert_views(alerts@) =~= account_alerts(
        *inputs.config,
        *inputs.service,
        *inputs.account,
    ));
    push_policy_alerts(&mut alerts, &inputs.config.fleet_policy_blocks);
    push_order_alerts(&mut alerts, inputs.config.stale_order_secs, inputs.orders);
    push_exposure_alerts(
        &mut alerts,
        inputs.open_orders.len(),
        inputs.orders,
        inputs.positions,
        inputs.strategy_state,
    );
    push_risk_alerts(&mut alerts, inputs.risk);
    push_attempt_alerts(&mut alerts, inputs.active_entries, inputs.config.max_close_attempts);
    push_management_alerts(&mut alerts, inputs.events, inputs.now);
    push_runtime_alerts(&mut alerts, inputs.events, block, inputs.now);
    assert(alert_views(alerts@) == raised_alerts(inputs, text));
    alerts
}

/// The compact text of the last lifecycle poll of the last day with blocks.
pub open spec fn lifecycle_block_text(events: Seq<Evidence>, now: UtcInstant) -> Option<Seq<char>> {
    match last_where(events, |value: Json| recent_lifecycle_block(value, now, 86_400)) {
        Some(at) => Some(compact_chars(events[at].raw@)),
        None => None,
    }
}

/// Raises all alerts.
pub fn build_alerts(inputs: AlertInputs<'_>) -> (alerts: Vec<OperatorAlert>)
    ensures
        alert_views(alerts@) == raised_alerts(
            inputs,
            lifecycle_block_text(inputs.events@, inputs.now),
        ),
{
    proof {
        last_where_bounds(
            inputs.events@,
            |value: Json| recent_lifecycle_block(value, inputs.now, 86_400),
        );
    }
    let block = match latest_recent_lifecycle_block(inputs.events, inputs.now, 86_400) {
        Some(at) => Some(compact_json(inputs.events[at].raw.as_str())),
        None => None,
    };
    raise_alerts(inputs, block)
}

/// The alerts of one severity, in order.
pub open spec fn alerts_of(alerts: Seq<AlertView>, severity: AlertSeverity) -> Seq<AlertView> {
    alerts.filter(|alert: AlertView| alert.severity == severity)
}

/// The alerts by severity, the most serious first, those of one severity in order.
pub open spec fn by_severity(alerts: Seq<AlertView>) -> Seq<AlertView> {
    alerts_of(alerts, AlertSeverity::Critical) + alerts_of(alerts, AlertSeverity::Warning)
        + alerts_of(alerts, AlertSeverity::Info)
}

fn push_severity(sorted: &mut Vec<OperatorAlert>, alerts: &Vec<OperatorAlert>, severity: AlertSeverity)
    ensures
        alert_views(final(sorted)@) == alert_views(old(sorted)@) + alerts_of(
            alert_views(alerts@),
            severity,
        ),
{
    let ghost start = alert_views(sorted@);
    let ghost all = alert_views(alerts@);
    let n: usize = alerts.len();
    proof {
        reveal(Seq::filter);
        assert(start =~= start + alerts_of(all.take(0), severity));
    }
    for i in 0..n
        invariant
            n == alerts@.len(),
            all == alert_views(alerts@),
            alert_views(sorted@) == start + alerts_of(all.take(i as int), severity),
    {
        let alert = &alerts[i];
        let ghost before = alert_views(sorted@);
        proof {
            filter_step(all, i as int, |alert: AlertView| alert.severity == severity);
            assert(all[i as int] == alert@);
        }
        if alert.severity == severity {
            sorted.push(
                OperatorAlert { severity, code: alert.code, message: alert.message.clone() },
            );
            assert(alert_views(sorted@) =~= before.push(alert@));
        }
        assert(alert_views(sorted@) =~= start + alerts_of(all.take(i + 1), severity));
    }
    assert(all.take(n as int) =~= all);
}

/// Puts the most serious alerts first and keeps the order of those of one severity.
pub fn sort_alerts(alerts: &Vec<OperatorAlert>) -> (sorted: Vec<OperatorAlert>)
    ensures
        alert_views(sorted@) == by_severity(alert_views(alerts@)),
{
    let mut sorted: Vec<OperatorAlert> = Vec::new();
    assert(alert_views(sorted@) =~= Seq::<AlertView>::empty());
    push_severity(&mut sorted, alerts, AlertSeverity::Critical);
    assert(alert_views(sorted@) =~= alerts_of(alert_views(alerts@), AlertSeverity::Critical));
    push_severity(&mut sorted, alerts, AlertSeverity::Warning);
    push_severity(&mut sorted, alerts, AlertSeverity::Info);
    sorted
}

/// Sorting neither drops nor adds an alert.
pub proof fn sorting_keeps_every_alert(alerts: Seq<AlertView>)
    ensures
        by_severity(alerts).len() == alerts.len(),
        by_severity(alerts).to_multiset() == alerts.to_multiset(),
    decreases alerts.len(),
{
    broadcast use vstd::seq_lib::group_to_multiset_ensures;

    reveal(Seq::filter);
    let critical = alerts_of(alerts, AlertSeverity::Critical);
    let warning = alerts_of(alerts, AlertSeverity::Warning);
    let info = alerts_of(alerts, AlertSeverity::Info);
    vstd::seq_lib::lemma_multiset_commutative(critical, warning);
    vstd::seq_lib::lemma_multiset_commutative(critical + warning, info);
    if alerts.len() > 0 {
        let earlier = alerts.drop_last();
        sorting_keeps_every_alert(earlier);
        let c = alerts_of(earlier, AlertSeverity::Critical);
        let w = alerts_of(earlier, AlertSeverity::Warning);
        let i = alerts_of(earlier, AlertSeverity::Info);
        vstd::seq_lib::lemma_multiset_commutative(c, w);
        vstd::seq_lib::lemma_multiset_commutative(c + w, i);
        assert(alerts =~= earlier.push(alerts.last()));
        assert(alerts.to_multiset() =~= earlier.to_multiset().insert(alerts.last()));
        match alerts.last().severity {
            AlertSeverity::Critical => {
                assert(critical =~= c.push(alerts.last()));
                assert(critical.to_multiset() =~= c.to_multiset().insert(alerts.last()));
                assert(warning =~= w && info =~= i);
            },
            AlertSeverity::Warning => {
                assert(warning =~= w.push(alerts.last()));
                assert(warning.to_multiset() =~= w.to_multiset().insert(alerts.last()));
                assert(critical =~= c && info =~= i);
            },
            AlertSeverity::Info => {
                assert(info =~= i.push(alerts.last()));
                assert(info.to_multiset() =~= i.to_multiset().insert(alerts.last()));
                assert(critical =~= c && warning =~= w);
            },
        }
        assert(by_severity(alerts).to_multiset() =~= by_severity(earlier).to_multiset().insert(
            alerts.last(),
        ));
    } else {
        assert(by_severity(alerts) =~= alerts);
    }
}

/// Whether some alert is critical.
pub open spec fn has_critical(alerts: Seq<AlertView>) -> bool {
    exists|i: int|
        0 <= i < alerts.len() && (#[trigger] alerts[i]).severity == AlertSeverity::Critical
}

/// Returns whether some alert is critical.
pub fn any_critical(alerts: &Vec<OperatorAlert>) -> (found: bool)
    ensures
        found == has_critical(alert_views(alerts@)),
{
    let n: usize = alerts.len();
    for i in 0..n
        invariant
            n == alerts@.len(),
            forall|k: int|
                0 <= k < i ==> (#[trigger] alert_views(alerts@)[k]).severity
                    != AlertSeverity::Critical,
    {
        if alerts[i].severity == AlertSeverity::Critical {
            assert(alert_views(alerts@)[i as int].severity == AlertSeverity::Critical);
            return true;
        }
    }
    false
}

} // verus!
