//! What the management runtime tells of its passes: operator events and lines.
use vstd::prelude::*;

use crate::amount::Amount;
use crate::broker::AlpacaOrder;
use crate::calendar::time_text;
use crate::calendar::time_writing;
use crate::calendar::TimeOfDay;
use crate::engine::CloseDecision;
use crate::engine::CloseOrderStep;
use crate::engine::EngineManagementConfig;
use crate::engine::EntryOrderStep;
use crate::events::as_natural;
use crate::events::block_event;
use crate::events::count_or_null;
use crate::events::head;
use crate::events::head_fields;
use crate::events::is_event;
use crate::events::time_tree;
use crate::events::OperatorEvent;
use crate::evidence::chars_or;
use crate::evidence::text_or_default;
use crate::fields::float;
use crate::fields::float_or_null;
use crate::fields::named_texts_tree;
use crate::fields::named_texts_value;
use crate::fields::natural;
use crate::fields::slice_list_value;
use crate::fields::text_list;
use crate::fields::text_or_null;
use crate::fields::FieldTree;
use crate::fields::Fields;
use crate::json::JsonTree;
use crate::profile::family_labels;
use crate::profile::unique;
use crate::reconciliation::ReconciliationAction;
use crate::runtime::dry_run_profiles;
use crate::runtime::AlpacaOptionsRuntimeConfig;
use crate::state::StrategyStateEntry;
use crate::text::bool_chars;
use crate::text::bool_text;
use crate::text::decimal;
use crate::text::decimal_text;
use crate::text::join;
use crate::text::joined;
use crate::text::opt_text;
use crate::text::owned;
use crate::text::texts;

verus! {

// ---------------------------------------------------------------------------------------------
// Start and iterations
// ---------------------------------------------------------------------------------------------

/// Where and how a management runtime runs.
#[derive(Clone, Debug)]
pub struct RunnerSettings {
    /// Whether the runtime may act on orders.
    pub manage_enabled: bool,
    /// Whether the runtime may close entries.
    pub close_enabled: bool,
    /// Path of the strategy state.
    pub state_path: String,
}

/// What the start of a runtime tells of its switches.
pub open spec fn switch_fields(
    config: AlpacaOptionsRuntimeConfig,
    settings: RunnerSettings,
) -> Seq<FieldTree> {
    seq![
        ("underlyings"@, text_list(texts(config.underlyings@))),
        ("strategies"@, text_list(unique(family_labels(config.strategy_profiles@)))),
        (
            "dry_run_strategies"@,
            text_list(unique(family_labels(dry_run_profiles(config.strategy_profiles@)))),
        ),
        ("submit_enabled"@, JsonTree::Bool(config.open_orders_enabled)),
        ("manage_enabled"@, JsonTree::Bool(settings.manage_enabled)),
        ("close_enabled"@, JsonTree::Bool(settings.close_enabled)),
        ("kill_switch"@, JsonTree::Bool(config.kill_switch)),
        ("quantity"@, natural(config.quantity)),
    ]
}

/// What the start of a runtime tells of its limits.
pub open spec fn limits_fields(config: AlpacaOptionsRuntimeConfig) -> Seq<FieldTree> {
    seq![
        ("max_active_entries"@, count_or_null(config.max_active_entries)),
        ("max_daily_submits"@, count_or_null(config.max_daily_submits)),
        ("max_open_orders"@, count_or_null(config.max_open_orders)),
        (
            "max_active_entries_per_underlying"@,
            count_or_null(config.max_active_entries_per_underlying),
        ),
        ("max_active_entries_per_sector"@, count_or_null(config.max_active_entries_per_sector)),
        ("sectors"@, named_texts_tree(config.sectors@)),
        ("fleet_account_id"@, text_or_null(opt_text(config.fleet_account_id))),
        ("fleet_policy_blocks"@, text_list(texts(config.fleet_policy_blocks@))),
    ]
}

/// What the start of a runtime tells of its closes.
pub open spec fn closing_fields(config: AlpacaOptionsRuntimeConfig) -> Seq<FieldTree> {
    seq![
        ("stale_close_secs"@, natural(config.stale_close_secs)),
        ("close_regular_hours_only"@, JsonTree::Bool(config.close_regular_hours_only)),
        ("close_start"@, time_tree(config.close_start)),
        ("close_end"@, time_tree(config.close_end)),
        ("close_price_cushion"@, float(config.close_price_cushion)),
        ("max_close_attempts"@, natural(config.max_close_attempts as u64)),
        ("close_reprice_cooldown_secs"@, natural(config.close_reprice_cooldown_secs)),
    ]
}

/// What the start of a runtime tells of what it keeps.
pub open spec fn keeping_fields(
    config: AlpacaOptionsRuntimeConfig,
    settings: RunnerSettings,
) -> Seq<FieldTree> {
    seq![
        ("state_path"@, JsonTree::Text(settings.state_path@)),
        ("candidate_ledger_enabled"@, JsonTree::Bool(config.candidate_ledger_enabled)),
        (
            "candidate_ledger_max_candidates"@,
            natural(config.candidate_ledger_max_candidates as u64),
        ),
        ("entry_owner"@, JsonTree::Text("nautilus_strategy"@)),
    ]
}

/// The fields of the start of a runtime.
pub open spec fn runner_start_fields(
    config: AlpacaOptionsRuntimeConfig,
    settings: RunnerSettings,
) -> Seq<FieldTree> {
    switch_fields(config, settings) + limits_fields(config) + closing_fields(config)
        + keeping_fields(config, settings)
}

fn switches(config: &AlpacaOptionsRuntimeConfig, settings: &RunnerSettings) -> (fields: Fields)
    ensures
        fields@ == switch_fields(*config, *settings),
{
    let fields = Fields::new().texts("underlyings", &config.underlyings).json(
        "strategies",
        slice_list_value(&config.enabled_strategy_family_names()),
    ).json("dry_run_strategies", slice_list_value(&config.dry_run_strategy_family_names())).bool(
        "submit_enabled",
        config.open_orders_enabled,
    ).bool("manage_enabled", settings.manage_enabled).bool(
        "close_enabled",
        settings.close_enabled,
    ).bool("kill_switch", config.kill_switch).natural("quantity", config.quantity);
    assert(fields@ =~= switch_fields(*config, *settings));
    fields
}

fn add_limits(fields: Fields, config: &AlpacaOptionsRuntimeConfig) -> (after: Fields)
    ensures
        after@ == fields@ + limits_fields(*config),
{
    let ghost before = fields@;
    let after = fields.opt_natural(
        "max_active_entries",
        as_natural(config.max_active_entries),
    ).opt_natural("max_daily_submits", as_natural(config.max_daily_submits)).opt_natural(
        "max_open_orders",
        as_natural(config.max_open_orders),
    ).opt_natural(
        "max_active_entries_per_underlying",
        as_natural(config.max_active_entries_per_underlying),
    ).opt_natural(
        "max_active_entries_per_sector",
        as_natural(config.max_active_entries_per_sector),
    ).json("sectors", named_texts_value(&config.sectors)).opt_text(
        "fleet_account_id",
        &config.fleet_account_id,
    ).texts("fleet_policy_blocks", &config.fleet_policy_blocks);
    assert(after@ =~= before + limits_fields(*config));
    after
}

fn add_closing(fields: Fields, config: &AlpacaOptionsRuntimeConfig) -> (after: Fields)
    ensures
        after@ == fields@ + closing_fields(*config),
{
    let ghost before = fields@;
    let after = fields.natural("stale_close_secs", config.stale_close_secs).bool(
        "close_regular_hours_only",
        config.close_regular_hours_only,
    ).opt_text("close_start", &time_text(config.close_start)).opt_text(
        "close_end",
        &time_text(config.close_end),
    ).float("close_price_cushion", config.close_price_cushion).natural(
        "max_close_attempts",
        config.max_close_attempts as u64,
    ).natural("close_reprice_cooldown_secs", config.close_reprice_cooldown_secs);
    assert(after@ =~= before + closing_fields(*config));
    after
}

fn add_keeping(fields: Fields, config: &AlpacaOptionsRuntimeConfig, settings: &RunnerSettings) -> (after: Fields)
    ensures
        after@ == fields@ + keeping_fields(*config, *settings),
{
    let ghost before = fields@;
    let after = fields.text("state_path", settings.state_path.as_str()).bool(
        "candidate_ledger_enabled",
        config.candidate_ledger_enabled,
    ).count("candidate_ledger_max_candidates", config.candidate_ledger_max_candidates).text(
        "entry_owner",
        "nautilus_strategy",
    );
    assert(after@ =~= before + keeping_fields(*config, *settings));
    after
}

/// Returns the event of the start of a runtime.
pub fn runner_start_event(config: &AlpacaOptionsRuntimeConfig, settings: &RunnerSettings) -> (event: OperatorEvent)
    ensures
        is_event(event, "runner_start"@, runner_start_fields(*config, *settings)),
{
    let fields = add_limits(switches(config, settings), config);
    let fields = add_keeping(add_closing(fields, config), config, settings);
    OperatorEvent { event_type: "runner_start", payload: fields.into_json() }
}

/// The line of the start of a runtime.
pub open spec fn runner_start_line_of(
    config: AlpacaOptionsRuntimeConfig,
    settings: RunnerSettings,
) -> Seq<char> {
    "options_engine_management: underlyings="@ + joined(texts(config.underlyings@), ","@)
        + " strategies="@ + joined(unique(family_labels(config.strategy_profiles@)), ","@)
        + " submit_enabled="@ + bool_chars(config.open_orders_enabled) + " manage_enabled="@
        + bool_chars(settings.manage_enabled) + " close_enabled="@ + bool_chars(
        settings.close_enabled,
    ) + " kill_switch="@ + bool_chars(config.kill_switch) + " quantity="@ + decimal(
        config.quantity as nat,
    ) + " state_path="@ + settings.state_path@
}

/// Writes the line of the start of a runtime.
pub fn runner_start_line(config: &AlpacaOptionsRuntimeConfig, settings: &RunnerSettings) -> (line: String)
    ensures
        line@ == runner_start_line_of(*config, *settings),
{
    let strategies = owned(&config.enabled_strategy_family_names());
    "options_engine_management: underlyings=".to_owned().concat(
        join(&config.underlyings, ",").as_str(),
    ).concat(" strategies=").concat(join(&strategies, ",").as_str()).concat(
        " submit_enabled=",
    ).concat(bool_text(config.open_orders_enabled)).concat(" manage_enabled=").concat(
        bool_text(settings.manage_enabled),
    ).concat(" close_enabled=").concat(bool_text(settings.close_enabled)).concat(
        " kill_switch=",
    ).concat(bool_text(config.kill_switch)).concat(" quantity=").concat(
        decimal_text(config.quantity).as_str(),
    ).concat(" state_path=").concat(settings.state_path.as_str())
}

/// The fields of an iteration.
pub open spec fn iteration_fields(iteration: u64, trade_date: Seq<char>) -> Seq<FieldTree> {
    seq![("iteration"@, natural(iteration)), ("trade_date"@, JsonTree::Text(trade_date))]
}

/// Returns the event of an iteration.
pub fn management_iteration_event(iteration: u64, trade_date: &str) -> (event: OperatorEvent)
    ensures
        is_event(event, "management_iteration"@, iteration_fields(iteration, trade_date@)),
{
    let fields = Fields::new().natural("iteration", iteration).text("trade_date", trade_date);
    assert(fields@ =~= iteration_fields(iteration, trade_date@));
    OperatorEvent { event_type: "management_iteration", payload: fields.into_json() }
}

// ---------------------------------------------------------------------------------------------
// Orders
// ---------------------------------------------------------------------------------------------

/// The fields of a close that the broker does not know.
pub open spec fn close_missing_fields(entry: StrategyStateEntry) -> Seq<FieldTree> {
    head_fields("close_blocked"@, "close_order_missing"@, entry) + seq![
        ("order_list_id"@, JsonTree::Text(entry.order_list_id@)),
        ("close_order_list_id"@, text_or_null(opt_text(entry.close_order_list_id))),
    ]
}

/// Returns the event of a step on a working close, if any. `entry` is the entry before the step.
pub fn close_order_event(entry: &StrategyStateEntry, step: CloseOrderStep) -> (event: Option<OperatorEvent>)
    ensures
        match event {
            Some(found) => step is Missing && is_event(
                found,
                "management_block"@,
                close_missing_fields(*entry),
            ),
            None => !(step is Missing),
        },
{
    match step {
        CloseOrderStep::Missing => {
            let fields = head("close_blocked", "close_order_missing", entry).text(
                "order_list_id",
                entry.order_list_id.as_str(),
            ).opt_text("close_order_list_id", &entry.close_order_list_id);
            assert(fields@ =~= close_missing_fields(*entry));
            Some(block_event(fields))
        },
        _ => None,
    }
}

/// The status of an order as it is printed.
pub open spec fn shown_status(order: Option<&AlpacaOrder>) -> Seq<char> {
    match order {
        Some(found) => chars_or(opt_text(found.status), "unknown"@),
        None => "unknown"@,
    }
}

fn status_text(order: Option<&AlpacaOrder>) -> (text: String)
    ensures
        text@ == shown_status(order),
{
    match order {
        Some(found) => text_or_default(&found.status, "unknown"),
        None => "unknown".to_owned(),
    }
}

/// The line of a stale order.
pub open spec fn stale_line(
    name: Seq<char>,
    order_list_id: Seq<char>,
    order: Option<&AlpacaOrder>,
    manage_enabled: bool,
) -> Seq<char> {
    "manage: "@ + name + " order_list_id="@ + order_list_id + " status="@ + shown_status(order)
        + " manage_enabled="@ + bool_chars(manage_enabled)
}

fn stale_text(name: &str, order_list_id: &str, order: Option<&AlpacaOrder>, manage_enabled: bool) -> (line: String)
    ensures
        line@ == stale_line(name@, order_list_id@, order, manage_enabled),
{
    "manage: ".to_owned().concat(name).concat(" order_list_id=").concat(order_list_id).concat(
        " status=",
    ).concat(status_text(order).as_str()).concat(" manage_enabled=").concat(
        bool_text(manage_enabled),
    )
}

/// The lines of a step on a working close.
pub open spec fn close_order_lines_of(
    close_order_list_id: Seq<char>,
    order: Option<&AlpacaOrder>,
    step: CloseOrderStep,
    manage_enabled: bool,
) -> Seq<Seq<char>> {
    if step is Missing {
        seq!["manage: close_order_missing order_list_id="@ + close_order_list_id]
    } else {
        seq![
            "manage: close_order order_list_id="@ + close_order_list_id + " status="@ + shown_status(
                order,
            ),
        ] + (if step is StaleCancel || step is StaleReported {
            seq![stale_line("stale_close"@, close_order_list_id, order, manage_enabled)]
        } else {
            Seq::empty()
        })
    }
}

/// Writes the lines of a step on a working close.
pub fn close_order_lines(
    close_order_list_id: &str,
    order: Option<&AlpacaOrder>,
    step: CloseOrderStep,
    manage_enabled: bool,
) -> (lines: Vec<String>)
    ensures
        texts(lines@) == close_order_lines_of(close_order_list_id@, order, step, manage_enabled),
{
    let mut lines: Vec<String> = Vec::new();
    if step == CloseOrderStep::Missing {
        lines.push(
            "manage: close_order_missing order_list_id=".to_owned().concat(close_order_list_id),
        );
    } else {
        lines.push(
            "manage: close_order order_list_id=".to_owned().concat(close_order_list_id).concat(
                " status=",
            ).concat(status_text(order).as_str()),
        );
        if step == CloseOrderStep::StaleCancel || step == CloseOrderStep::StaleReported {
            lines.push(stale_text("stale_close", close_order_list_id, order, manage_enabled));
        }
    }
    assert(texts(lines@) =~= close_order_lines_of(
        close_order_list_id@,
        order,
        step,
        manage_enabled,
    ));
    lines
}

/// The line of a step on opening orders.
pub open spec fn entry_order_line_of(
    order_list_id: Seq<char>,
    order: Option<&AlpacaOrder>,
    step: EntryOrderStep,
    manage_enabled: bool,
) -> Option<Seq<char>> {
    match step {
        EntryOrderStep::Missing => Some(
            "manage: entry_order_missing order_list_id="@ + order_list_id,
        ),
        EntryOrderStep::StaleCancel => Some(
            stale_line("stale_entry"@, order_list_id, order, manage_enabled),
        ),
        EntryOrderStep::StaleReported => Some(
            stale_line("stale_entry"@, order_list_id, order, manage_enabled),
        ),
        EntryOrderStep::Terminal => Some(
            "manage: entry_terminal order_list_id="@ + order_list_id + " status="@ + shown_status(
                order,
            ),
        ),
        _ => None,
    }
}

/// Writes the line of a step on opening orders, if any.
pub fn entry_order_line(
    order_list_id: &str,
    order: Option<&AlpacaOrder>,
    step: EntryOrderStep,
    manage_enabled: bool,
) -> (line: Option<String>)
    ensures
        opt_text(line) == entry_order_line_of(order_list_id@, order, step, manage_enabled),
{
    match step {
        EntryOrderStep::Missing => Some(
            "manage: entry_order_missing order_list_id=".to_owned().concat(order_list_id),
        ),
        EntryOrderStep::StaleCancel | EntryOrderStep::StaleReported => Some(
            stale_text("stale_entry", order_list_id, order, manage_enabled),
        ),
        EntryOrderStep::Terminal => Some(
            "manage: entry_terminal order_list_id=".to_owned().concat(order_list_id).concat(
                " status=",
            ).concat(status_text(order).as_str()),
        ),
        EntryOrderStep::Working | EntryOrderStep::Evaluate => None,
    }
}

// ---------------------------------------------------------------------------------------------
// Closes
// ---------------------------------------------------------------------------------------------

/// The fields of a close that a gate stops.
pub open spec fn stopped_close_fields(
    config: EngineManagementConfig,
    entry: StrategyStateEntry,
    decision: CloseDecision,
    trigger: Option<Seq<char>>,
) -> Seq<FieldTree> {
    let start = seq![
        ("action"@, JsonTree::Text("close_blocked"@)),
        ("reason"@, JsonTree::Text(decision.block_reason()->0)),
        ("underlying"@, JsonTree::Text(entry.underlying@)),
    ];
    match decision {
        CloseDecision::QuoteUnavailable => start + seq![
            ("strategy"@, JsonTree::Text(entry.strategy@)),
            ("short_symbol"@, JsonTree::Text(entry.short_symbol@)),
            ("long_symbol"@, JsonTree::Text(entry.long_symbol@)),
        ],
        CloseDecision::MaxCloseAttempts => start + seq![
            ("trigger"@, text_or_null(trigger)),
            ("attempts"@, natural(entry.close_attempts as u64)),
            ("limit"@, natural(config.management.max_close_attempts as u64)),
        ],
        CloseDecision::RepriceCooldown { remaining_secs } => start + seq![
            ("trigger"@, text_or_null(trigger)),
            ("remaining_secs"@, natural(remaining_secs)),
        ],
        CloseDecision::OutsideCloseWindow => start + seq![
            ("trigger"@, text_or_null(trigger)),
            ("window_start"@, time_tree(config.management.close_window.start)),
            ("window_end"@, time_tree(config.management.close_window.end)),
            ("timezone"@, JsonTree::Text(config.management.close_window.zone@)),
        ],
        _ => start + seq![
            ("trigger"@, text_or_null(trigger)),
            ("manage_enabled"@, JsonTree::Bool(config.manage_enabled)),
            ("close_enabled"@, JsonTree::Bool(config.close_enabled)),
        ],
    }
}

/// Returns the event of a decision on a close, if any.
pub fn close_decision_event(
    config: &EngineManagementConfig,
    entry: &StrategyStateEntry,
    decision: CloseDecision,
    trigger: &Option<String>,
) -> (event: Option<OperatorEvent>)
    ensures
        match event {
            Some(found) => decision.block_reason() is Some && is_event(
                found,
                "management_block"@,
                stopped_close_fields(*config, *entry, decision, opt_text(*trigger)),
            ),
            None => decision.block_reason() is None,
        },
{
    let reason = match decision.reason() {
        Some(reason) => reason,
        None => {
            return None;
        },
    };
    let fields = Fields::new().text("action", "close_blocked").text("reason", reason).text(
        "underlying",
        entry.underlying.as_str(),
    );
    let fields = match decision {
        CloseDecision::QuoteUnavailable => fields.text("strategy", entry.strategy.as_str()).text(
            "short_symbol",
            entry.short_symbol.as_str(),
        ).text("long_symbol", entry.long_symbol.as_str()),
        CloseDecision::MaxCloseAttempts => fields.opt_text("trigger", trigger).natural(
            "attempts",
            entry.close_attempts as u64,
        ).natural("limit", config.management.max_close_attempts as u64),
        CloseDecision::RepriceCooldown { remaining_secs } => fields.opt_text(
            "trigger",
            trigger,
        ).natural("remaining_secs", remaining_secs),
        CloseDecision::OutsideCloseWindow => fields.opt_text("trigger", trigger).opt_text(
            "window_start",
            &time_text(config.management.close_window.start),
        ).opt_text("window_end", &time_text(config.management.close_window.end)).text(
            "timezone",
            config.management.close_window.zone.as_str(),
        ),
        _ => fields.opt_text("trigger", trigger).bool(
            "manage_enabled",
            config.manage_enabled,
        ).bool("close_enabled", config.close_enabled),
    };
    assert(fields@ =~= stopped_close_fields(*config, *entry, decision, opt_text(*trigger)));
    Some(block_event(fields))
}

/// A time of day as it is printed.
pub open spec fn shown_time(time: TimeOfDay) -> Seq<char> {
    chars_or(time_writing(time.secs, time.nanos), Seq::empty())
}

fn shown_time_text(time: TimeOfDay) -> (text: String)
    ensures
        text@ == shown_time(time),
{
    match time_text(time) {
        Some(text) => text,
        None => {
            let text = String::new();
            assert(text@ =~= shown_time(time));
            text
        },
    }
}

/// The start of the line of a close that a gate stops.
pub open spec fn stopped_start(entry: StrategyStateEntry, trigger: Seq<char>, reason: Seq<char>) -> Seq<
    char,
> {
    "manage: close_blocked underlying="@ + entry.underlying@ + " trigger="@ + trigger + " reason="@
        + reason
}

/// The line of a decision on a close.
pub open spec fn close_decision_line_of(
    config: EngineManagementConfig,
    entry: StrategyStateEntry,
    decision: CloseDecision,
    trigger: Seq<char>,
) -> Option<Seq<char>> {
    match decision {
        CloseDecision::QuoteUnavailable => Some(
            "manage: close_quote_unavailable short="@ + entry.short_symbol@ + " long="@
                + entry.long_symbol@,
        ),
        CloseDecision::MaxCloseAttempts => Some(
            stopped_start(entry, trigger, "max_close_attempts"@) + " attempts="@ + decimal(
                entry.close_attempts as nat,
            ) + " limit="@ + decimal(config.management.max_close_attempts as nat),
        ),
        CloseDecision::RepriceCooldown { remaining_secs } => Some(
            stopped_start(entry, trigger, "close_reprice_cooldown"@) + " remaining_secs="@ + decimal(
                remaining_secs as nat,
            ),
        ),
        CloseDecision::OutsideCloseWindow => Some(
            stopped_start(entry, trigger, "outside_close_window"@) + " window="@ + shown_time(
                config.management.close_window.start,
            ) + "-"@ + shown_time(config.management.close_window.end) + " timezone="@
                + config.management.close_window.zone@,
        ),
        _ => None,
    }
}

fn stopped_text(entry: &StrategyStateEntry, trigger: &str, reason: &str) -> (text: String)
    ensures
        text@ == stopped_start(*entry, trigger@, reason@),
{
    "manage: close_blocked underlying=".to_owned().concat(entry.underlying.as_str()).concat(
        " trigger=",
    ).concat(trigger).concat(" reason=").concat(reason)
}

/// Writes the line of a decision on a close, if any.
pub fn close_decision_line(
    config: &EngineManagementConfig,
    entry: &StrategyStateEntry,
    decision: CloseDecision,
    trigger: &str,
) -> (line: Option<String>)
    ensures
        opt_text(line) == close_decision_line_of(*config, *entry, decision, trigger@),
{
    match decision {
        CloseDecision::QuoteUnavailable => Some(
            "manage: close_quote_unavailable short=".to_owned().concat(
                entry.short_symbol.as_str(),
            ).concat(" long=").concat(entry.long_symbol.as_str()),
        ),
        CloseDecision::MaxCloseAttempts => Some(
            stopped_text(entry, trigger, "max_close_attempts").concat(" attempts=").concat(
                decimal_text(entry.close_attempts as u64).as_str(),
            ).concat(" limit=").concat(
                decimal_text(config.management.max_close_attempts as u64).as_str(),
            ),
        ),
        CloseDecision::RepriceCooldown { remaining_secs } => Some(
            stopped_text(entry, trigger, "close_reprice_cooldown").concat(
                " remaining_secs=",
            ).concat(decimal_text(remaining_secs).as_str()),
        ),
        CloseDecision::OutsideCloseWindow => Some(
            stopped_text(entry, trigger, "outside_close_window").concat(" window=").concat(
                shown_time_text(config.management.close_window.start).as_str(),
            ).concat("-").concat(
                shown_time_text(config.management.close_window.end).as_str(),
            ).concat(" timezone=").concat(config.management.close_window.zone.as_str()),
        ),
        CloseDecision::Hold
        | CloseDecision::ManagementDisabled
        | CloseDecision::CloseDisabled
        | CloseDecision::Submit => None,
    }
}

/// The premium of a close: its name, and that of the entry premium.
pub open spec fn premium_names(debit: bool) -> (Seq<char>, Seq<char>) {
    if debit {
        (" close_credit="@, " entry_debit="@)
    } else {
        (" close_debit="@, " entry_credit="@)
    }
}

/// The line of a position. `close_premium` and `entry_premium` are printed numbers.
pub open spec fn position_line_of(
    entry: StrategyStateEntry,
    close_premium: Seq<char>,
    entry_premium: Seq<char>,
    trigger: Option<Seq<char>>,
) -> Seq<char> {
    let names = premium_names(entry.debit_spread());
    "manage: position underlying="@ + entry.underlying@ + " strategy="@ + entry.strategy@ + names.0
        + close_premium + names.1 + entry_premium + " reason="@ + chars_or(trigger, "none"@)
}

/// Writes the line of a position. `close_premium` and `entry_premium` are printed numbers.
pub fn position_line(
    entry: &StrategyStateEntry,
    close_premium: &str,
    entry_premium: &str,
    trigger: &Option<String>,
) -> (line: String)
    ensures
        line@ == position_line_of(*entry, close_premium@, entry_premium@, opt_text(*trigger)),
{
    let (close_name, entry_name) = if entry.is_debit_spread() {
        (" close_credit=", " entry_debit=")
    } else {
        (" close_debit=", " entry_credit=")
    };
    "manage: position underlying=".to_owned().concat(entry.underlying.as_str()).concat(
        " strategy=",
    ).concat(entry.strategy.as_str()).concat(close_name).concat(close_premium).concat(
        entry_name,
    ).concat(entry_premium).concat(" reason=").concat(text_or_default(trigger, "none").as_str())
}

/// The line of the limit of a close, which is printed where there is a cushion.
pub open spec fn close_limit_line_of(
    entry: StrategyStateEntry,
    raw: Seq<char>,
    cushion: Seq<char>,
    limit: Seq<char>,
) -> Seq<char> {
    let side = if entry.debit_spread() {
        "credit="@
    } else {
        "debit="@
    };
    "manage: close_limit underlying="@ + entry.underlying@ + " raw_"@ + side + raw + " cushion="@
        + cushion + " limit_"@ + side + limit
}

/// Writes the line of the limit of a close. `raw`, `cushion` and `limit` are printed numbers.
pub fn close_limit_line(entry: &StrategyStateEntry, raw: &str, cushion: &str, limit: &str) -> (line: String)
    ensures
        line@ == close_limit_line_of(*entry, raw@, cushion@, limit@),
{
    let side = if entry.is_debit_spread() {
        "credit="
    } else {
        "debit="
    };
    "manage: close_limit underlying=".to_owned().concat(entry.underlying.as_str()).concat(
        " raw_",
    ).concat(side).concat(raw).concat(" cushion=").concat(cushion).concat(" limit_").concat(
        side,
    ).concat(limit)
}

// ---------------------------------------------------------------------------------------------
// Reconciliation
// ---------------------------------------------------------------------------------------------

/// The fields of positions that no active entry accounts for.
pub open spec fn unmanaged_fields(symbols: Seq<Seq<char>>) -> Seq<FieldTree> {
    seq![
        ("reason"@, JsonTree::Text("unmanaged_positions"@)),
        ("symbols"@, text_list(symbols)),
    ]
}

/// Returns the event of positions that no active entry accounts for, if there are any.
pub fn unmanaged_positions_event(symbols: &Vec<String>) -> (event: Option<OperatorEvent>)
    ensures
        match event {
            Some(found) => symbols@.len() > 0 && is_event(
                found,
                "reconciliation_warning"@,
                unmanaged_fields(texts(symbols@)),
            ),
            None => symbols@.len() == 0,
        },
{
    if symbols.len() == 0 {
        return None;
    }
    let fields = Fields::new().text("reason", "unmanaged_positions").texts("symbols", symbols);
    assert(fields@ =~= unmanaged_fields(texts(symbols@)));
    Some(OperatorEvent { event_type: "reconciliation_warning", payload: fields.into_json() })
}

/// Writes the line of positions that no active entry accounts for.
pub fn unmanaged_positions_line(symbols: &Vec<String>) -> (line: String)
    ensures
        line@ == "reconcile: unmanaged_positions symbols="@ + joined(texts(symbols@), ","@),
{
    "reconcile: unmanaged_positions symbols=".to_owned().concat(join(symbols, ",").as_str())
}

/// The event of what reconciliation did to an entry: its type and fields.
pub open spec fn reconciliation_event_of(entry: StrategyStateEntry, action: ReconciliationAction) -> Option<
    (Seq<char>, Seq<FieldTree>),
> {
    match action {
        ReconciliationAction::Keep => None,
        ReconciliationAction::MarkClosed => Some(
            (
                "reconciliation_repair"@,
                seq![
                    ("action"@, JsonTree::Text("mark_closed"@)),
                    ("reason"@, JsonTree::Text("broker_flat"@)),
                    ("underlying"@, JsonTree::Text(entry.underlying@)),
                    ("order_list_id"@, JsonTree::Text(entry.order_list_id@)),
                ],
            ),
        ),
        ReconciliationAction::MarkCanceled => Some(
            (
                "reconciliation_repair"@,
                seq![
                    ("action"@, JsonTree::Text("mark_canceled"@)),
                    ("reason"@, JsonTree::Text("entry_terminal_without_position"@)),
                    ("underlying"@, JsonTree::Text(entry.underlying@)),
                    ("order_list_id"@, JsonTree::Text(entry.order_list_id@)),
                ],
            ),
        ),
        ReconciliationAction::PartialPosition => Some(
            (
                "reconciliation_warning"@,
                seq![
                    ("reason"@, JsonTree::Text("partial_position"@)),
                    ("underlying"@, JsonTree::Text(entry.underlying@)),
                    ("symbols"@, text_list(entry.leg_symbols())),
                ],
            ),
        ),
    }
}

/// Returns the event of what reconciliation did to an entry, if any.
pub fn reconciliation_event(entry: &StrategyStateEntry, action: ReconciliationAction) -> (event: Option<
    OperatorEvent,
>)
    ensures
        match event {
            Some(found) => reconciliation_event_of(*entry, action) matches Some((kind, fields))
                && is_event(found, kind, fields),
            None => reconciliation_event_of(*entry, action) is None,
        },
{
    let (event_type, fields) = match action {
        ReconciliationAction::Keep => {
            return None;
        },
        ReconciliationAction::MarkClosed => (
            "reconciliation_repair",
            Fields::new().text("action", "mark_closed").text("reason", "broker_flat").text(
                "underlying",
                entry.underlying.as_str(),
            ).text("order_list_id", entry.order_list_id.as_str()),
        ),
        ReconciliationAction::MarkCanceled => (
            "reconciliation_repair",
            Fields::new().text("action", "mark_canceled").text(
                "reason",
                "entry_terminal_without_position",
            ).text("underlying", entry.underlying.as_str()).text(
                "order_list_id",
                entry.order_list_id.as_str(),
            ),
        ),
        ReconciliationAction::PartialPosition => (
            "reconciliation_warning",
            Fields::new().text("reason", "partial_position").text(
                "underlying",
                entry.underlying.as_str(),
            ).json("symbols", slice_list_value(&entry.symbols())),
        ),
    };
    assert(fields@ =~= (reconciliation_event_of(*entry, action)->0).1);
    Some(OperatorEvent { event_type, payload: fields.into_json() })
}

/// The line of what reconciliation did to an entry.
pub open spec fn reconciliation_line_of(entry: StrategyStateEntry, action: ReconciliationAction) -> Option<
    Seq<char>,
> {
    match action {
        ReconciliationAction::Keep => None,
        ReconciliationAction::MarkClosed => Some(
            "reconcile: mark_closed underlying="@ + entry.underlying@ + " order_list_id="@
                + entry.order_list_id@ + " reason=broker_flat"@,
        ),
        ReconciliationAction::MarkCanceled => Some(
            "reconcile: mark_canceled underlying="@ + entry.underlying@ + " order_list_id="@
                + entry.order_list_id@ + " reason=entry_terminal_without_position"@,
        ),
        ReconciliationAction::PartialPosition => Some(
            "reconcile: partial_position underlying="@ + entry.underlying@ + " symbols="@ + joined(
                entry.leg_symbols(),
                ","@,
            ),
        ),
    }
}

fn owned_symbols(entry: &StrategyStateEntry) -> (symbols: Vec<String>)
    ensures
        texts(symbols@) == entry.leg_symbols(),
{
    let slices = entry.symbols();
    let mut symbols: Vec<String> = Vec::new();
    let n: usize = slices.len();
    for i in 0..n
        invariant
            n == slices@.len(),
            symbols@.len() == i,
            forall|k: int| 0 <= k < i ==> (#[trigger] symbols@[k])@ == slices@[k]@,
    {
        symbols.push(slices[i].to_owned());
    }
    assert(texts(symbols@) =~= crate::text::slices(slices@));
    symbols
}

/// Writes the line of what reconciliation did to an entry, if any.
pub fn reconciliation_line(entry: &StrategyStateEntry, action: ReconciliationAction) -> (line: Option<
    String,
>)
    ensures
        opt_text(line) == reconciliation_line_of(*entry, action),
{
    match action {
        ReconciliationAction::Keep => None,
        ReconciliationAction::MarkClosed => Some(
            "reconcile: mark_closed underlying=".to_owned().concat(
                entry.underlying.as_str(),
            ).concat(" order_list_id=").concat(entry.order_list_id.as_str()).concat(
                " reason=broker_flat",
            ),
        ),
        ReconciliationAction::MarkCanceled => Some(
            "reconcile: mark_canceled underlying=".to_owned().concat(
                entry.underlying.as_str(),
            ).concat(" order_list_id=").concat(entry.order_list_id.as_str()).concat(
                " reason=entry_terminal_without_position",
            ),
        ),
        ReconciliationAction::PartialPosition => Some(
            "reconcile: partial_position underlying=".to_owned().concat(
                entry.underlying.as_str(),
            ).concat(" symbols=").concat(join(&owned_symbols(entry), ",").as_str()),
        ),
    }
}

/// Every repair and every partial position is reported, in an event and in a line; nothing else is.
pub proof fn repairs_are_reported(entry: StrategyStateEntry, action: ReconciliationAction)
    ensures
        reconciliation_event_of(entry, action) is Some <==> !(action is Keep),
        reconciliation_line_of(entry, action) is Some <==> !(action is Keep),
        reconciliation_event_of(entry, action) matches Some((kind, _)) ==> (kind
            == "reconciliation_repair"@ <==> action is MarkClosed || action is MarkCanceled),
{
    reveal_strlit("reconciliation_repair");
    reveal_strlit("reconciliation_warning");
    assert("reconciliation_repair"@.len() != "reconciliation_warning"@.len());
}

// ---------------------------------------------------------------------------------------------
// Performance
// ---------------------------------------------------------------------------------------------

/// What was kept of the performance of a closed entry.
#[derive(Clone, Debug)]
pub struct PerformanceRecord {
    /// Path of the ledger.
    pub ledger_path: String,
    /// Whether the record was new to the ledger.
    pub appended: bool,
    /// Key of the record.
    pub record_key: String,
    /// Underlying symbol.
    pub underlying: String,
    /// Strategy name.
    pub strategy: String,
    /// Status.
    pub status: String,
    /// Realized profit, where it is known.
    pub realized_pnl: Option<Amount>,
    /// Cash flow of the entry.
    pub open_cashflow: Amount,
    /// Cash flow of the close.
    pub close_cashflow: Amount,
    /// Warnings.
    pub warnings: Vec<String>,
}

/// The fields of a performance record that was kept.
pub open spec fn performance_fields(record: PerformanceRecord) -> Seq<FieldTree> {
    seq![
        ("ledger_path"@, JsonTree::Text(record.ledger_path@)),
        ("appended"@, JsonTree::Bool(record.appended)),
        ("record_key"@, JsonTree::Text(record.record_key@)),
        ("underlying"@, JsonTree::Text(record.underlying@)),
        ("strategy"@, JsonTree::Text(record.strategy@)),
        ("status"@, JsonTree::Text(record.status@)),
        ("realized_pnl"@, float_or_null(record.realized_pnl)),
        ("open_cashflow"@, float(record.open_cashflow)),
        ("close_cashflow"@, float(record.close_cashflow)),
        ("warnings"@, text_list(texts(record.warnings@))),
    ]
}

/// Returns the event of a performance record that was kept.
pub fn performance_ledger_event(record: &PerformanceRecord) -> (event: OperatorEvent)
    ensures
        is_event(event, "performance_ledger"@, performance_fields(*record)),
{
    let fields = Fields::new().text("ledger_path", record.ledger_path.as_str()).bool(
        "appended",
        record.appended,
    ).text("record_key", record.record_key.as_str()).text(
        "underlying",
        record.underlying.as_str(),
    ).text("strategy", record.strategy.as_str()).text("status", record.status.as_str()).opt_float(
        "realized_pnl",
        record.realized_pnl,
    ).float("open_cashflow", record.open_cashflow).float(
        "close_cashflow",
        record.close_cashflow,
    ).texts("warnings", &record.warnings);
    assert(fields@ =~= performance_fields(*record));
    OperatorEvent { event_type: "performance_ledger", payload: fields.into_json() }
}

/// The fields of a performance record that was not kept.
pub open spec fn performance_error_fields(entry: StrategyStateEntry, error: Seq<char>) -> Seq<FieldTree> {
    seq![
        ("reason"@, JsonTree::Text("append_failed"@)),
        ("underlying"@, JsonTree::Text(entry.underlying@)),
        ("strategy"@, JsonTree::Text(entry.strategy@)),
        ("order_list_id"@, JsonTree::Text(entry.order_list_id@)),
        ("close_order_list_id"@, text_or_null(opt_text(entry.close_order_list_id))),
        ("error"@, JsonTree::Text(error)),
    ]
}

/// Returns the event of a performance record that was not kept.
pub fn performance_ledger_error_event(entry: &StrategyStateEntry, error: &str) -> (event: OperatorEvent)
    ensures
        is_event(event, "performance_ledger_error"@, performance_error_fields(*entry, error@)),
{
    let fields = Fields::new().text("reason", "append_failed").text(
        "underlying",
        entry.underlying.as_str(),
    ).text("strategy", entry.strategy.as_str()).text(
        "order_list_id",
        entry.order_list_id.as_str(),
    ).opt_text("close_order_list_id", &entry.close_order_list_id).text("error", error);
    assert(fields@ =~= performance_error_fields(*entry, error@));
    OperatorEvent { event_type: "performance_ledger_error", payload: fields.into_json() }
}

} // verus!
