//! Operator events.
use vstd::prelude::*;

use crate::active_entry::ActiveEntryDecision;
use crate::admission::SubmissionBlock;
use crate::amount::Amount;
use crate::calendar::instant_text;
use crate::calendar::rfc3339_writing;
use crate::calendar::time_text;
use crate::calendar::time_writing;
use crate::candidate_set::AlpacaOptionsCandidateProfile;
use crate::candidate_set::OptionsCandidateSet;
use crate::candidate_set::OptionsScanReport;
use crate::candidate_set::ProfiledOptionsEntry;
use crate::chain::OptionChainCandidateInput;
use crate::entry::SelectedOptionsEntry;
use crate::fields::counts_tree;
use crate::fields::counts_value;
use crate::fields::field_if;
use crate::fields::float;
use crate::fields::float_or_null;
use crate::fields::integer_or_null;
use crate::fields::list_value;
use crate::fields::natural;
use crate::fields::natural_or_null;
use crate::fields::slice_list_value;
use crate::fields::text_list;
use crate::fields::text_or_null;
use crate::fields::trees;
use crate::fields::FieldTree;
use crate::fields::Fields;
use crate::json::Json;
use crate::json::JsonTree;
use crate::lifecycle::OptionLifecycleEvent;
use crate::management::AlpacaOptionsManagementConfig;
use crate::management::CloseOrderMode;
use crate::management::CloseQuote;
use crate::orders::OptionSpreadPlan;
use crate::payloads::entry_plan_payload_legs;
use crate::payloads::plan_legs_tree;
use crate::payloads::spread_legs_payload;
use crate::payloads::spread_legs_tree;
use crate::payloads::SpreadCloseOrderPricing;
use crate::planner::AlpacaOptionsEntryPlan;
use crate::profile::AlpacaOptionsStrategyRiskOverrides;
use crate::state::StrategyStateEntry;
use crate::text::as_slice;
use crate::text::opt_slice;
use crate::text::opt_text;
use crate::text::texts;

verus! {

/// An operator event.
#[derive(Debug)]
pub struct OperatorEvent {
    /// Type of the event.
    pub event_type: &'static str,
    /// Payload.
    pub payload: Json,
}

/// Whether an event has a type and fields.
pub open spec fn is_event(event: OperatorEvent, event_type: Seq<char>, fields: Seq<FieldTree>) -> bool {
    event.event_type@ == event_type && event.payload@ == JsonTree::Object(fields)
}

// ---------------------------------------------------------------------------------------------
// Profiles
// ---------------------------------------------------------------------------------------------

/// A limit, where there is one.
pub open spec fn limit_field(name: Seq<char>, limit: Option<usize>) -> Seq<FieldTree> {
    field_if(
        name,
        match limit {
            Some(value) => Some(natural(value as u64)),
            None => None,
        },
    )
}

/// The fields of risk overrides.
pub open spec fn risk_fields(risk: AlpacaOptionsStrategyRiskOverrides) -> Seq<FieldTree> {
    limit_field("max_active_entries"@, risk.max_active_entries) + limit_field(
        "max_daily_submits"@,
        risk.max_daily_submits,
    ) + limit_field(
        "max_active_entries_per_underlying"@,
        risk.max_active_entries_per_underlying,
    ) + field_if(
        "max_single_entry_risk_capital_usd"@,
        match risk.max_single_entry_risk_capital_usd {
            Some(figure) => Some(float(figure.amount)),
            None => None,
        },
    )
}

pub(crate) fn as_natural(limit: Option<usize>) -> (value: Option<u64>)
    ensures
        value == match limit {
            Some(number) => Some(number as u64),
            None => None,
        },
{
    match limit {
        Some(number) => Some(number as u64),
        None => None,
    }
}

impl AlpacaOptionsStrategyRiskOverrides {
    /// Returns profile-local risk overrides as compact operator JSON.
    #[must_use]
    pub fn to_json_value(&self) -> (payload: Json)
        ensures
            payload@ == JsonTree::Object(risk_fields(*self)),
    {
        let capital = match &self.max_single_entry_risk_capital_usd {
            Some(figure) => Some(figure.amount),
            None => None,
        };
        let fields = Fields::new().natural_if(
            "max_active_entries",
            as_natural(self.max_active_entries),
        ).natural_if("max_daily_submits", as_natural(self.max_daily_submits)).natural_if(
            "max_active_entries_per_underlying",
            as_natural(self.max_active_entries_per_underlying),
        ).float_if("max_single_entry_risk_capital_usd", capital);
        assert(fields@ =~= risk_fields(*self));
        fields.into_json()
    }
}

/// The fields of a candidate profile.
pub open spec fn profile_fields(profile: AlpacaOptionsCandidateProfile) -> Seq<FieldTree> {
    seq![
        ("profile_id"@, JsonTree::Text(profile.id@)),
        ("profile_family"@, JsonTree::Text(profile.family.label())),
        ("profile_mode"@, JsonTree::Text(profile.mode.label())),
        ("profile_quantity"@, natural(profile.quantity)),
    ] + (if profile.risk.has_none() {
        Seq::empty()
    } else {
        seq![("profile_risk"@, JsonTree::Object(risk_fields(profile.risk)))]
    })
}

impl AlpacaOptionsCandidateProfile {
    /// Inserts profile fields into an operator JSON payload.
    pub fn insert_json_fields(&self, payload: Fields) -> (after: Fields)
        ensures
            after@ == payload@ + profile_fields(*self),
    {
        let ghost before = payload@;
        let after = payload.text("profile_id", self.id.as_str()).text(
            "profile_family",
            self.family.as_str(),
        ).text("profile_mode", self.mode.as_str()).natural("profile_quantity", self.quantity);
        let after = if self.risk.is_empty() {
            after
        } else {
            after.json("profile_risk", self.risk.to_json_value())
        };
        assert(after@ =~= before + profile_fields(*self));
        after
    }

    /// Returns profile fields as compact operator JSON.
    #[must_use]
    pub fn to_json_value(&self) -> (payload: Json)
        ensures
            payload@ == JsonTree::Object(profile_fields(*self)),
    {
        let fields = self.insert_json_fields(Fields::new());
        assert(fields@ =~= profile_fields(*self));
        fields.into_json()
    }
}

impl ProfiledOptionsEntry {
    /// Inserts profile fields into an operator JSON payload.
    pub fn insert_profile_json_fields(&self, payload: Fields) -> (after: Fields)
        ensures
            after@ == payload@ + profile_fields(self.profile),
    {
        self.profile.insert_json_fields(payload)
    }
}

// ---------------------------------------------------------------------------------------------
// Scans
// ---------------------------------------------------------------------------------------------

/// The fields of a scan report.
pub open spec fn scan_fields(report: OptionsScanReport) -> Seq<FieldTree> {
    seq![
        ("underlying"@, JsonTree::Text(report.underlying@)),
        ("strategy"@, JsonTree::Text(report.strategy@)),
        ("outcome"@, JsonTree::Text(report.outcome.label())),
        ("candidate_count"@, natural(report.candidate_count as u64)),
        ("reason"@, text_or_null(opt_text(report.reason))),
        ("contracts"@, natural(report.contract_count as u64)),
        ("snapshots"@, natural(report.snapshot_count as u64)),
        ("scoreable"@, natural(report.scoreable_count as u64)),
        ("rejections"@, counts_tree(report.rejection_counts@)),
    ]
}

/// Returns the payload of a scan report.
pub fn scan_report_payload(report: &OptionsScanReport) -> (payload: Json)
    ensures
        payload@ == JsonTree::Object(scan_fields(*report)),
{
    let fields = Fields::new().text("underlying", report.underlying.as_str()).text(
        "strategy",
        report.strategy,
    ).text("outcome", report.outcome.as_str()).count(
        "candidate_count",
        report.candidate_count,
    ).opt_text("reason", &report.reason).count("contracts", report.contract_count).count(
        "snapshots",
        report.snapshot_count,
    ).count("scoreable", report.scoreable_count).json(
        "rejections",
        counts_value(&report.rejection_counts),
    );
    assert(fields@ =~= scan_fields(*report));
    fields.into_json()
}

/// The payloads of some scan reports.
pub open spec fn scans_tree(scans: Seq<OptionsScanReport>) -> JsonTree {
    JsonTree::List(Seq::new(scans.len(), |i: int| JsonTree::Object(scan_fields(scans[i]))))
}

pub(crate) fn scans_payload(scans: &Vec<OptionsScanReport>) -> (payload: Json)
    ensures
        payload@ == scans_tree(scans@),
{
    let mut values: Vec<Json> = Vec::new();
    let n: usize = scans.len();
    for i in 0..n
        invariant
            n == scans@.len(),
            values@.len() == i,
            forall|k: int|
                0 <= k < i ==> (#[trigger] values@[k])@ == JsonTree::Object(scan_fields(scans@[k])),
    {
        values.push(scan_report_payload(&scans[i]));
    }
    assert(trees(values@) =~= Seq::new(
        scans@.len(),
        |i: int| JsonTree::Object(scan_fields(scans@[i])),
    ));
    list_value(values)
}

/// The fields of a selected entry.
pub open spec fn selected_fields(entry: SelectedOptionsEntry) -> Seq<FieldTree> {
    seq![
        ("strategy"@, JsonTree::Text(entry.strategy())),
        ("underlying"@, JsonTree::Text(entry.underlying_chars())),
        ("candidate_type"@, JsonTree::Text(entry.candidate_type())),
        ("symbols"@, text_list(entry.symbols())),
        ("score"@, float(entry.score_amount())),
        ("premium_kind"@, JsonTree::Text(entry.premium_kind().label())),
        ("premium"@, float(entry.premium_amount())),
    ]
}

/// Returns the payload of a selected entry.
pub fn selected_entry_payload(entry: &SelectedOptionsEntry) -> (payload: Json)
    ensures
        payload@ == JsonTree::Object(selected_fields(*entry)),
{
    let descriptor = entry.descriptor();
    let fields = Fields::new().text("strategy", descriptor.strategy).text(
        "underlying",
        descriptor.underlying.as_str(),
    ).text("candidate_type", descriptor.candidate_type).texts(
        "symbols",
        &descriptor.symbols,
    ).float("score", descriptor.score).text(
        "premium_kind",
        descriptor.premium_kind.as_str(),
    ).float("premium", descriptor.premium);
    assert(fields@ =~= selected_fields(*entry));
    fields.into_json()
}

/// The payload of the selected entry of a set, `null` when there is none.
pub open spec fn selected_tree(set: OptionsCandidateSet) -> JsonTree {
    match set.selected() {
        Some(entry) => JsonTree::Object(selected_fields(entry.entry)),
        None => JsonTree::Null,
    }
}

pub(crate) fn selected_payload(set: &OptionsCandidateSet) -> (payload: Json)
    ensures
        payload@ == selected_tree(*set),
{
    match set.selected_entry() {
        Some(entry) => selected_entry_payload(&entry.entry),
        None => Json::Null,
    }
}

/// The fields of the event of a scanned option chain.
pub open spec fn opportunity_fields(
    series_id: Seq<char>,
    input: OptionChainCandidateInput,
    opportunities: OptionsCandidateSet,
) -> Seq<FieldTree> {
    seq![
        ("source"@, JsonTree::Text("option_chain"@)),
        ("series_id"@, JsonTree::Text(series_id)),
        ("underlying"@, JsonTree::Text(input.underlying@)),
        ("expiration_date"@, JsonTree::Text(input.expiration_date@)),
        ("underlying_price"@, float_or_null(input.underlying_price)),
        ("call_contracts"@, natural(input.calls.contracts@.len() as u64)),
        ("put_contracts"@, natural(input.puts.contracts@.len() as u64)),
        ("scans"@, scans_tree(opportunities.scans@)),
        ("ranked_entries"@, natural(opportunities.ranked_entries@.len() as u64)),
        ("selected"@, selected_tree(opportunities)),
    ]
}

/// Returns the payload of a scanned option chain.
pub fn opportunity_event_payload(
    series_id: &str,
    input: &OptionChainCandidateInput,
    opportunities: &OptionsCandidateSet,
) -> (payload: Json)
    ensures
        payload@ == JsonTree::Object(opportunity_fields(series_id@, *input, *opportunities)),
{
    let fields = Fields::new().text("source", "option_chain").text("series_id", series_id).text(
        "underlying",
        input.underlying.as_str(),
    ).text("expiration_date", input.expiration_date.as_str()).opt_float(
        "underlying_price",
        input.underlying_price,
    ).count("call_contracts", input.calls.contract_count()).count(
        "put_contracts",
        input.puts.contract_count(),
    ).json("scans", scans_payload(&opportunities.scans)).count(
        "ranked_entries",
        opportunities.ranked_entries.len(),
    ).json("selected", selected_payload(opportunities));
    assert(fields@ =~= opportunity_fields(series_id@, *input, *opportunities));
    fields.into_json()
}

// ---------------------------------------------------------------------------------------------
// Entry decisions
// ---------------------------------------------------------------------------------------------

/// The fields of a decision on a planned entry.
pub open spec fn decision_fields(
    action: Seq<char>,
    reason: Seq<char>,
    key: Option<Seq<char>>,
    trade_date: Seq<char>,
    entry_plan: AlpacaOptionsEntryPlan,
    with_score: bool,
) -> Seq<FieldTree> {
    seq![("action"@, JsonTree::Text(action)), ("reason"@, JsonTree::Text(reason))] + field_if(
        "key"@,
        match key {
            Some(text) => Some(JsonTree::Text(text)),
            None => None,
        },
    ) + seq![
        ("trade_date"@, JsonTree::Text(trade_date)),
        ("underlying"@, JsonTree::Text(entry_plan.underlying@)),
        ("strategy"@, JsonTree::Text(entry_plan.strategy@)),
        ("strategy_family"@, JsonTree::Text(entry_plan.family.label())),
        ("symbols"@, text_list(texts(entry_plan.symbols@))),
        ("planned_order_legs"@, plan_legs_tree(entry_plan.order_legs@)),
    ] + (if with_score {
        seq![("score"@, float(entry_plan.score))]
    } else {
        Seq::empty()
    })
}

fn decision_event(
    action: &str,
    reason: &str,
    key: Option<&str>,
    trade_date: &str,
    entry_plan: &AlpacaOptionsEntryPlan,
    with_score: bool,
) -> (event: OperatorEvent)
    ensures
        is_event(
            event,
            "entry_decision"@,
            decision_fields(
                action@,
                reason@,
                opt_slice(key),
                trade_date@,
                *entry_plan,
                with_score,
            ),
        ),
{
    let fields = Fields::new().text("action", action).text("reason", reason).text_if("key", key);
    let fields = fields.text("trade_date", trade_date).text(
        "underlying",
        entry_plan.underlying.as_str(),
    ).text("strategy", entry_plan.strategy).text(
        "strategy_family",
        entry_plan.family.as_str(),
    ).texts("symbols", &entry_plan.symbols).json(
        "planned_order_legs",
        entry_plan_payload_legs(entry_plan),
    );
    let fields = if with_score {
        fields.float("score", entry_plan.score)
    } else {
        fields
    };
    assert(fields@ =~= decision_fields(
        action@,
        reason@,
        opt_slice(key),
        trade_date@,
        *entry_plan,
        with_score,
    ));
    OperatorEvent { event_type: "entry_decision", payload: fields.into_json() }
}

/// Returns the event of a dry run.
pub fn dry_run_event(reason: &str, trade_date: &str, entry_plan: &AlpacaOptionsEntryPlan) -> (event: OperatorEvent)
    ensures
        is_event(
            event,
            "entry_decision"@,
            decision_fields("dry_run"@, reason@, None, trade_date@, *entry_plan, true),
        ),
{
    decision_event("dry_run", reason, None, trade_date, entry_plan, true)
}

/// Returns the event of an entry that was passed over, with the key of a repetition.
pub fn skipped_event(
    reason: &str,
    key: Option<&str>,
    trade_date: &str,
    entry_plan: &AlpacaOptionsEntryPlan,
) -> (event: OperatorEvent)
    ensures
        is_event(
            event,
            "entry_decision"@,
            decision_fields("skipped"@, reason@, opt_slice(key), trade_date@, *entry_plan, false),
        ),
{
    decision_event("skipped", reason, key, trade_date, entry_plan, false)
}

/// A count, `null` where it is missing.
pub open spec fn count_or_null(value: Option<usize>) -> JsonTree {
    match value {
        Some(number) => natural(number as u64),
        None => JsonTree::Null,
    }
}

/// The fields of a selected entry that a gate blocks.
pub open spec fn block_fields(
    trade_date: Seq<char>,
    entry: SelectedOptionsEntry,
    block: SubmissionBlock,
) -> Seq<FieldTree> {
    seq![
        ("action"@, JsonTree::Text("selected_but_blocked"@)),
        ("trade_date"@, JsonTree::Text(trade_date)),
        ("reason"@, JsonTree::Text(block.reason@)),
        ("current"@, count_or_null(block.current)),
        ("limit"@, count_or_null(block.limit)),
        ("details"@, text_list(texts(block.details@))),
        ("underlying"@, JsonTree::Text(entry.underlying_chars())),
        ("strategy"@, JsonTree::Text(entry.strategy())),
        ("symbols"@, text_list(entry.symbols())),
        ("score"@, float(entry.score_amount())),
    ]
}

/// Returns the event of a selected entry that a gate blocks.
pub fn entry_block_event(trade_date: &str, entry: &SelectedOptionsEntry, block: &SubmissionBlock) -> (event: OperatorEvent)
    ensures
        is_event(event, "entry_decision"@, block_fields(trade_date@, *entry, *block)),
{
    let fields = Fields::new().text("action", "selected_but_blocked").text(
        "trade_date",
        trade_date,
    ).text("reason", block.reason.as_str()).opt_natural(
        "current",
        as_natural(block.current),
    ).opt_natural("limit", as_natural(block.limit)).texts("details", &block.details).text(
        "underlying",
        entry.underlying(),
    ).text("strategy", entry.strategy_name()).json(
        "symbols",
        slice_list_value(&entry.option_symbols()),
    ).float("score", entry.score());
    assert(fields@ =~= block_fields(trade_date@, *entry, *block));
    OperatorEvent { event_type: "entry_decision", payload: fields.into_json() }
}

// ---------------------------------------------------------------------------------------------
// Management
// ---------------------------------------------------------------------------------------------

/// The fields that name an entry and what was decided on it.
pub open spec fn head_fields(
    action: Seq<char>,
    reason: Seq<char>,
    entry: StrategyStateEntry,
) -> Seq<FieldTree> {
    seq![
        ("action"@, JsonTree::Text(action)),
        ("reason"@, JsonTree::Text(reason)),
        ("underlying"@, JsonTree::Text(entry.underlying@)),
        ("strategy"@, JsonTree::Text(entry.strategy@)),
    ]
}

pub(crate) fn head(action: &str, reason: &str, entry: &StrategyStateEntry) -> (fields: Fields)
    ensures
        fields@ == head_fields(action@, reason@, *entry),
{
    let fields = Fields::new().text("action", action).text("reason", reason).text(
        "underlying",
        entry.underlying.as_str(),
    ).text("strategy", entry.strategy.as_str());
    assert(fields@ =~= head_fields(action@, reason@, *entry));
    fields
}

/// The fields of the cancellation of stale orders.
pub open spec fn stale_fields(
    action: Seq<char>,
    entry: StrategyStateEntry,
    close_order_list_id: Option<Seq<char>>,
    age_secs: u64,
    limit_secs: u64,
) -> Seq<FieldTree> {
    seq![
        ("action"@, JsonTree::Text(action)),
        ("underlying"@, JsonTree::Text(entry.underlying@)),
        ("strategy"@, JsonTree::Text(entry.strategy@)),
        ("order_list_id"@, JsonTree::Text(entry.order_list_id@)),
    ] + field_if(
        "close_order_list_id"@,
        match close_order_list_id {
            Some(id) => Some(JsonTree::Text(id)),
            None => None,
        },
    ) + seq![("age_secs"@, natural(age_secs)), ("limit_secs"@, natural(limit_secs))]
}

fn stale_payload(
    action: &str,
    entry: &StrategyStateEntry,
    close_order_list_id: Option<&str>,
    age_secs: u64,
    limit_secs: u64,
) -> (payload: Json)
    ensures
        payload@ == JsonTree::Object(
            stale_fields(action@, *entry, opt_slice(close_order_list_id), age_secs, limit_secs),
        ),
{
    let fields = Fields::new().text("action", action).text(
        "underlying",
        entry.underlying.as_str(),
    ).text("strategy", entry.strategy.as_str()).text(
        "order_list_id",
        entry.order_list_id.as_str(),
    ).text_if("close_order_list_id", close_order_list_id).natural("age_secs", age_secs).natural(
        "limit_secs",
        limit_secs,
    );
    assert(fields@ =~= stale_fields(
        action@,
        *entry,
        opt_slice(close_order_list_id),
        age_secs,
        limit_secs,
    ));
    fields.into_json()
}

/// The time of day as text, `null` where it has none.
pub open spec fn time_tree(window_time: crate::calendar::TimeOfDay) -> JsonTree {
    text_or_null(time_writing(window_time.secs, window_time.nanos))
}

/// The fields that a blocked close adds.
pub open spec fn close_block_fields(
    config: AlpacaOptionsManagementConfig,
    entry: StrategyStateEntry,
    decision: ActiveEntryDecision,
    trigger: Option<Seq<char>>,
    stale_symbols: Seq<Seq<char>>,
) -> Seq<FieldTree> {
    let with_trigger = seq![("trigger"@, text_or_null(trigger))];
    match decision {
        ActiveEntryDecision::QuoteStale => seq![
            ("symbols"@, text_list(stale_symbols)),
            ("limit_secs"@, natural(config.active_risk_quote_stale_secs)),
        ],
        ActiveEntryDecision::QuoteUnavailable => seq![
            ("short_symbol"@, JsonTree::Text(entry.short_symbol@)),
            ("long_symbol"@, JsonTree::Text(entry.long_symbol@)),
        ],
        ActiveEntryDecision::CloseOrdersDisabled => with_trigger + seq![
            ("close_orders_enabled"@, JsonTree::Bool(config.close_orders_enabled)),
        ],
        ActiveEntryDecision::MaxCloseAttempts => with_trigger + seq![
            ("attempts"@, natural(entry.close_attempts as u64)),
            ("limit"@, natural(config.max_close_attempts as u64)),
        ],
        ActiveEntryDecision::RepriceCooldown { remaining_secs } => with_trigger + seq![
            ("remaining_secs"@, natural(remaining_secs)),
        ],
        ActiveEntryDecision::OutsideCloseWindow => with_trigger + seq![
            ("window_start"@, time_tree(config.close_window.start)),
            ("window_end"@, time_tree(config.close_window.end)),
            ("timezone"@, JsonTree::Text(config.close_window.zone@)),
        ],
        _ => Seq::empty(),
    }
}

/// The event that a decision on an active entry gives: its type and fields.
pub open spec fn decision_event_of(
    config: AlpacaOptionsManagementConfig,
    entry: StrategyStateEntry,
    decision: ActiveEntryDecision,
    trigger: Option<Seq<char>>,
    stale_symbols: Seq<Seq<char>>,
) -> Option<(Seq<char>, Seq<FieldTree>)> {
    let list = seq![("order_list_id"@, JsonTree::Text(entry.order_list_id@))];
    let close_list = seq![
        ("close_order_list_id"@, text_or_null(opt_text(entry.close_order_list_id))),
    ];
    match decision {
        ActiveEntryDecision::CancelEntry { age_secs } => Some(
            (
                "management_snapshot"@,
                stale_fields("stale_entry_cancel"@, entry, None, age_secs, config.stale_entry_secs),
            ),
        ),
        ActiveEntryDecision::CancelClose { age_secs } => Some(
            (
                "management_snapshot"@,
                stale_fields(
                    "stale_close_cancel"@,
                    entry,
                    opt_text(entry.close_order_list_id),
                    age_secs,
                    config.stale_close_secs,
                ),
            ),
        ),
        ActiveEntryDecision::EntryMissing => Some(
            (
                "management_block"@,
                head_fields("entry_status_unavailable"@, "entry_order_missing_from_cache"@, entry)
                    + list,
            ),
        ),
        ActiveEntryDecision::EntryPartial => Some(
            (
                "management_block"@,
                head_fields("entry_status_unavailable"@, "partial_entry_state"@, entry) + list,
            ),
        ),
        ActiveEntryDecision::CloseMissing => Some(
            (
                "management_block"@,
                head_fields("close_status_unavailable"@, "close_order_missing_from_cache"@, entry)
                    + list + close_list,
            ),
        ),
        ActiveEntryDecision::ClosePartial => Some(
            (
                "management_block"@,
                head_fields("close_status_unavailable"@, "partial_close_state"@, entry) + list
                    + close_list,
            ),
        ),
        ActiveEntryDecision::QuoteStale
        | ActiveEntryDecision::QuoteUnavailable
        | ActiveEntryDecision::CloseOrdersDisabled
        | ActiveEntryDecision::MaxCloseAttempts
        | ActiveEntryDecision::RepriceCooldown { .. }
        | ActiveEntryDecision::OutsideCloseWindow => Some(
            (
                "management_block"@,
                head_fields("close_blocked"@, decision.block_reason()->0, entry)
                    + close_block_fields(config, entry, decision, trigger, stale_symbols),
            ),
        ),
        _ => None,
    }
}

pub(crate) fn block_event(fields: Fields) -> (event: OperatorEvent)
    ensures
        is_event(event, "management_block"@, fields@),
{
    OperatorEvent { event_type: "management_block", payload: fields.into_json() }
}

fn close_blocked_event(
    config: &AlpacaOptionsManagementConfig,
    entry: &StrategyStateEntry,
    decision: ActiveEntryDecision,
    reason: &'static str,
    trigger: &Option<String>,
    stale_symbols: &Vec<String>,
) -> (event: OperatorEvent)
    ensures
        is_event(
            event,
            "management_block"@,
            head_fields("close_blocked"@, reason@, *entry) + close_block_fields(
                *config,
                *entry,
                decision,
                opt_text(*trigger),
                texts(stale_symbols@),
            ),
        ),
{
    let fields = head("close_blocked", reason, entry);
    let ghost before = fields@;
    let fields = match decision {
        ActiveEntryDecision::QuoteStale => fields.texts("symbols", stale_symbols).natural(
            "limit_secs",
            config.active_risk_quote_stale_secs,
        ),
        ActiveEntryDecision::QuoteUnavailable => fields.text(
            "short_symbol",
            entry.short_symbol.as_str(),
        ).text("long_symbol", entry.long_symbol.as_str()),
        ActiveEntryDecision::CloseOrdersDisabled => fields.opt_text("trigger", trigger).bool(
            "close_orders_enabled",
            config.close_orders_enabled,
        ),
        ActiveEntryDecision::MaxCloseAttempts => fields.opt_text("trigger", trigger).natural(
            "attempts",
            entry.close_attempts as u64,
        ).natural("limit", config.max_close_attempts as u64),
        ActiveEntryDecision::RepriceCooldown { remaining_secs } => fields.opt_text(
            "trigger",
            trigger,
        ).natural("remaining_secs", remaining_secs),
        ActiveEntryDecision::OutsideCloseWindow => fields.opt_text("trigger", trigger).opt_text(
            "window_start",
            &time_text(config.close_window.start),
        ).opt_text("window_end", &time_text(config.close_window.end)).text(
            "timezone",
            config.close_window.zone.as_str(),
        ),
        _ => fields,
    };
    assert(fields@ =~= before + close_block_fields(
        *config,
        *entry,
        decision,
        opt_text(*trigger),
        texts(stale_symbols@),
    ));
    block_event(fields)
}

/// Returns the event that a decision on an active entry gives, if any. `stale_symbols` are the legs
/// with a stale quote.
pub fn active_entry_event(
    config: &AlpacaOptionsManagementConfig,
    entry: &StrategyStateEntry,
    decision: ActiveEntryDecision,
    trigger: &Option<String>,
    stale_symbols: &Vec<String>,
) -> (event: Option<OperatorEvent>)
    ensures
        match event {
            Some(found) => decision_event_of(
                *config,
                *entry,
                decision,
                opt_text(*trigger),
                texts(stale_symbols@),
            ) matches Some((kind, fields)) && is_event(found, kind, fields),
            None => decision_event_of(
                *config,
                *entry,
                decision,
                opt_text(*trigger),
                texts(stale_symbols@),
            ) is None,
        },
{
    let list_id = entry.order_list_id.as_str();
    match decision {
        ActiveEntryDecision::CancelEntry { age_secs } => Some(
            OperatorEvent {
                event_type: "management_snapshot",
                payload: stale_payload(
                    "stale_entry_cancel",
                    entry,
                    None,
                    age_secs,
                    config.stale_entry_secs,
                ),
            },
        ),
        ActiveEntryDecision::CancelClose { age_secs } => Some(
            OperatorEvent {
                event_type: "management_snapshot",
                payload: stale_payload(
                    "stale_close_cancel",
                    entry,
                    as_slice(&entry.close_order_list_id),
                    age_secs,
                    config.stale_close_secs,
                ),
            },
        ),
        ActiveEntryDecision::EntryMissing => {
            let fields = head(
                "entry_status_unavailable",
                "entry_order_missing_from_cache",
                entry,
            );
            let ghost before = fields@;
            let fields = fields.text("order_list_id", list_id);
            assert(fields@ =~= before + seq![("order_list_id"@, JsonTree::Text(list_id@))]);
            Some(block_event(fields))
        },
        ActiveEntryDecision::EntryPartial => {
            let fields = head("entry_status_unavailable", "partial_entry_state", entry);
            let ghost before = fields@;
            let fields = fields.text("order_list_id", list_id);
            assert(fields@ =~= before + seq![("order_list_id"@, JsonTree::Text(list_id@))]);
            Some(block_event(fields))
        },
        ActiveEntryDecision::CloseMissing => {
            let fields = head(
                "close_status_unavailable",
                "close_order_missing_from_cache",
                entry,
            );
            let ghost before = fields@;
            let fields = fields.text("order_list_id", list_id).opt_text(
                "close_order_list_id",
                &entry.close_order_list_id,
            );
            assert(fields@ =~= before + seq![("order_list_id"@, JsonTree::Text(list_id@))] + seq![
                ("close_order_list_id"@, text_or_null(opt_text(entry.close_order_list_id))),
            ]);
            Some(block_event(fields))
        },
        ActiveEntryDecision::ClosePartial => {
            let fields = head("close_status_unavailable", "partial_close_state", entry);
            let ghost before = fields@;
            let fields = fields.text("order_list_id", list_id).opt_text(
                "close_order_list_id",
                &entry.close_order_list_id,
            );
            assert(fields@ =~= before + seq![("order_list_id"@, JsonTree::Text(list_id@))] + seq![
                ("close_order_list_id"@, text_or_null(opt_text(entry.close_order_list_id))),
            ]);
            Some(block_event(fields))
        },
        ActiveEntryDecision::MarkCanceled | ActiveEntryDecision::ClearClose => None,
        _ => match decision.reason() {
            Some(reason) => Some(
                close_blocked_event(config, entry, decision, reason, trigger, stale_symbols),
            ),
            None => None,
        },
    }
}

/// What a close quote means for an entry, as computed from its prices.
#[derive(Clone, Copy, Debug)]
pub struct ProfitFigures {
    /// Profit if the entry were closed now.
    pub pnl: Amount,
    /// That profit as a fraction of the entry premium.
    pub pnl_fraction: Amount,
}

/// The entry premium.
pub open spec fn entry_net_premium(entry: StrategyStateEntry) -> Option<Amount> {
    if entry.debit_spread() {
        entry.debit
    } else {
        Some(entry.credit)
    }
}

/// The fields of a management snapshot.
pub open spec fn snapshot_fields(
    entry: StrategyStateEntry,
    close_quote: CloseQuote,
    close_reason: Option<Seq<char>>,
    profit: ProfitFigures,
    days_to_expiration: Option<i64>,
    hold_secs: Option<u64>,
) -> Seq<FieldTree> {
    let premium = entry_net_premium(entry);
    seq![
        ("underlying"@, JsonTree::Text(entry.underlying@)),
        ("strategy"@, JsonTree::Text(entry.strategy@)),
        (
            "net_premium_kind"@,
            JsonTree::Text(
                if entry.debit_spread() {
                    "debit"@
                } else {
                    "credit"@
                },
            ),
        ),
        ("entry_net_premium"@, float_or_null(premium)),
        (
            "close_net_premium"@,
            float(
                if entry.debit_spread() {
                    close_quote.debit.negated_spec()
                } else {
                    close_quote.debit
                },
            ),
        ),
        (
            "unrealized_pnl"@,
            if premium is Some {
                float(profit.pnl)
            } else {
                JsonTree::Null
            },
        ),
        (
            "unrealized_pnl_fraction"@,
            if premium is Some && premium->0.above_zero() {
                float(profit.pnl_fraction)
            } else {
                JsonTree::Null
            },
        ),
        ("close_reason"@, text_or_null(close_reason)),
        ("close_attempts"@, natural(entry.close_attempts as u64)),
        ("days_to_expiration"@, integer_or_null(days_to_expiration)),
        ("hold_secs"@, natural_or_null(hold_secs)),
    ]
}

/// Returns the event of a management snapshot.
pub fn management_snapshot_event(
    entry: &StrategyStateEntry,
    close_quote: &CloseQuote,
    close_reason: &Option<String>,
    profit: ProfitFigures,
    days_to_expiration: Option<i64>,
    hold_secs: Option<u64>,
) -> (event: OperatorEvent)
    ensures
        is_event(
            event,
            "management_snapshot"@,
            snapshot_fields(
                *entry,
                *close_quote,
                opt_text(*close_reason),
                profit,
                days_to_expiration,
                hold_secs,
            ),
        ),
{
    let debit: bool = entry.is_debit_spread();
    let (kind, premium, close_premium) = if debit {
        ("debit", entry.entry_debit(), close_quote.debit.negated())
    } else {
        ("credit", Some(entry.credit), close_quote.debit)
    };
    let (pnl, fraction) = match premium {
        Some(basis) => (
            Some(profit.pnl),
            if basis.is_above_zero() {
                Some(profit.pnl_fraction)
            } else {
                None
            },
        ),
        None => (None, None),
    };
    let fields = Fields::new().text("underlying", entry.underlying.as_str()).text(
        "strategy",
        entry.strategy.as_str(),
    ).text("net_premium_kind", kind).opt_float("entry_net_premium", premium).float(
        "close_net_premium",
        close_premium,
    ).opt_float("unrealized_pnl", pnl).opt_float("unrealized_pnl_fraction", fraction).opt_text(
        "close_reason",
        close_reason,
    ).natural("close_attempts", entry.close_attempts as u64).opt_integer(
        "days_to_expiration",
        days_to_expiration,
    ).opt_natural("hold_secs", hold_secs);
    assert(fields@ =~= snapshot_fields(
        *entry,
        *close_quote,
        opt_text(*close_reason),
        profit,
        days_to_expiration,
        hold_secs,
    ));
    OperatorEvent { event_type: "management_snapshot", payload: fields.into_json() }
}

/// The fields on the pricing of a spread close.
pub open spec fn close_pricing_fields(pricing: SpreadCloseOrderPricing) -> Seq<FieldTree> {
    seq![
        (
            "spread_bid"@,
            match pricing.quote {
                Some(seen) => float(seen.quote.bid),
                None => JsonTree::Null,
            },
        ),
        (
            "spread_ask"@,
            match pricing.quote {
                Some(seen) => float(seen.quote.ask),
                None => JsonTree::Null,
            },
        ),
        (
            "spread_mid"@,
            match pricing.quote {
                Some(seen) => float(seen.mid),
                None => JsonTree::Null,
            },
        ),
        ("quote_age_secs"@, natural_or_null(pricing.quote_age_secs)),
        ("quote_stale_limit_secs"@, natural(pricing.quote_stale_limit_secs)),
    ]
}

fn add_close_pricing(fields: Fields, pricing: &SpreadCloseOrderPricing) -> (after: Fields)
    ensures
        after@ == fields@ + close_pricing_fields(*pricing),
{
    let ghost before = fields@;
    let (bid, ask, mid) = match pricing.quote {
        Some(seen) => (Some(seen.quote.bid), Some(seen.quote.ask), Some(seen.mid)),
        None => (None, None, None),
    };
    let after = fields.opt_float("spread_bid", bid).opt_float("spread_ask", ask).opt_float(
        "spread_mid",
        mid,
    ).opt_natural("quote_age_secs", pricing.quote_age_secs).natural(
        "quote_stale_limit_secs",
        pricing.quote_stale_limit_secs,
    );
    assert(after@ =~= before + close_pricing_fields(*pricing));
    after
}

/// The fields of a spread close that has no limit.
pub open spec fn spread_close_block_fields(
    entry: StrategyStateEntry,
    close_order_list_id: Seq<char>,
    close_reason: Seq<char>,
    plan: OptionSpreadPlan,
    pricing: SpreadCloseOrderPricing,
) -> Seq<FieldTree> {
    head_fields(
        "close_blocked"@,
        match pricing.unavailable_reason {
            Some(reason) => reason@,
            None => "spread_close_order_unavailable"@,
        },
        entry,
    ) + seq![
        ("order_list_id"@, JsonTree::Text(entry.order_list_id@)),
        ("close_order_list_id"@, JsonTree::Text(close_order_list_id)),
        ("close_reason"@, JsonTree::Text(close_reason)),
        ("close_order_mode"@, JsonTree::Text(CloseOrderMode::OptionSpread.label())),
        ("spread_instrument_id"@, JsonTree::Text(plan.instrument_id@)),
        ("spread_symbol"@, JsonTree::Text(plan.raw_symbol@)),
        ("pricing_source"@, JsonTree::Text("nautilus_spread_quote"@)),
    ] + close_pricing_fields(pricing) + seq![
        ("close_price_cushion"@, float(pricing.close_price_cushion)),
        ("submitted"@, JsonTree::Bool(false)),
    ]
}

/// Returns the event of a spread close that has no limit.
pub fn spread_close_block_event(
    entry: &StrategyStateEntry,
    close_order_list_id: &str,
    close_reason: &str,
    plan: &OptionSpreadPlan,
    pricing: &SpreadCloseOrderPricing,
) -> (event: OperatorEvent)
    ensures
        is_event(
            event,
            "management_block"@,
            spread_close_block_fields(
                *entry,
                close_order_list_id@,
                close_reason@,
                *plan,
                *pricing,
            ),
        ),
{
    let reason = match pricing.unavailable_reason {
        Some(reason) => reason,
        None => "spread_close_order_unavailable",
    };
    let fields = head("close_blocked", reason, entry).text(
        "order_list_id",
        entry.order_list_id.as_str(),
    ).text("close_order_list_id", close_order_list_id).text("close_reason", close_reason).text(
        "close_order_mode",
        CloseOrderMode::OptionSpread.as_str(),
    ).text("spread_instrument_id", plan.instrument_id.as_str()).text(
        "spread_symbol",
        plan.raw_symbol.as_str(),
    ).text("pricing_source", "nautilus_spread_quote");
    let fields = add_close_pricing(fields, pricing).float(
        "close_price_cushion",
        pricing.close_price_cushion,
    ).bool("submitted", false);
    assert(fields@ =~= spread_close_block_fields(
        *entry,
        close_order_list_id@,
        close_reason@,
        *plan,
        *pricing,
    ));
    block_event(fields)
}

/// The fields of a spread close that goes out.
pub open spec fn spread_close_submit_fields(
    entry: StrategyStateEntry,
    close_order_list_id: Seq<char>,
    close_reason: Seq<char>,
    client_order_id: Seq<char>,
    plan: OptionSpreadPlan,
    pricing: SpreadCloseOrderPricing,
) -> Seq<FieldTree> {
    seq![
        ("action"@, JsonTree::Text("spread_close_submit"@)),
        ("underlying"@, JsonTree::Text(entry.underlying@)),
        ("strategy"@, JsonTree::Text(entry.strategy@)),
        ("order_list_id"@, JsonTree::Text(entry.order_list_id@)),
        ("close_order_list_id"@, JsonTree::Text(close_order_list_id)),
        ("close_reason"@, JsonTree::Text(close_reason)),
        (
            "close_attempt"@,
            natural(
                if entry.close_attempts < u32::MAX {
                    (entry.close_attempts + 1) as u64
                } else {
                    u32::MAX as u64
                },
            ),
        ),
        ("close_order_mode"@, JsonTree::Text(CloseOrderMode::OptionSpread.label())),
        ("spread_instrument_id"@, JsonTree::Text(plan.instrument_id@)),
        ("spread_symbol"@, JsonTree::Text(plan.raw_symbol@)),
        ("legs"@, spread_legs_tree(plan.legs@)),
        ("client_order_id"@, JsonTree::Text(client_order_id)),
        ("close_side"@, JsonTree::Text("sell"@)),
        ("reduce_only"@, JsonTree::Bool(true)),
        ("pricing_source"@, JsonTree::Text("nautilus_spread_quote"@)),
        ("signed_close_limit"@, float_or_null(pricing.signed_limit_price)),
        ("close_price_cushion"@, float(pricing.close_price_cushion)),
    ] + close_pricing_fields(pricing)
}

/// Returns the event of a spread close that goes out.
pub fn spread_close_submit_event(
    entry: &StrategyStateEntry,
    close_order_list_id: &str,
    close_reason: &str,
    client_order_id: &str,
    plan: &OptionSpreadPlan,
    pricing: &SpreadCloseOrderPricing,
) -> (event: OperatorEvent)
    ensures
        is_event(
            event,
            "management_action"@,
            spread_close_submit_fields(
                *entry,
                close_order_list_id@,
                close_reason@,
                client_order_id@,
                *plan,
                *pricing,
            ),
        ),
{
    let attempt: u64 = if entry.close_attempts < u32::MAX {
        entry.close_attempts as u64 + 1
    } else {
        u32::MAX as u64
    };
    let fields = Fields::new().text("action", "spread_close_submit").text(
        "underlying",
        entry.underlying.as_str(),
    ).text("strategy", entry.strategy.as_str()).text(
        "order_list_id",
        entry.order_list_id.as_str(),
    ).text("close_order_list_id", close_order_list_id).text("close_reason", close_reason).natural(
        "close_attempt",
        attempt,
    ).text("close_order_mode", CloseOrderMode::OptionSpread.as_str()).text(
        "spread_instrument_id",
        plan.instrument_id.as_str(),
    ).text("spread_symbol", plan.raw_symbol.as_str()).json(
        "legs",
        spread_legs_payload(&plan.legs),
    ).text("client_order_id", client_order_id).text("close_side", "sell").bool(
        "reduce_only",
        true,
    ).text("pricing_source", "nautilus_spread_quote").opt_float(
        "signed_close_limit",
        pricing.signed_limit_price,
    ).float("close_price_cushion", pricing.close_price_cushion);
    let fields = add_close_pricing(fields, pricing);
    assert(fields@ =~= spread_close_submit_fields(
        *entry,
        close_order_list_id@,
        close_reason@,
        client_order_id@,
        *plan,
        *pricing,
    ));
    OperatorEvent { event_type: "management_action", payload: fields.into_json() }
}

// ---------------------------------------------------------------------------------------------
// Lifecycle
// ---------------------------------------------------------------------------------------------

/// The fields of a lifecycle event.
pub open spec fn lifecycle_fields(event: OptionLifecycleEvent) -> Seq<FieldTree> {
    seq![
        ("kind"@, JsonTree::Text(event.kind.label())),
        ("activity_type"@, JsonTree::Text(event.kind.activity_chars())),
        ("id"@, text_or_null(opt_text(event.id))),
        ("symbol"@, text_or_null(opt_text(event.symbol))),
        (
            "occurred_at_utc"@,
            match event.occurred_at_utc {
                Some(time) => text_or_null(rfc3339_writing(time.secs, time.nanos)),
                None => JsonTree::Null,
            },
        ),
        ("activity_date"@, text_or_null(opt_text(event.activity_date))),
        ("quantity"@, text_or_null(opt_text(event.quantity))),
    ]
}

impl OptionLifecycleEvent {
    /// Returns stable JSON evidence.
    #[must_use]
    pub fn to_value(&self) -> (payload: Json)
        ensures
            payload@ == JsonTree::Object(lifecycle_fields(*self)),
    {
        let occurred = match self.occurred_at_utc {
            Some(time) => instant_text(time),
            None => None,
        };
        let fields = Fields::new().text("kind", self.kind.as_str()).text(
            "activity_type",
            self.kind.activity_type(),
        ).opt_text("id", &self.id).opt_text("symbol", &self.symbol).opt_text(
            "occurred_at_utc",
            &occurred,
        ).opt_text("activity_date", &self.activity_date).opt_text("quantity", &self.quantity);
        assert(fields@ =~= lifecycle_fields(*self));
        fields.into_json()
    }
}

/// The fields of a lifecycle poll.
pub open spec fn poll_fields(events: Seq<OptionLifecycleEvent>, blocks: Seq<Seq<char>>) -> Seq<FieldTree> {
    seq![
        (
            "events"@,
            JsonTree::List(
                Seq::new(events.len(), |i: int| JsonTree::Object(lifecycle_fields(events[i]))),
            ),
        ),
        ("event_count"@, natural(events.len() as u64)),
        ("blocks"@, text_list(blocks)),
    ]
}

/// Returns the event of a lifecycle poll.
pub fn lifecycle_poll_event(events: &Vec<OptionLifecycleEvent>, blocks: &Vec<String>) -> (event: OperatorEvent)
    ensures
        is_event(event, "option_lifecycle_poll"@, poll_fields(events@, texts(blocks@))),
{
    let mut values: Vec<Json> = Vec::new();
    let n: usize = events.len();
    for i in 0..n
        invariant
            n == events@.len(),
            values@.len() == i,
            forall|k: int|
                0 <= k < i ==> (#[trigger] values@[k])@ == JsonTree::Object(
                    lifecycle_fields(events@[k]),
                ),
    {
        values.push(events[i].to_value());
    }
    assert(trees(values@) =~= Seq::new(
        events@.len(),
        |i: int| JsonTree::Object(lifecycle_fields(events@[i])),
    ));
    let fields = Fields::new().json("events", list_value(values)).count("event_count", n).texts(
        "blocks",
        blocks,
    );
    assert(fields@ =~= poll_fields(events@, texts(blocks@)));
    OperatorEvent { event_type: "option_lifecycle_poll", payload: fields.into_json() }
}

/// Returns the event of a lifecycle poll that failed.
pub fn lifecycle_poll_error_event(error: &str) -> (event: OperatorEvent)
    ensures
        is_event(
            event,
            "option_lifecycle_poll_error"@,
            seq![
                ("reason"@, JsonTree::Text("activity_poll_failed"@)),
                ("error"@, JsonTree::Text(error@)),
            ],
        ),
{
    let fields = Fields::new().text("reason", "activity_poll_failed").text("error", error);
    assert(fields@ =~= seq![
        ("reason"@, JsonTree::Text("activity_poll_failed"@)),
        ("error"@, JsonTree::Text(error@)),
    ]);
    OperatorEvent { event_type: "option_lifecycle_poll_error", payload: fields.into_json() }
}

} // verus!
