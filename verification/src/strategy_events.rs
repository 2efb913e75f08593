//! Evidence of what the account strategy decided: operator events and candidate alerts.
use vstd::prelude::*;

use crate::account_strategy::submitted_underlying_key;
use crate::account_strategy::underlying_key;
use crate::account_strategy::CandidateOutcome;
use crate::account_strategy::SubmitRejectedAlert;
use crate::admission::SubmissionBlock;
use crate::amount::Amount;
use crate::events::block_event;
use crate::events::block_fields;
use crate::events::decision_fields;
use crate::events::dry_run_event;
use crate::events::entry_block_event;
use crate::events::head;
use crate::events::head_fields;
use crate::events::is_event;
use crate::events::skipped_event;
use crate::events::OperatorEvent;
use crate::fields::field_if;
use crate::fields::float;
use crate::fields::natural;
use crate::fields::slice_list_value;
use crate::fields::text_list;
use crate::fields::FieldTree;
use crate::fields::Fields;
use crate::json::Json;
use crate::json::JsonTree;
use crate::management::AlpacaOptionsManagementConfig;
use crate::management::CloseOrderMode;
use crate::members::members_of;
use crate::members::Members;
use crate::payloads::entry_plan_payload_legs;
use crate::payloads::plan_legs_tree;
use crate::pending::PendingCloseSubmission;
use crate::planner::AlpacaOptionsEntryPlan;
use crate::quotes::QuoteSubscriptions;
use crate::state::StrategyState;
use crate::state::StrategyStateEntry;
use crate::text::copy_texts;
use crate::text::opt_text;
use crate::text::same_text;
use crate::text::texts;
use crate::text_set::TextSet;

verus! {

// ---------------------------------------------------------------------------------------------
// Candidate decisions
// ---------------------------------------------------------------------------------------------

/// The regime that a decision was taken in, where there is one.
pub open spec fn regime_field(regime: Option<Json>) -> Seq<FieldTree> {
    field_if(
        "regime_context"@,
        match regime {
            Some(context) => Some(context@),
            None => None,
        },
    )
}

/// The fields of an entry that is passed over before its orders are looked at.
pub open spec fn closed_gate_fields(
    reason: Seq<char>,
    trade_date: Seq<char>,
    entry_plan: AlpacaOptionsEntryPlan,
) -> Seq<FieldTree> {
    seq![
        ("action"@, JsonTree::Text("skipped"@)),
        ("reason"@, JsonTree::Text(reason)),
        ("trade_date"@, JsonTree::Text(trade_date)),
        ("underlying"@, JsonTree::Text(entry_plan.underlying@)),
        ("strategy"@, JsonTree::Text(entry_plan.strategy@)),
    ]
}

/// Whether a reason is that of the account gate.
pub open spec fn is_gate_reason(reason: Seq<char>) -> bool {
    reason == "outside_entry_window"@ || reason == "kill_switch_enabled"@
}

/// The fields of the event that an outcome is told by.
pub open spec fn outcome_fields(
    trade_date: Seq<char>,
    entry_plan: AlpacaOptionsEntryPlan,
    outcome: CandidateOutcome,
    regime: Option<Json>,
) -> Option<Seq<FieldTree>> {
    match outcome {
        CandidateOutcome::Skipped(reason) => Some(
            if is_gate_reason(reason@) {
                closed_gate_fields(reason@, trade_date, entry_plan)
            } else if reason@ == "duplicate_pending_submission"@ {
                decision_fields(
                    "skipped"@,
                    reason@,
                    Some(underlying_key(trade_date, entry_plan.entry)),
                    trade_date,
                    entry_plan,
                    false,
                )
            } else {
                decision_fields("skipped"@, reason@, None, trade_date, entry_plan, false)
            },
        ),
        CandidateOutcome::DryRun(reason) => Some(
            decision_fields("dry_run"@, reason@, None, trade_date, entry_plan, true) + (if reason@
                == "regime_dry_run_only"@ {
                regime_field(regime)
            } else {
                Seq::empty()
            }),
        ),
        CandidateOutcome::Blocked(block) => Some(
            block_fields(trade_date, entry_plan.entry, block) + regime_field(regime),
        ),
        _ => None,
    }
}

fn closed_gate_event(reason: &str, trade_date: &str, entry_plan: &AlpacaOptionsEntryPlan) -> (event: OperatorEvent)
    ensures
        is_event(event, "entry_decision"@, closed_gate_fields(reason@, trade_date@, *entry_plan)),
{
    let fields = Fields::new().text("action", "skipped").text("reason", reason).text(
        "trade_date",
        trade_date,
    ).text("underlying", entry_plan.underlying.as_str()).text("strategy", entry_plan.strategy);
    assert(fields@ =~= closed_gate_fields(reason@, trade_date@, *entry_plan));
    OperatorEvent { event_type: "entry_decision", payload: fields.into_json() }
}

fn with_regime(event: OperatorEvent, regime: Option<Json>) -> (after: OperatorEvent)
    requires
        event.payload is Object,
    ensures
        after.event_type == event.event_type,
        after.payload@ == JsonTree::Object(event.payload@->Object_0 + regime_field(regime)),
{
    let ghost before = event.payload;
    let event_type = event.event_type;
    match event.payload {
        Json::Object(fields) => {
            let mut fields = fields;
            let ghost old_fields = fields@;
            match regime {
                Some(context) => {
                    fields.push(("regime_context".to_owned(), context));
                },
                None => {},
            }
            let payload = Json::Object(fields);
            proof {
                reveal_with_fuel(crate::json::tree, 2);
                assert(payload@->Object_0 =~= before@->Object_0 + regime_field(regime));
            }
            OperatorEvent { event_type, payload }
        },
        other => {
            OperatorEvent { event_type, payload: other }
        },
    }
}

/// Returns the event that the outcome of a candidate is told by, if any.
pub fn candidate_outcome_event(
    trade_date: &str,
    entry_plan: &AlpacaOptionsEntryPlan,
    outcome: &CandidateOutcome,
    regime: Option<Json>,
) -> (event: Option<OperatorEvent>)
    ensures
        match event {
            Some(found) => outcome_fields(trade_date@, *entry_plan, *outcome, regime) matches Some(
                fields,
            ) && is_event(found, "entry_decision"@, fields),
            None => outcome_fields(trade_date@, *entry_plan, *outcome, regime) is None,
        },
{
    match outcome {
        CandidateOutcome::Skipped(reason) => {
            if same_text(reason, "outside_entry_window") || same_text(
                reason,
                "kill_switch_enabled",
            ) {
                Some(closed_gate_event(reason, trade_date, entry_plan))
            } else if same_text(reason, "duplicate_pending_submission") {
                let key = submitted_underlying_key(trade_date, &entry_plan.entry);
                Some(skipped_event(reason, Some(key.as_str()), trade_date, entry_plan))
            } else {
                Some(skipped_event(reason, None, trade_date, entry_plan))
            }
        },
        CandidateOutcome::DryRun(reason) => {
            let event = dry_run_event(reason, trade_date, entry_plan);
            if same_text(reason, "regime_dry_run_only") {
                Some(with_regime(event, regime))
            } else {
                assert(event.payload@->Object_0 + Seq::<FieldTree>::empty()
                    =~= event.payload@->Object_0);
                Some(event)
            }
        },
        CandidateOutcome::Blocked(block) => Some(
            with_regime(entry_block_event(trade_date, &entry_plan.entry, block), regime),
        ),
        _ => None,
    }
}

// ---------------------------------------------------------------------------------------------
// Candidate alerts
// ---------------------------------------------------------------------------------------------

/// Type of the alert on a selected candidate.
pub const SELECTED_CANDIDATE_ALERT: &'static str = "selected_candidate";

/// Type of the alert on a submission that was rejected.
pub const CANDIDATE_SUBMIT_REJECTED_ALERT: &'static str = "candidate_submit_rejected";

/// What an alert says of a selected candidate.
#[derive(Clone, Debug)]
pub struct CandidateNote {
    /// What was done.
    pub action: &'static str,
    /// Order-list ID of a submission.
    pub order_list_id: Option<String>,
    /// Reason.
    pub reason: Option<String>,
    /// Current value of a limited count.
    pub current: Option<usize>,
    /// Limit of the count.
    pub limit: Option<usize>,
    /// Details.
    pub details: Vec<String>,
}

/// Whether a note has an action and a reason, and nothing of a limit or a submission.
pub open spec fn plain_note(
    note: CandidateNote,
    action: Seq<char>,
    reason: Seq<char>,
    details: Seq<Seq<char>>,
) -> bool {
    &&& note.action@ == action
    &&& note.order_list_id is None
    &&& opt_text(note.reason) == Some(reason)
    &&& note.current is None
    &&& note.limit is None
    &&& texts(note.details@) == details
}

/// Whether a note is that of a gate's block.
pub open spec fn block_note(note: CandidateNote, block: SubmissionBlock) -> bool {
    &&& note.action@ == "selected_but_blocked"@
    &&& note.order_list_id is None
    &&& opt_text(note.reason) == Some(block.reason@)
    &&& note.current == block.current
    &&& note.limit == block.limit
    &&& texts(note.details@) == texts(block.details@)
}

/// Whether a note is that of a submission.
pub open spec fn submission_note(note: CandidateNote, order_list_id: Seq<char>) -> bool {
    &&& note.action@ == "submitted"@
    &&& opt_text(note.order_list_id) == Some(order_list_id)
    &&& note.reason is None
    &&& note.current is None
    &&& note.limit is None
    &&& note.details@.len() == 0
}

/// Whether a note, or its absence, is owed for an outcome: every outcome on a candidate that could
/// be ordered is alerted on, except where the ledger itself is out of order.
pub open spec fn note_is_owed(
    note: Option<CandidateNote>,
    outcome: CandidateOutcome,
    order_list_id: Seq<char>,
    explanation_codes: Seq<Seq<char>>,
) -> bool {
    match outcome {
        CandidateOutcome::NoCandidate => note is None,
        CandidateOutcome::Failed(_) => note is None,
        CandidateOutcome::Skipped(reason) => if reason@ == "candidate_ledger_unhealthy"@ {
            note is None
        } else {
            note matches Some(found) && plain_note(found, "skipped"@, reason@, Seq::empty())
        },
        CandidateOutcome::DryRun(reason) => note matches Some(found) && plain_note(
            found,
            "dry_run"@,
            reason@,
            if reason@ == "regime_dry_run_only"@ {
                explanation_codes
            } else {
                Seq::empty()
            },
        ),
        CandidateOutcome::Blocked(block) => note matches Some(found) && block_note(found, block),
        CandidateOutcome::Submit(_) => note matches Some(found) && submission_note(
            found,
            order_list_id,
        ),
    }
}

fn note_of(action: &'static str, reason: &str, details: Vec<String>) -> (note: CandidateNote)
    ensures
        plain_note(note, action@, reason@, texts(details@)),
{
    CandidateNote {
        action,
        order_list_id: None,
        reason: Some(reason.to_owned()),
        current: None,
        limit: None,
        details,
    }
}

/// Returns what the alert on a candidate says of its outcome, if there is one.
pub fn candidate_note(
    outcome: &CandidateOutcome,
    order_list_id: &str,
    explanation_codes: &Vec<String>,
) -> (note: Option<CandidateNote>)
    ensures
        note_is_owed(note, *outcome, order_list_id@, texts(explanation_codes@)),
{
    let none: Vec<String> = Vec::new();
    assert(texts(none@) =~= Seq::<Seq<char>>::empty());
    match outcome {
        CandidateOutcome::NoCandidate | CandidateOutcome::Failed(_) => None,
        CandidateOutcome::Skipped(reason) => {
            if same_text(reason, "candidate_ledger_unhealthy") {
                None
            } else {
                Some(note_of("skipped", reason, none))
            }
        },
        CandidateOutcome::DryRun(reason) => {
            if same_text(reason, "regime_dry_run_only") {
                Some(note_of("dry_run", reason, copy_texts(explanation_codes)))
            } else {
                Some(note_of("dry_run", reason, none))
            }
        },
        CandidateOutcome::Blocked(block) => Some(
            CandidateNote {
                action: "selected_but_blocked",
                order_list_id: None,
                reason: Some(block.reason.clone()),
                current: block.current,
                limit: block.limit,
                details: copy_texts(&block.details),
            },
        ),
        CandidateOutcome::Submit(_) => Some(
            CandidateNote {
                action: "submitted",
                order_list_id: Some(order_list_id.to_owned()),
                reason: None,
                current: None,
                limit: None,
                details: none,
            },
        ),
    }
}

/// A value set under a name, where there is one.
pub open spec fn with_member(
    members: Map<Seq<char>, JsonTree>,
    name: Seq<char>,
    value: Option<JsonTree>,
) -> Map<Seq<char>, JsonTree> {
    match value {
        Some(found) => members.insert(name, found),
        None => members,
    }
}

/// What the alert on a candidate holds, whatever else is told of it.
pub open spec fn alert_head(
    candidate: Map<Seq<char>, JsonTree>,
    identity_key: Seq<char>,
    action: Seq<char>,
    trade_date: Seq<char>,
    order_list_id: Option<Seq<char>>,
) -> Map<Seq<char>, JsonTree> {
    with_member(
        candidate.insert("candidate_identity_key"@, JsonTree::Text(identity_key)).insert(
            "action"@,
            JsonTree::Text(action),
        ).insert("trade_date"@, JsonTree::Text(trade_date)),
        "order_list_id"@,
        match order_list_id {
            Some(id) => Some(JsonTree::Text(id)),
            None => None,
        },
    )
}

/// A count, where there is one.
pub open spec fn count_value(count: Option<usize>) -> Option<JsonTree> {
    match count {
        Some(number) => Some(natural(number as u64)),
        None => None,
    }
}

/// What the alert on a selected candidate holds.
pub open spec fn selected_alert_members(
    candidate: Map<Seq<char>, JsonTree>,
    identity_key: Seq<char>,
    trade_date: Seq<char>,
    note: CandidateNote,
    regime: Option<Json>,
) -> Map<Seq<char>, JsonTree> {
    let head = alert_head(
        candidate,
        identity_key,
        note.action@,
        trade_date,
        opt_text(note.order_list_id),
    );
    let reasoned = with_member(
        head,
        "reason"@,
        match note.reason {
            Some(reason) => Some(JsonTree::Text(reason@)),
            None => None,
        },
    );
    let counted = with_member(
        with_member(reasoned, "current"@, count_value(note.current)),
        "limit"@,
        count_value(note.limit),
    );
    let detailed = if note.details@.len() == 0 {
        counted
    } else {
        counted.insert("details"@, text_list(texts(note.details@)))
    };
    with_member(
        detailed,
        "regime_context"@,
        match regime {
            Some(context) => Some(context@),
            None => None,
        },
    )
}

fn insert_selected_alert_fields(
    payload: Members,
    identity_key: &str,
    action: &str,
    trade_date: &str,
    order_list_id: &Option<String>,
) -> (after: Members)
    ensures
        after@ == alert_head(
            payload@,
            identity_key@,
            action@,
            trade_date@,
            opt_text(*order_list_id),
        ),
{
    let after = payload.text("candidate_identity_key", identity_key).text("action", action).text(
        "trade_date",
        trade_date,
    );
    match order_list_id {
        Some(id) => after.text("order_list_id", id.as_str()),
        None => after,
    }
}

fn set_count(payload: Members, name: &str, count: Option<usize>) -> (after: Members)
    ensures
        after@ == with_member(payload@, name@, count_value(count)),
{
    match count {
        Some(number) => payload.count(name, number),
        None => payload,
    }
}

/// Returns the alert on a selected candidate, which starts from the candidate's ledger record.
pub fn selected_candidate_alert(
    candidate: Vec<(String, Json)>,
    identity_key: &str,
    trade_date: &str,
    note: &CandidateNote,
    regime: Option<Json>,
) -> (payload: Json)
    ensures
        payload matches Json::Object(fields) && members_of(fields@) == selected_alert_members(
            members_of(candidate@),
            identity_key@,
            trade_date@,
            *note,
            regime,
        ),
{
    let payload = insert_selected_alert_fields(
        Members::of(candidate),
        identity_key,
        note.action,
        trade_date,
        &note.order_list_id,
    );
    let payload = match &note.reason {
        Some(reason) => payload.text("reason", reason.as_str()),
        None => payload,
    };
    let payload = set_count(set_count(payload, "current", note.current), "limit", note.limit);
    let payload = if note.details.len() == 0 {
        payload
    } else {
        payload.texts("details", &note.details)
    };
    let payload = match regime {
        Some(context) => payload.set("regime_context", context),
        None => payload,
    };
    payload.into_json()
}

/// What the alert on a rejected submission holds.
pub open spec fn rejected_alert_members(
    candidate: Map<Seq<char>, JsonTree>,
    identity_key: Seq<char>,
    alert: SubmitRejectedAlert,
) -> Map<Seq<char>, JsonTree> {
    alert_head(
        candidate,
        identity_key,
        "submitted"@,
        alert.submission.trade_date@,
        Some(alert.submission.order_list_id@),
    ).insert("accepted"@, natural(alert.submission.accepted as u64)).insert(
        "rejected"@,
        natural(alert.submission.rejected as u64),
    ).insert(
        "rejection_reasons"@,
        text_list(texts(alert.submission.rejection_reasons@)),
    ).insert("terminal_rejection_recorded"@, JsonTree::Bool(alert.terminal_rejection_recorded))
}

/// Returns the alert on a rejected submission, which starts from the candidate's ledger record.
pub fn submit_rejected_candidate_alert(
    candidate: Vec<(String, Json)>,
    identity_key: &str,
    alert: &SubmitRejectedAlert,
) -> (payload: Json)
    ensures
        payload matches Json::Object(fields) && members_of(fields@) == rejected_alert_members(
            members_of(candidate@),
            identity_key@,
            *alert,
        ),
{
    let submission = &alert.submission;
    insert_selected_alert_fields(
        Members::of(candidate),
        identity_key,
        "submitted",
        submission.trade_date.as_str(),
        &Some(submission.order_list_id.clone()),
    ).count("accepted", submission.accepted).count("rejected", submission.rejected).texts(
        "rejection_reasons",
        &submission.rejection_reasons,
    ).bool("terminal_rejection_recorded", alert.terminal_rejection_recorded).into_json()
}

// ---------------------------------------------------------------------------------------------
// Closes
// ---------------------------------------------------------------------------------------------

/// The number of a close attempt to come.
pub open spec fn next_attempt(entry: StrategyStateEntry) -> u64 {
    if entry.close_attempts < u32::MAX {
        (entry.close_attempts + 1) as u64
    } else {
        u32::MAX as u64
    }
}

/// The fields of a close that goes out leg by leg.
pub open spec fn close_submit_fields(
    config: AlpacaOptionsManagementConfig,
    entry: StrategyStateEntry,
    close_order_list_id: Seq<char>,
    close_reason: Seq<char>,
    close_price_cushion: Amount,
    close_debit: Amount,
) -> Seq<FieldTree> {
    seq![
        ("action"@, JsonTree::Text("close_submit"@)),
        ("underlying"@, JsonTree::Text(entry.underlying@)),
        ("strategy"@, JsonTree::Text(entry.strategy@)),
        ("order_list_id"@, JsonTree::Text(entry.order_list_id@)),
        ("close_order_list_id"@, JsonTree::Text(close_order_list_id)),
        ("close_reason"@, JsonTree::Text(close_reason)),
        ("close_attempt"@, natural(next_attempt(entry))),
        ("close_order_mode"@, JsonTree::Text(CloseOrderMode::LegacyLegOrderList.label())),
        ("close_price_cushion"@, float(close_price_cushion)),
        ("close_reprice_step"@, float(config.close_reprice_step)),
        ("max_close_price_cushion"@, float(config.max_close_price_cushion)),
        ("close_debit"@, float(close_debit)),
    ]
}

/// Returns the event of a close that goes out leg by leg.
pub fn close_submit_event(
    config: &AlpacaOptionsManagementConfig,
    entry: &StrategyStateEntry,
    close_order_list_id: &str,
    close_reason: &str,
    close_price_cushion: Amount,
    close_debit: Amount,
) -> (event: OperatorEvent)
    ensures
        is_event(
            event,
            "management_action"@,
            close_submit_fields(
                *config,
                *entry,
                close_order_list_id@,
                close_reason@,
                close_price_cushion,
                close_debit,
            ),
        ),
{
    let attempt: u64 = if entry.close_attempts < u32::MAX {
        entry.close_attempts as u64 + 1
    } else {
        u32::MAX as u64
    };
    let fields = Fields::new().text("action", "close_submit").text(
        "underlying",
        entry.underlying.as_str(),
    ).text("strategy", entry.strategy.as_str()).text(
        "order_list_id",
        entry.order_list_id.as_str(),
    ).text("close_order_list_id", close_order_list_id).text("close_reason", close_reason).natural(
        "close_attempt",
        attempt,
    ).text("close_order_mode", CloseOrderMode::LegacyLegOrderList.as_str()).float(
        "close_price_cushion",
        close_price_cushion,
    ).float("close_reprice_step", config.close_reprice_step).float(
        "max_close_price_cushion",
        config.max_close_price_cushion,
    ).float("close_debit", close_debit);
    assert(fields@ =~= close_submit_fields(
        *config,
        *entry,
        close_order_list_id@,
        close_reason@,
        close_price_cushion,
        close_debit,
    ));
    OperatorEvent { event_type: "management_action", payload: fields.into_json() }
}

/// The fields of a close that cannot go out as one spread order.
pub open spec fn vertical_required_fields(
    entry: StrategyStateEntry,
    close_order_list_id: Seq<char>,
    close_reason: Seq<char>,
) -> Seq<FieldTree> {
    head_fields("close_blocked"@, "spread_close_order_mode_requires_vertical_entry"@, entry) + seq![
        ("order_list_id"@, JsonTree::Text(entry.order_list_id@)),
        ("close_order_list_id"@, JsonTree::Text(close_order_list_id)),
        ("close_reason"@, JsonTree::Text(close_reason)),
        ("close_order_mode"@, JsonTree::Text(CloseOrderMode::OptionSpread.label())),
        ("current_broker_submit_path"@, JsonTree::Text("single_option_spread_order"@)),
        ("fallback_broker_submit_path"@, JsonTree::Text("legacy_leg_order_list"@)),
        ("submitted"@, JsonTree::Bool(false)),
    ]
}

/// Returns the event of a close that cannot go out as one spread order.
pub fn vertical_required_event(entry: &StrategyStateEntry, close_order_list_id: &str, close_reason: &str) -> (event: OperatorEvent)
    ensures
        is_event(
            event,
            "management_block"@,
            vertical_required_fields(*entry, close_order_list_id@, close_reason@),
        ),
{
    let fields = head(
        "close_blocked",
        "spread_close_order_mode_requires_vertical_entry",
        entry,
    ).text("order_list_id", entry.order_list_id.as_str()).text(
        "close_order_list_id",
        close_order_list_id,
    ).text("close_reason", close_reason).text(
        "close_order_mode",
        CloseOrderMode::OptionSpread.as_str(),
    ).text("current_broker_submit_path", "single_option_spread_order").text(
        "fallback_broker_submit_path",
        "legacy_leg_order_list",
    ).bool("submitted", false);
    assert(fields@ =~= vertical_required_fields(*entry, close_order_list_id@, close_reason@));
    block_event(fields)
}

/// The fields of a rejected close order.
pub open spec fn close_rejected_fields(reason: Seq<char>, pending: PendingCloseSubmission) -> Seq<
    FieldTree,
> {
    seq![
        ("action"@, JsonTree::Text("close_rejected"@)),
        ("reason"@, JsonTree::Text(reason)),
        ("order_list_id"@, JsonTree::Text(pending.entry_order_list_id@)),
        ("close_order_list_id"@, JsonTree::Text(pending.close_order_list_id@)),
        ("accepted"@, natural(pending.accepted as u64)),
        ("rejected"@, natural(pending.rejected as u64)),
    ]
}

/// Returns the event of a rejected close order.
pub fn close_rejected_event(reason: &str, pending: &PendingCloseSubmission) -> (event: OperatorEvent)
    ensures
        is_event(event, "management_block"@, close_rejected_fields(reason@, *pending)),
{
    let fields = Fields::new().text("action", "close_rejected").text("reason", reason).text(
        "order_list_id",
        pending.entry_order_list_id.as_str(),
    ).text("close_order_list_id", pending.close_order_list_id.as_str()).count(
        "accepted",
        pending.accepted,
    ).count("rejected", pending.rejected);
    assert(fields@ =~= close_rejected_fields(reason@, *pending));
    block_event(fields)
}

// ---------------------------------------------------------------------------------------------
// Spread drafts that fail
// ---------------------------------------------------------------------------------------------

/// The fields of an entry whose spread cannot be drafted. `dry_run_reason` is that of a draft.
pub open spec fn entry_draft_error_fields(
    reason: Seq<char>,
    dry_run_reason: Option<Seq<char>>,
    trade_date: Seq<char>,
    entry_plan: AlpacaOptionsEntryPlan,
    error: Seq<char>,
) -> Seq<FieldTree> {
    seq![("action"@, JsonTree::Text("unavailable"@)), ("reason"@, JsonTree::Text(reason))]
        + field_if(
        "dry_run_reason"@,
        match dry_run_reason {
            Some(text) => Some(JsonTree::Text(text)),
            None => None,
        },
    ) + seq![
        ("trade_date"@, JsonTree::Text(trade_date)),
        ("underlying"@, JsonTree::Text(entry_plan.underlying@)),
        ("strategy"@, JsonTree::Text(entry_plan.strategy@)),
        ("strategy_family"@, JsonTree::Text(entry_plan.family.label())),
        ("symbols"@, text_list(texts(entry_plan.symbols@))),
        ("planned_order_legs"@, plan_legs_tree(entry_plan.order_legs@)),
        ("error"@, JsonTree::Text(error)),
    ]
}

fn entry_draft_error(
    reason: &str,
    dry_run_reason: Option<&str>,
    trade_date: &str,
    entry_plan: &AlpacaOptionsEntryPlan,
    error: &str,
) -> (payload: Json)
    ensures
        payload@ == JsonTree::Object(
            entry_draft_error_fields(
                reason@,
                crate::text::opt_slice(dry_run_reason),
                trade_date@,
                *entry_plan,
                error@,
            ),
        ),
{
    let fields = Fields::new().text("action", "unavailable").text("reason", reason).text_if(
        "dry_run_reason",
        dry_run_reason,
    ).text("trade_date", trade_date).text("underlying", entry_plan.underlying.as_str()).text(
        "strategy",
        entry_plan.strategy,
    ).text("strategy_family", entry_plan.family.as_str()).texts(
        "symbols",
        &entry_plan.symbols,
    ).json("planned_order_legs", entry_plan_payload_legs(entry_plan)).text("error", error);
    assert(fields@ =~= entry_draft_error_fields(
        reason@,
        crate::text::opt_slice(dry_run_reason),
        trade_date@,
        *entry_plan,
        error@,
    ));
    fields.into_json()
}

/// Returns the event of a spread that cannot be planned.
pub fn spread_plan_error_event(trade_date: &str, entry_plan: &AlpacaOptionsEntryPlan, error: &str) -> (event: OperatorEvent)
    ensures
        is_event(
            event,
            "candidate_spread_quote"@,
            entry_draft_error_fields(
                "spread_plan_error"@,
                None,
                trade_date@,
                *entry_plan,
                error@,
            ),
        ),
{
    OperatorEvent {
        event_type: "candidate_spread_quote",
        payload: entry_draft_error("spread_plan_error", None, trade_date, entry_plan, error),
    }
}

/// Returns the event of a spread order that cannot be drafted.
pub fn spread_order_draft_error_event(
    trade_date: &str,
    entry_plan: &AlpacaOptionsEntryPlan,
    dry_run_reason: &str,
    error: &str,
) -> (event: OperatorEvent)
    ensures
        is_event(
            event,
            "entry_spread_order_draft"@,
            entry_draft_error_fields(
                "spread_order_draft_error"@,
                Some(dry_run_reason@),
                trade_date@,
                *entry_plan,
                error@,
            ),
        ),
{
    OperatorEvent {
        event_type: "entry_spread_order_draft",
        payload: entry_draft_error(
            "spread_order_draft_error",
            Some(dry_run_reason),
            trade_date,
            entry_plan,
            error,
        ),
    }
}

/// The fields of a spread close that cannot be drafted.
pub open spec fn close_draft_error_fields(
    entry: StrategyStateEntry,
    close_order_list_id: Seq<char>,
    error: Seq<char>,
    close_order_mode: CloseOrderMode,
) -> Seq<FieldTree> {
    seq![
        ("action"@, JsonTree::Text("unavailable"@)),
        ("reason"@, JsonTree::Text("spread_close_order_draft_error"@)),
        ("trade_date"@, JsonTree::Text(entry.trade_date@)),
        ("underlying"@, JsonTree::Text(entry.underlying@)),
        ("strategy"@, JsonTree::Text(entry.strategy@)),
        ("entry_order_list_id"@, JsonTree::Text(entry.order_list_id@)),
        ("draft_close_order_list_id"@, JsonTree::Text(close_order_list_id)),
        ("symbols"@, text_list(entry.leg_symbols())),
        ("error"@, JsonTree::Text(error)),
        ("current_broker_submit_path"@, JsonTree::Text(close_order_mode.label())),
        ("draft_broker_submit_path"@, JsonTree::Text("single_option_spread_order"@)),
        ("submitted"@, JsonTree::Bool(false)),
    ]
}

/// Returns the event of a spread close that cannot be drafted.
pub fn spread_close_draft_error_event(
    entry: &StrategyStateEntry,
    close_order_list_id: &str,
    error: &str,
    close_order_mode: CloseOrderMode,
) -> (event: OperatorEvent)
    ensures
        is_event(
            event,
            "close_spread_order_draft"@,
            close_draft_error_fields(*entry, close_order_list_id@, error@, close_order_mode),
        ),
{
    let fields = Fields::new().text("action", "unavailable").text(
        "reason",
        "spread_close_order_draft_error",
    ).text("trade_date", entry.trade_date.as_str()).text(
        "underlying",
        entry.underlying.as_str(),
    ).text("strategy", entry.strategy.as_str()).text(
        "entry_order_list_id",
        entry.order_list_id.as_str(),
    ).text("draft_close_order_list_id", close_order_list_id).json(
        "symbols",
        slice_list_value(&entry.symbols()),
    ).text("error", error).text("current_broker_submit_path", close_order_mode.as_str()).text(
        "draft_broker_submit_path",
        "single_option_spread_order",
    ).bool("submitted", false);
    assert(fields@ =~= close_draft_error_fields(
        *entry,
        close_order_list_id@,
        error@,
        close_order_mode,
    ));
    OperatorEvent { event_type: "close_spread_order_draft", payload: fields.into_json() }
}

// ---------------------------------------------------------------------------------------------
// Quotes and persistence
// ---------------------------------------------------------------------------------------------

/// The fields of a change of quote subscriptions. `legs` are the legs of active entries.
pub open spec fn quote_cache_fields(book: QuoteSubscriptions, legs: TextSet, limit: usize) -> Seq<
    FieldTree,
> {
    seq![
        ("active_entry_quote_symbols"@, text_list(legs@)),
        ("active_entry_spread_symbols_count"@, natural(book.active_spreads@.len() as u64)),
        ("candidate_quote_symbols_count"@, natural(book.candidate_quotes@.len() as u64)),
        ("candidate_spread_symbols_count"@, natural(book.candidate_spreads@.len() as u64)),
        ("candidate_quote_limit"@, natural(limit as u64)),
        ("active_entry_spread_symbols"@, text_list(book.active_spreads@)),
        ("candidate_quote_symbols"@, text_list(book.candidate_quotes@)),
        ("candidate_spread_symbols"@, text_list(book.candidate_spreads@)),
        ("subscribed_symbols"@, text_list(book.current@)),
        ("subscribed_count"@, natural(book.current@.len() as u64)),
    ]
}

/// Whether a set holds the legs of the active entries.
pub open spec fn holds_active_legs(legs: TextSet, state: StrategyState) -> bool {
    legs.wf() && forall|x: Seq<char>| #[trigger] legs.has(x) <==> state.has_active_symbol(x)
}

/// Returns the event of a change of quote subscriptions.
pub fn quote_cache_event(book: &QuoteSubscriptions, state: &StrategyState, limit: usize) -> (event: OperatorEvent)
    ensures
        exists|legs: TextSet|
            #![trigger holds_active_legs(legs, *state)]
            holds_active_legs(legs, *state) && is_event(
                event,
                "active_risk_quote_cache"@,
                quote_cache_fields(*book, legs, limit),
            ),
{
    let legs = state.active_symbols();
    assert(holds_active_legs(legs, *state));
    let fields = Fields::new().texts("active_entry_quote_symbols", &legs.to_texts()).count(
        "active_entry_spread_symbols_count",
        book.active_spreads.len(),
    ).count("candidate_quote_symbols_count", book.candidate_quotes.len()).count(
        "candidate_spread_symbols_count",
        book.candidate_spreads.len(),
    ).count("candidate_quote_limit", limit).texts(
        "active_entry_spread_symbols",
        &book.active_spreads.to_texts(),
    ).texts("candidate_quote_symbols", &book.candidate_quotes.to_texts()).texts(
        "candidate_spread_symbols",
        &book.candidate_spreads.to_texts(),
    ).texts("subscribed_symbols", &book.current.to_texts()).count(
        "subscribed_count",
        book.current.len(),
    );
    assert(fields@ =~= quote_cache_fields(*book, legs, limit));
    OperatorEvent { event_type: "active_risk_quote_cache", payload: fields.into_json() }
}

/// The fields of a failure to hand on a change of state.
pub open spec fn persistence_error_fields(error: Seq<char>) -> Seq<FieldTree> {
    seq![("reason"@, JsonTree::Text("enqueue_failed"@)), ("error"@, JsonTree::Text(error))]
}

/// Returns the event of a failure to hand on a change of state.
pub fn state_persistence_error_event(error: &str) -> (event: OperatorEvent)
    ensures
        is_event(event, "strategy_state_persistence_error"@, persistence_error_fields(error@)),
{
    let fields = Fields::new().text("reason", "enqueue_failed").text("error", error);
    assert(fields@ =~= persistence_error_fields(error@));
    OperatorEvent { event_type: "strategy_state_persistence_error", payload: fields.into_json() }
}

/// The fields of a ledger record that was not kept: the store is missing, or it gave an error.
pub open spec fn ledger_error_fields(
    record_type: Seq<char>,
    trade_date: Seq<char>,
    error: Option<Seq<char>>,
) -> Seq<FieldTree> {
    seq![
        (
            "reason"@,
            JsonTree::Text(
                if error is Some {
                    "append_failed"@
                } else {
                    "operational_store_not_connected"@
                },
            ),
        ),
        ("record_type"@, JsonTree::Text(record_type)),
        ("trade_date"@, JsonTree::Text(trade_date)),
    ] + field_if(
        "error"@,
        match error {
            Some(text) => Some(JsonTree::Text(text)),
            None => None,
        },
    )
}

/// Returns the event of a ledger record that was not kept.
pub fn candidate_ledger_error_event(record_type: &str, trade_date: &str, error: Option<&str>) -> (event: OperatorEvent)
    ensures
        is_event(
            event,
            "candidate_ledger_error"@,
            ledger_error_fields(record_type@, trade_date@, crate::text::opt_slice(error)),
        ),
{
    let reason = if error.is_some() {
        "append_failed"
    } else {
        "operational_store_not_connected"
    };
    let fields = Fields::new().text("reason", reason).text("record_type", record_type).text(
        "trade_date",
        trade_date,
    ).text_if("error", error);
    assert(fields@ =~= ledger_error_fields(
        record_type@,
        trade_date@,
        crate::text::opt_slice(error),
    ));
    OperatorEvent { event_type: "candidate_ledger_error", payload: fields.into_json() }
}

/// Nothing is reported or alerted on unless there was a candidate, and no decision against a
/// candidate goes unreported.
pub proof fn decisions_against_are_reported(
    trade_date: Seq<char>,
    entry_plan: AlpacaOptionsEntryPlan,
    outcome: CandidateOutcome,
    regime: Option<Json>,
    note: Option<CandidateNote>,
    order_list_id: Seq<char>,
    explanation_codes: Seq<Seq<char>>,
)
    requires
        note_is_owed(note, outcome, order_list_id, explanation_codes),
    ensures
        outcome is NoCandidate ==> note is None && outcome_fields(
            trade_date,
            entry_plan,
            outcome,
            regime,
        ) is None,
        outcome is Skipped || outcome is DryRun || outcome is Blocked ==> outcome_fields(
            trade_date,
            entry_plan,
            outcome,
            regime,
        ) is Some,
        note is None && !(outcome is NoCandidate) && !(outcome is Failed) ==> (outcome
            matches CandidateOutcome::Skipped(reason) && reason@ == "candidate_ledger_unhealthy"@),
{
}

} // verus!
