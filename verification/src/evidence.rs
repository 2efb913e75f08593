//! Operator evidence: events of the log and records of the candidate ledger.
use vstd::prelude::*;

use crate::calendar::is_recent;
use crate::calendar::recent;
use crate::calendar::UtcInstant;
use crate::json::Json;
use crate::text::opt_text;
use crate::text::same_text;
use crate::text::texts;
use crate::text_map::TextMap;
use crate::text_set::filter_step;

verus! {

/// A piece of evidence: its value and the JSON text that it was read from.
#[derive(Debug)]
pub struct Evidence {
    /// Value.
    pub value: Json,
    /// JSON text.
    pub raw: String,
}

/// Where a piece of evidence stands.
#[derive(Clone, Copy, Debug, PartialEq, Eq, Structural)]
pub enum EvidenceRef {
    /// Position among the events.
    Event(usize),
    /// Position among the candidate-ledger records.
    Record(usize),
}

/// What `serde_json` prints for the value that it reads from a JSON text; nothing for a text that it
/// does not read.
pub uninterp spec fn reprinted(text: Seq<char>) -> Option<Seq<char>>;

/// Reads a text with `serde_json::from_str` and prints the value with `serde_json::to_string`. The
/// result is named after the text: nothing when the text does not read as JSON, otherwise the value
/// without white space between its parts.
#[verifier::external_body]
fn reprint(text: &str) -> (printed: Option<String>)
    ensures
        opt_text(printed) == reprinted(text@),
{
    let value: serde_json::Value = serde_json::from_str(text).ok()?;
    serde_json::to_string(&value).ok()
}

/// The compact form of a JSON text, or a default text.
pub open spec fn compact_or(raw: Seq<char>, default: Seq<char>) -> Seq<char> {
    chars_or(reprinted(raw), default)
}

/// The compact form of a JSON text.
pub open spec fn compact_chars(raw: Seq<char>) -> Seq<char> {
    compact_or(raw, "unprintable"@)
}

/// Returns the compact form of a JSON text, or a default text.
pub fn compact_json_or(raw: &str, default: &str) -> (text: String)
    ensures
        text@ == compact_or(raw@, default@),
{
    text_or_default(&reprint(raw), default)
}

/// Returns the compact form of a JSON text.
pub fn compact_json(raw: &str) -> (text: String)
    ensures
        text@ == compact_chars(raw@),
{
    compact_json_or(raw, "unprintable")
}

// ---------------------------------------------------------------------------------------------
// Search
// ---------------------------------------------------------------------------------------------

/// The position of the last piece of evidence that passes a test.
pub open spec fn last_where(events: Seq<Evidence>, pass: spec_fn(Json) -> bool) -> Option<int>
    decreases events.len(),
{
    if events.len() == 0 {
        None
    } else if pass(events.last().value) {
        Some(events.len() - 1)
    } else {
        last_where(events.drop_last(), pass)
    }
}

/// A position that may be missing.
pub open spec fn opt_position(at: Option<usize>) -> Option<int> {
    match at {
        Some(i) => Some(i as int),
        None => None,
    }
}

/// Nothing passes behind the last position that passes.
proof fn last_where_at(events: Seq<Evidence>, pass: spec_fn(Json) -> bool, n: int)
    requires
        0 <= n <= events.len(),
        forall|k: int| n <= k < events.len() ==> !pass((#[trigger] events[k]).value),
    ensures
        last_where(events, pass) == last_where(events.take(n), pass),
    decreases events.len(),
{
    if n == events.len() {
        assert(events.take(n) =~= events);
    } else {
        assert(!pass(events[events.len() - 1].value));
        last_where_at(events.drop_last(), pass, n);
        assert(events.drop_last().take(n) =~= events.take(n));
    }
}

/// The last position that passes lies within the evidence.
pub proof fn last_where_bounds(events: Seq<Evidence>, pass: spec_fn(Json) -> bool)
    ensures
        match last_where(events, pass) {
            Some(at) => 0 <= at < events.len() && pass(events[at].value),
            None => forall|k: int| 0 <= k < events.len() ==> !pass((#[trigger] events[k]).value),
        },
    decreases events.len(),
{
    if events.len() > 0 && !pass(events.last().value) {
        last_where_bounds(events.drop_last(), pass);
        let earlier = events.drop_last();
        if last_where(events, pass) is None {
            assert forall|k: int| 0 <= k < events.len() implies !pass(
                (#[trigger] events[k]).value,
            ) by {
                if k < earlier.len() {
                    assert(!pass(earlier[k].value));
                }
            }
        }
    }
}

/// Whether a value has a type.
pub open spec fn has_type(value: Json, event_type: Seq<char>) -> bool {
    value.text_field("type"@) == Some(event_type)
}

/// Whether a value is a ledger alert of a type.
pub open spec fn is_ledger_alert(value: Json, alert_type: Seq<char>) -> bool {
    has_type(value, "candidate_alert"@) && value.text_field("alert_type"@) == Some(alert_type)
}

/// Whether a value was recorded within `lookback` seconds before `now` or later.
pub open spec fn recorded_recently(value: Json, now: UtcInstant, lookback: int) -> bool {
    match value.text_field("ts_utc"@) {
        Some(text) => is_recent(text, now, lookback),
        None => false,
    }
}

/// Whether a value has a type and was recorded recently.
pub open spec fn recent_of_type(
    value: Json,
    event_type: Seq<char>,
    now: UtcInstant,
    lookback: int,
) -> bool {
    has_type(value, event_type) && recorded_recently(value, now, lookback)
}

/// Whether a value is a recent management block for a reason.
pub open spec fn recent_block(
    value: Json,
    reason: Seq<char>,
    now: UtcInstant,
    lookback: int,
) -> bool {
    recent_of_type(value, "management_block"@, now, lookback) && value.text_field("reason"@) == Some(
        reason,
    )
}

/// Whether a value is a recent lifecycle poll with blocks.
pub open spec fn recent_lifecycle_block(value: Json, now: UtcInstant, lookback: int) -> bool {
    recent_of_type(value, "option_lifecycle_poll"@, now, lookback) && match value.list_field(
        "blocks"@,
    ) {
        Some(blocks) => blocks.len() > 0,
        None => false,
    }
}

fn was_recorded_recently(value: &Json, now: UtcInstant, lookback: i64) -> (yes: bool)
    ensures
        yes == recorded_recently(*value, now, lookback as int),
{
    match value.get_str("ts_utc") {
        Some(text) => recent(text, now, lookback),
        None => false,
    }
}

/// Returns the position of the last piece of evidence of a type.
pub fn latest_event(events: &Vec<Evidence>, event_type: &str) -> (found: Option<usize>)
    ensures
        opt_position(found) == last_where(events@, |value: Json| has_type(value, event_type@)),
{
    let ghost pass = |value: Json| has_type(value, event_type@);
    let mut i: usize = events.len();
    while i > 0
        invariant
            i <= events@.len(),
            pass == (|value: Json| has_type(value, event_type@)),
            forall|k: int|
                i <= k < events@.len() ==> !pass((#[trigger] events@[k]).value),
        decreases i,
    {
        i -= 1;
        if events[i].value.field_is("type", event_type) {
            proof {
                last_where_at(events@, pass, i + 1);
                let shown = events@.take(i + 1);
                assert(shown.last() == events@[i as int]);
            }
            return Some(i);
        }
    }
    proof {
        last_where_at(events@, pass, 0);
    }
    None
}

/// Returns the position of the last ledger record of a type.
pub fn latest_candidate_ledger_record(records: &Vec<Evidence>, record_type: &str) -> (found: Option<
    usize,
>)
    ensures
        opt_position(found) == last_where(
            records@,
            |value: Json| has_type(value, record_type@),
        ),
{
    latest_event(records, record_type)
}

/// Returns the position of the last ledger alert of a type.
pub fn latest_candidate_ledger_alert(records: &Vec<Evidence>, alert_type: &str) -> (found: Option<
    usize,
>)
    ensures
        opt_position(found) == last_where(
            records@,
            |value: Json| is_ledger_alert(value, alert_type@),
        ),
{
    let ghost pass = |value: Json| is_ledger_alert(value, alert_type@);
    let mut i: usize = records.len();
    while i > 0
        invariant
            i <= records@.len(),
            pass == (|value: Json| is_ledger_alert(value, alert_type@)),
            forall|k: int|
                i <= k < records@.len() ==> !pass((#[trigger] records@[k]).value),
        decreases i,
    {
        i -= 1;
        let value = &records[i].value;
        if value.field_is("type", "candidate_alert") && value.field_is("alert_type", alert_type) {
            proof {
                last_where_at(records@, pass, i + 1);
                let shown = records@.take(i + 1);
                assert(shown.last() == records@[i as int]);
            }
            return Some(i);
        }
    }
    proof {
        last_where_at(records@, pass, 0);
    }
    None
}

/// The events that pass a test.
pub open spec fn passing(events: Seq<Evidence>, pass: spec_fn(Json) -> bool) -> Seq<Evidence> {
    events.filter(|event: Evidence| pass(event.value))
}

/// Returns the number of recent events of a type.
pub fn recent_event_count(
    events: &Vec<Evidence>,
    event_type: &str,
    now: UtcInstant,
    lookback_secs: i64,
) -> (count: usize)
    ensures
        count == passing(
            events@,
            |value: Json| recent_of_type(value, event_type@, now, lookback_secs as int),
        ).len(),
{
    let ghost pass = |value: Json| recent_of_type(value, event_type@, now, lookback_secs as int);
    let mut count: usize = 0;
    let n: usize = events.len();
    for i in 0..n
        invariant
            n == events@.len(),
            pass == (|value: Json| recent_of_type(value, event_type@, now, lookback_secs as int)),
            count <= i,
            count == passing(events@.take(i as int), pass).len(),
    {
        proof {
            filter_step(events@, i as int, |event: Evidence| pass(event.value));
        }
        if events[i].value.field_is("type", event_type) && was_recorded_recently(
            &events[i].value,
            now,
            lookback_secs,
        ) {
            count += 1;
        }
    }
    assert(events@.take(n as int) =~= events@);
    count
}

/// Returns the position of the last recent event of a type.
pub fn latest_recent_event(
    events: &Vec<Evidence>,
    event_type: &str,
    now: UtcInstant,
    lookback_secs: i64,
) -> (found: Option<usize>)
    ensures
        opt_position(found) == last_where(
            events@,
            |value: Json| recent_of_type(value, event_type@, now, lookback_secs as int),
        ),
{
    let ghost pass = |value: Json| recent_of_type(value, event_type@, now, lookback_secs as int);
    let mut i: usize = events.len();
    while i > 0
        invariant
            i <= events@.len(),
            pass == (|value: Json| recent_of_type(value, event_type@, now, lookback_secs as int)),
            forall|k: int|
                i <= k < events@.len() ==> !pass((#[trigger] events@[k]).value),
        decreases i,
    {
        i -= 1;
        let value = &events[i].value;
        if value.field_is("type", event_type) && was_recorded_recently(value, now, lookback_secs) {
            proof {
                last_where_at(events@, pass, i + 1);
                let shown = events@.take(i + 1);
                assert(shown.last() == events@[i as int]);
            }
            return Some(i);
        }
    }
    proof {
        last_where_at(events@, pass, 0);
    }
    None
}

/// Whether an event passes a test.
pub open spec fn some_passes(events: Seq<Evidence>, pass: spec_fn(Json) -> bool) -> bool {
    exists|i: int| 0 <= i < events.len() && pass((#[trigger] events[i]).value)
}

/// Returns whether there is a recent management block for a reason.
pub fn recent_management_block_reason(
    events: &Vec<Evidence>,
    reason: &str,
    now: UtcInstant,
    lookback_secs: i64,
) -> (found: bool)
    ensures
        found == some_passes(
            events@,
            |value: Json| recent_block(value, reason@, now, lookback_secs as int),
        ),
{
    let n: usize = events.len();
    let ghost pass = |value: Json| recent_block(value, reason@, now, lookback_secs as int);
    for i in 0..n
        invariant
            n == events@.len(),
            pass == (|value: Json| recent_block(value, reason@, now, lookback_secs as int)),
            forall|k: int| 0 <= k < i ==> !pass((#[trigger] events@[k]).value),
    {
        let value = &events[i].value;
        if value.field_is("type", "management_block") && value.field_is("reason", reason)
            && was_recorded_recently(value, now, lookback_secs) {
            assert(pass(events@[i as int].value));
            return true;
        }
        assert(!pass(events@[i as int].value));
    }
    false
}

/// Returns the position of the last recent lifecycle poll with blocks.
pub fn latest_recent_lifecycle_block(
    events: &Vec<Evidence>,
    now: UtcInstant,
    lookback_secs: i64,
) -> (found: Option<usize>)
    ensures
        opt_position(found) == last_where(
            events@,
            |value: Json| recent_lifecycle_block(value, now, lookback_secs as int),
        ),
{
    let ghost pass = |value: Json| recent_lifecycle_block(value, now, lookback_secs as int);
    let mut i: usize = events.len();
    while i > 0
        invariant
            i <= events@.len(),
            pass == (|value: Json| recent_lifecycle_block(value, now, lookback_secs as int)),
            forall|k: int|
                i <= k < events@.len() ==> !pass((#[trigger] events@[k]).value),
        decreases i,
    {
        i -= 1;
        let value = &events[i].value;
        let blocked: bool = match value.get_list("blocks") {
            Some(blocks) => blocks.len() > 0,
            None => false,
        };
        if value.field_is("type", "option_lifecycle_poll") && was_recorded_recently(
            value,
            now,
            lookback_secs,
        ) && blocked {
            proof {
                last_where_at(events@, pass, i + 1);
                let shown = events@.take(i + 1);
                assert(shown.last() == events@[i as int]);
            }
            return Some(i);
        }
    }
    proof {
        last_where_at(events@, pass, 0);
    }
    None
}

// ---------------------------------------------------------------------------------------------
// Regime coverage
// ---------------------------------------------------------------------------------------------

/// What is known of the market-regime features behind the last scan.
#[derive(Debug)]
pub struct RegimeCoverageStatus {
    /// Where the features were found.
    pub source: &'static str,
    /// Underlying symbol.
    pub underlying: Option<String>,
    /// Market trade date.
    pub trade_date: Option<String>,
    /// Regime label.
    pub label: Option<String>,
    /// Routing action.
    pub routing_action: Option<String>,
    /// Whether the regime allows dry runs only.
    pub dry_run_only: Option<bool>,
    /// Freshness by feature group.
    pub feature_freshness: TextMap<String>,
    /// Unavailable features.
    pub unavailable_features: Vec<String>,
    /// Explanation codes.
    pub explanation_codes: Vec<String>,
    /// Whether underlying bars are available.
    pub has_underlying_bars: bool,
    /// Whether underlying trend and volatility are available.
    pub has_underlying_trend_vol: bool,
    /// Whether option liquidity is available.
    pub has_option_liquidity: bool,
    /// Whether event load is available.
    pub has_event_load: bool,
}

/// The status that the last of some values gives a feature group.
pub open spec fn group_status(values: Seq<Json>, group: Seq<char>) -> Option<Seq<char>>
    decreases values.len(),
{
    if values.len() == 0 {
        None
    } else if values.last().text_field("group"@) == Some(group) && values.last().text_field(
        "status"@,
    ) is Some {
        values.last().text_field("status"@)
    } else {
        group_status(values.drop_last(), group)
    }
}

/// Returns the freshness by feature group.
pub fn feature_freshness_map(values: &Vec<Json>) -> (map: TextMap<String>)
    ensures
        map.wf(),
        forall|group: Seq<char>|
            opt_text(#[trigger] map.at(group)) == group_status(values@, group),
{
    let mut map: TextMap<String> = TextMap::new();
    let n: usize = values.len();
    for i in 0..n
        invariant
            n == values@.len(),
            map.wf(),
            forall|group: Seq<char>|
                opt_text(#[trigger] map.at(group)) == group_status(values@.take(i as int), group),
    {
        let ghost before = map;
        proof {
            let next = values@.take(i + 1);
            assert(next.drop_last() =~= values@.take(i as int));
            assert(next.last() == values@[i as int]);
        }
        match (values[i].get_text("group"), values[i].get_text("status")) {
            (Some(group), Some(status)) => {
                map.insert(group, status);
            },
            _ => {},
        }
        proof {
            assert forall|group: Seq<char>|
                opt_text(#[trigger] map.at(group)) == group_status(values@.take(i + 1), group) by {
                assert(opt_text(before.at(group)) == group_status(values@.take(i as int), group));
            }
        }
    }
    assert(values@.take(n as int) =~= values@);
    map
}

/// Whether a feature status means that the feature can be used.
pub open spec fn is_usable(status: Option<Seq<char>>) -> bool {
    status == Some("fresh"@) || status == Some("degraded"@)
}

/// Returns whether a feature group can be used.
pub fn feature_available(feature_freshness: &TextMap<String>, group: &str) -> (available: bool)
    ensures
        available == is_usable(opt_text(feature_freshness.at(group@))),
{
    match feature_freshness.get(group) {
        Some(status) => same_text(status.as_str(), "fresh") || same_text(
            status.as_str(),
            "degraded",
        ),
        None => false,
    }
}

/// The strings among some values.
pub open spec fn strings_in(values: Seq<Json>) -> Seq<Seq<char>>
    decreases values.len(),
{
    if values.len() == 0 {
        Seq::empty()
    } else {
        let earlier = strings_in(values.drop_last());
        match values.last().text() {
            Some(text) => earlier.push(text),
            None => earlier,
        }
    }
}

/// Returns the strings among some values.
pub fn string_array(values: &Vec<Json>) -> (items: Vec<String>)
    ensures
        texts(items@) == strings_in(values@),
{
    let mut items: Vec<String> = Vec::new();
    let n: usize = values.len();
    assert(texts(items@) =~= strings_in(values@.take(0)));
    for i in 0..n
        invariant
            n == values@.len(),
            texts(items@) == strings_in(values@.take(i as int)),
    {
        let ghost before = items@;
        proof {
            let next = values@.take(i + 1);
            assert(next.drop_last() =~= values@.take(i as int));
            assert(next.last() == values@[i as int]);
        }
        match values[i].as_str() {
            Some(text) => {
                items.push(text.to_owned());
                assert(texts(items@) =~= texts(before).push(text@));
            },
            None => {},
        }
    }
    assert(values@.take(n as int) =~= values@);
    items
}

/// A field of a value that may be missing.
pub open spec fn field_of(value: Option<Json>, name: Seq<char>) -> Option<Json> {
    match value {
        Some(found) => found.field(name),
        None => None,
    }
}

/// A string field of a value that may be missing.
pub open spec fn text_of(value: Option<Json>, name: Seq<char>) -> Option<Seq<char>> {
    match value {
        Some(found) => found.text_field(name),
        None => None,
    }
}

/// The items of an array field, none where there is no such field.
pub open spec fn items_of(value: Option<Json>, name: Seq<char>) -> Seq<Json> {
    match value {
        Some(found) => match found.list_field(name) {
            Some(items) => items,
            None => Seq::empty(),
        },
        None => Seq::empty(),
    }
}

/// A text, or another one where it is missing.
pub open spec fn first_text(first: Option<Seq<char>>, second: Option<Seq<char>>) -> Option<
    Seq<char>,
> {
    match first {
        Some(text) => Some(text),
        None => second,
    }
}

/// The value that features are read from: the snapshot, or the context of the scan.
pub open spec fn regime_evidence(snapshot: Option<Json>, record: Option<Json>) -> Option<Json> {
    match snapshot {
        Some(value) => Some(value),
        None => field_of(record, "regime_context"@),
    }
}

/// Whether a status says what is known of the features.
pub open spec fn covers_regime(
    status: RegimeCoverageStatus,
    snapshot: Option<Json>,
    record: Option<Json>,
) -> bool {
    let context = field_of(record, "regime_context"@);
    let evidence = regime_evidence(snapshot, record);
    let groups = items_of(evidence, "feature_freshness"@);
    &&& status.source@ == if snapshot is Some {
        "operator_event"@
    } else {
        "candidate_ledger"@
    }
    &&& opt_text(status.underlying) == first_text(
        text_of(evidence, "underlying"@),
        text_of(record, "underlying"@),
    )
    &&& opt_text(status.trade_date) == first_text(
        text_of(evidence, "trade_date"@),
        text_of(record, "trade_date"@),
    )
    &&& opt_text(status.label) == text_of(context, "label"@)
    &&& opt_text(status.routing_action) == text_of(context, "routing_action"@)
    &&& status.dry_run_only == match field_of(context, "dry_run_only"@) {
        Some(Json::Bool(value)) => Some(value),
        _ => None,
    }
    &&& status.feature_freshness.wf()
    &&& forall|group: Seq<char>|
        opt_text(#[trigger] status.feature_freshness.at(group)) == group_status(groups, group)
    &&& texts(status.unavailable_features@) == strings_in(items_of(evidence, "unavailable_features"@))
    &&& texts(status.explanation_codes@) == strings_in(items_of(context, "explanation_codes"@))
    &&& status.has_underlying_bars == is_usable(group_status(groups, "underlying_bars"@))
    &&& status.has_underlying_trend_vol == is_usable(group_status(groups, "underlying_trend_vol"@))
    &&& status.has_option_liquidity == is_usable(group_status(groups, "option_liquidity"@))
    &&& status.has_event_load == is_usable(group_status(groups, "event_load"@))
}

/// A value that may be missing.
pub open spec fn opt_json(value: Option<&Json>) -> Option<Json> {
    match value {
        Some(found) => Some(*found),
        None => None,
    }
}

fn opt_field<'a>(value: Option<&'a Json>, name: &str) -> (field: Option<&'a Json>)
    ensures
        opt_json(field) == field_of(opt_json(value), name@),
{
    match value {
        Some(found) => found.get(name),
        None => None,
    }
}

fn opt_field_text(value: Option<&Json>, name: &str) -> (text: Option<String>)
    ensures
        opt_text(text) == text_of(opt_json(value), name@),
{
    match value {
        Some(found) => found.get_text(name),
        None => None,
    }
}

fn text_or(first: Option<String>, second: Option<String>) -> (text: Option<String>)
    ensures
        opt_text(text) == first_text(opt_text(first), opt_text(second)),
{
    match first {
        Some(text) => Some(text),
        None => second,
    }
}

fn opt_strings(value: Option<&Json>, name: &str) -> (items: Vec<String>)
    ensures
        texts(items@) == strings_in(items_of(opt_json(value), name@)),
{
    match value {
        Some(found) => match found.get_list(name) {
            Some(items) => return string_array(items),
            None => {},
        },
        None => {},
    }
    let items: Vec<String> = Vec::new();
    assert(texts(items@) =~= Seq::<Seq<char>>::empty());
    items
}

fn opt_freshness(value: Option<&Json>) -> (map: TextMap<String>)
    ensures
        map.wf(),
        forall|group: Seq<char>|
            opt_text(#[trigger] map.at(group)) == group_status(
                items_of(opt_json(value), "feature_freshness"@),
                group,
            ),
{
    match value {
        Some(found) => match found.get_list("feature_freshness") {
            Some(items) => return feature_freshness_map(items),
            None => {},
        },
        None => {},
    }
    let none: Vec<Json> = Vec::new();
    assert(none@ =~= Seq::<Json>::empty());
    feature_freshness_map(&none)
}

/// Returns what is known of the market-regime features, from the latest feature snapshot and the
/// record of the last scan.
pub fn regime_coverage(snapshot: Option<&Json>, record: Option<&Json>) -> (status: Option<
    RegimeCoverageStatus,
>)
    ensures
        match status {
            Some(found) => covers_regime(found, opt_json(snapshot), opt_json(record)),
            None => true,
        },
        status is Some <==> regime_evidence(opt_json(snapshot), opt_json(record)) is Some,
{
    let context = opt_field(record, "regime_context");
    let source = if snapshot.is_some() {
        "operator_event"
    } else {
        "candidate_ledger"
    };
    let evidence = if snapshot.is_some() {
        snapshot
    } else {
        context
    };
    assert(opt_json(evidence) == regime_evidence(opt_json(snapshot), opt_json(record)));
    if evidence.is_none() {
        return None;
    }
    let feature_freshness = opt_freshness(evidence);
    let dry_run_only = match opt_field(context, "dry_run_only") {
        Some(Json::Bool(value)) => Some(*value),
        _ => None,
    };
    let has_underlying_bars = feature_available(&feature_freshness, "underlying_bars");
    let has_underlying_trend_vol = feature_available(&feature_freshness, "underlying_trend_vol");
    let has_option_liquidity = feature_available(&feature_freshness, "option_liquidity");
    let has_event_load = feature_available(&feature_freshness, "event_load");
    Some(
        RegimeCoverageStatus {
            source,
            underlying: text_or(
                opt_field_text(evidence, "underlying"),
                opt_field_text(record, "underlying"),
            ),
            trade_date: text_or(
                opt_field_text(evidence, "trade_date"),
                opt_field_text(record, "trade_date"),
            ),
            label: opt_field_text(context, "label"),
            routing_action: opt_field_text(context, "routing_action"),
            dry_run_only,
            feature_freshness,
            unavailable_features: opt_strings(evidence, "unavailable_features"),
            explanation_codes: opt_strings(context, "explanation_codes"),
            has_underlying_bars,
            has_underlying_trend_vol,
            has_option_liquidity,
            has_event_load,
        },
    )
}

/// Whether a reference lies within the evidence.
pub open spec fn in_range(
    at: Option<EvidenceRef>,
    events: Seq<Evidence>,
    records: Seq<Evidence>,
) -> bool {
    match at {
        Some(EvidenceRef::Event(i)) => i < events.len(),
        Some(EvidenceRef::Record(i)) => i < records.len(),
        None => true,
    }
}

/// The value at a reference.
pub open spec fn value_at(
    at: Option<EvidenceRef>,
    events: Seq<Evidence>,
    records: Seq<Evidence>,
) -> Option<Json> {
    match at {
        Some(EvidenceRef::Event(i)) => Some(events[i as int].value),
        Some(EvidenceRef::Record(i)) => Some(records[i as int].value),
        None => None,
    }
}

/// The value of the last piece of evidence of a type.
pub open spec fn latest_value(events: Seq<Evidence>, event_type: Seq<char>) -> Option<Json> {
    match last_where(events, |value: Json| has_type(value, event_type)) {
        Some(at) => Some(events[at].value),
        None => None,
    }
}

/// The record of the last scan: the scan itself, or the latest scanner record of the ledger.
pub open spec fn scan_record(
    events: Seq<Evidence>,
    records: Seq<Evidence>,
    last_scan: Option<EvidenceRef>,
) -> Option<Json> {
    if last_scan is Some {
        value_at(last_scan, events, records)
    } else {
        latest_value(records, "scanner_result"@)
    }
}

/// Returns what is known of the market-regime features, from the latest feature snapshot among the
/// events and the last scan, or the latest scanner record of the ledger where there was no scan.
pub fn regime_coverage_status(
    events: &Vec<Evidence>,
    candidate_ledger_records: &Vec<Evidence>,
    last_scan: Option<EvidenceRef>,
) -> (status: Option<RegimeCoverageStatus>)
    requires
        in_range(last_scan, events@, candidate_ledger_records@),
    ensures
        status is Some <==> regime_evidence(
            latest_value(events@, "regime_feature_snapshot"@),
            scan_record(events@, candidate_ledger_records@, last_scan),
        ) is Some,
        match status {
            Some(found) => covers_regime(
                found,
                latest_value(events@, "regime_feature_snapshot"@),
                scan_record(events@, candidate_ledger_records@, last_scan),
            ),
            None => true,
        },
{
    let snapshot_at = latest_event(events, "regime_feature_snapshot");
    let scanned_at = latest_candidate_ledger_record(candidate_ledger_records, "scanner_result");
    proof {
        last_where_bounds(events@, |value: Json| has_type(value, "regime_feature_snapshot"@));
        last_where_bounds(
            candidate_ledger_records@,
            |value: Json| has_type(value, "scanner_result"@),
        );
    }
    let snapshot = match snapshot_at {
        Some(at) => Some(&events[at].value),
        None => None,
    };
    let record = match last_scan {
        Some(EvidenceRef::Event(at)) => Some(&events[at].value),
        Some(EvidenceRef::Record(at)) => Some(&candidate_ledger_records[at].value),
        None => match scanned_at {
            Some(at) => Some(&candidate_ledger_records[at].value),
            None => None,
        },
    };
    regime_coverage(snapshot, record)
}

// ---------------------------------------------------------------------------------------------
// The line of the regime coverage
// ---------------------------------------------------------------------------------------------

/// A text, or a default one.
pub open spec fn chars_or(value: Option<Seq<char>>, default: Seq<char>) -> Seq<char> {
    match value {
        Some(text) => text,
        None => default,
    }
}

/// Returns a text, or a default one.
pub fn text_or_default(value: &Option<String>, default: &str) -> (text: String)
    ensures
        text@ == chars_or(opt_text(*value), default@),
{
    match value {
        Some(text) => text.clone(),
        None => default.to_owned(),
    }
}

/// The groups of a freshness map, each with its status.
pub open spec fn freshness_parts(map: TextMap<String>) -> Seq<Seq<char>> {
    Seq::new(map@.len(), |i: int| map@[i].0@ + ":"@ + map@[i].1@)
}

/// The line of a regime coverage.
pub open spec fn regime_chars(status: RegimeCoverageStatus) -> Seq<char> {
    "source="@ + status.source@ + " underlying="@ + chars_or(opt_text(status.underlying), "unknown"@)
        + " trade_date="@ + chars_or(opt_text(status.trade_date), "unknown"@) + " label="@ + chars_or(
        opt_text(status.label),
        "unknown"@,
    ) + " action="@ + chars_or(opt_text(status.routing_action), "unknown"@) + " dry_run="@ + (
    match status.dry_run_only {
        Some(value) => crate::text::bool_chars(value),
        None => "unknown"@,
    }) + " features=underlying_bars:"@ + crate::text::bool_chars(status.has_underlying_bars)
        + ",underlying_trend_vol:"@ + crate::text::bool_chars(status.has_underlying_trend_vol)
        + ",option_liquidity:"@ + crate::text::bool_chars(status.has_option_liquidity)
        + ",event_load:"@ + crate::text::bool_chars(status.has_event_load) + " freshness="@
        + crate::text::joined(freshness_parts(status.feature_freshness), ","@) + " unavailable="@
        + crate::text::joined(texts(status.unavailable_features@), ","@) + " explanations="@
        + crate::text::joined(texts(status.explanation_codes@), ","@)
}

fn freshness_texts(map: &TextMap<String>) -> (parts: Vec<String>)
    ensures
        texts(parts@) == freshness_parts(*map),
{
    let mut parts: Vec<String> = Vec::new();
    let n: usize = map.len();
    for i in 0..n
        invariant
            n == map@.len(),
            parts@.len() == i,
            forall|k: int|
                0 <= k < i ==> (#[trigger] parts@[k])@ == map@[k].0@ + ":"@ + map@[k].1@,
    {
        parts.push(map.key(i).to_owned().concat(":").concat(map.value(i).as_str()));
    }
    assert(texts(parts@) =~= freshness_parts(*map));
    parts
}

/// Writes the line of a regime coverage.
pub fn regime_coverage_line(status: &RegimeCoverageStatus) -> (line: String)
    ensures
        line@ == regime_chars(*status),
{
    let dry_run = match status.dry_run_only {
        Some(value) => crate::text::bool_text(value),
        None => "unknown",
    };
    "source=".to_owned().concat(status.source).concat(" underlying=").concat(
        text_or_default(&status.underlying, "unknown").as_str(),
    ).concat(" trade_date=").concat(
        text_or_default(&status.trade_date, "unknown").as_str(),
    ).concat(" label=").concat(text_or_default(&status.label, "unknown").as_str()).concat(
        " action=",
    ).concat(text_or_default(&status.routing_action, "unknown").as_str()).concat(" dry_run=").concat(
        dry_run,
    ).concat(" features=underlying_bars:").concat(
        crate::text::bool_text(status.has_underlying_bars),
    ).concat(",underlying_trend_vol:").concat(
        crate::text::bool_text(status.has_underlying_trend_vol),
    ).concat(",option_liquidity:").concat(
        crate::text::bool_text(status.has_option_liquidity),
    ).concat(",event_load:").concat(crate::text::bool_text(status.has_event_load)).concat(
        " freshness=",
    ).concat(
        crate::text::join(&freshness_texts(&status.feature_freshness), ",").as_str(),
    ).concat(" unavailable=").concat(
        crate::text::join(&status.unavailable_features, ",").as_str(),
    ).concat(" explanations=").concat(
        crate::text::join(&status.explanation_codes, ",").as_str(),
    )
}

} // verus!
