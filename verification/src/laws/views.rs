//! Laws of what the operator is shown.
use vstd::prelude::*;

use super::operator::one_if;

use crate::account_strategy::CandidateOutcome;
use crate::broker::AlpacaAccount;
use crate::broker::AlpacaActivity;
use crate::broker::AlpacaOrder;
use crate::broker::AlpacaPosition;
use crate::candidate_set::task_profiles;
use crate::candidate_set::ScanTask;
use crate::evidence::covers_regime;
use crate::evidence::group_status;
use crate::evidence::recent_block;
use crate::evidence::recent_lifecycle_block;
use crate::evidence::regime_evidence;
use crate::evidence::strings_in;
use crate::evidence::Evidence;
use crate::evidence::EvidenceRef;
use crate::evidence::RegimeCoverageStatus;
use crate::json::is_alert_record;
use crate::json::Json;
use crate::orders::OptionSpreadPlan;
use crate::preview::activities_shown;
use crate::preview::order_leg_views;
use crate::preview::shown_positions;
use crate::preview::shows_order;
use crate::preview::shows_spread;
use crate::preview::sums_up;
use crate::preview::unmanaged_order_legs;
use crate::preview::unmanaged_positions;
use crate::preview::BrokerOrderRef;
use crate::preview::BrokerSymbols;
use crate::preview::LegPreviewView;
use crate::preview::SpreadReconciliationPreview;
use crate::preview::StateSpreadPreview;
use crate::profile::AlpacaOptionsStrategyProfile;
use crate::state::StrategyState;
use crate::state::StrategyStateEntry;
use crate::status::shows_account;
use crate::status::shows_entries;
use crate::status::shows_latest;
use crate::status::shows_risk;
use crate::status::shows_state;
use crate::status::AccountStatus;
use crate::status::ActiveEntryStatus;
use crate::status::LatestEvidence;
use crate::status::OperatorConfig;
use crate::status::RiskStatus;
use crate::status::StrategyStateStatus;
use crate::strategy_events::next_attempt;
use crate::strategy_events::note_is_owed;
use crate::strategy_events::with_member;
use crate::strategy_events::CandidateNote;
use crate::text::opt_text;
use crate::text::texts;
use crate::text::trimmed;
use crate::text::upper;
use crate::text_map::count_at;
use crate::text_set::TextSet;
use crate::universe_plan::shows_profile;
use crate::universe_plan::StrategyProfilePlan;

verus! {

// ---------------------------------------------------------------------------------------------
// Account and state
// ---------------------------------------------------------------------------------------------

/// Whether a text is shown as it is, and as unknown where there is none.
pub open spec fn shown_or_unknown(shown: Seq<char>, text: Option<String>) -> bool {
    match text {
        Some(found) => shown == found@,
        None => shown == "unknown"@,
    }
}

/// An account is shown with its own figures, and a mark is shown exactly when it is set.
pub proof fn accounts_are_shown_as_they_are(status: AccountStatus, account: AlpacaAccount)
    requires
        shows_account(status, account),
    ensures
        status.trading_blocked <==> account.trading_blocked == Some(true),
        status.transfers_blocked <==> account.transfers_blocked == Some(true),
        status.account_blocked <==> account.account_blocked == Some(true),
        status.trade_suspended_by_user <==> account.trade_suspended_by_user == Some(true),
        status.options_approved_level == account.options_approved_level,
        status.options_trading_level == account.options_trading_level,
        shown_or_unknown(status.status@, account.status),
        shown_or_unknown(status.currency@, account.currency),
        shown_or_unknown(status.buying_power@, account.buying_power),
        shown_or_unknown(status.options_buying_power@, account.options_buying_power),
        shown_or_unknown(status.portfolio_value@, account.portfolio_value),
        shown_or_unknown(status.cash@, account.cash),
{
}

/// One more entry is counted once, and where it belongs as an active, a closed and a canceled one.
pub proof fn entries_are_counted(
    before: StrategyStateStatus,
    after: StrategyStateStatus,
    config: OperatorConfig,
    exists_before: bool,
    exists_after: bool,
    state: StrategyState,
    larger: StrategyState,
    entry: StrategyStateEntry,
)
    requires
        shows_state(before, config, exists_before, state),
        shows_state(after, config, exists_after, larger),
        larger.entries@ == state.entries@.push(entry),
    ensures
        after.entries == before.entries + 1,
        after.active_entries == before.active_entries + one_if(
            entry.submitted && !entry.closed && !entry.canceled,
        ),
        after.closed_entries == before.closed_entries + one_if(entry.closed),
        after.canceled_entries == before.canceled_entries + one_if(entry.canceled),
        after.exists <==> config.operational_store.enabled || exists_after,
        after.path@ == config.state_path@,
        config.strategy_state_metadata matches Some(found) ==> after.db_version == Some(found.version)
            && after.db_writer_id == found.writer_id && after.db_run_id == found.run_id
            && after.db_last_event_id == found.last_event_id,
        config.strategy_state_metadata is None ==> after.db_version is None && after.db_writer_id is None
            && after.db_run_id is None && after.db_last_event_id is None,
{
    reveal(Seq::filter);
    assert(larger.entries@.drop_last() =~= state.entries@);
    assert(larger.entries@.last() == entry);
}

/// A state without entries has none of any kind.
pub proof fn empty_states_count_nothing(
    status: StrategyStateStatus,
    config: OperatorConfig,
    state_file_exists: bool,
    state: StrategyState,
)
    requires
        shows_state(status, config, state_file_exists, state),
        state.entries@.len() == 0,
    ensures
        status.entries == 0,
        status.active_entries == 0,
        status.closed_entries == 0,
        status.canceled_entries == 0,
        status.last_recorded_at_utc is None,
{
    reveal(Seq::filter);
}

/// The latest record is not before that of any entry.
pub proof fn no_entry_is_later_than_the_latest(
    status: StrategyStateStatus,
    config: OperatorConfig,
    state_file_exists: bool,
    state: StrategyState,
    i: int,
)
    requires
        shows_state(status, config, state_file_exists, state),
        0 <= i < state.entries@.len(),
        trimmed(state.entries@[i].recorded_at_utc@).len() > 0,
    ensures
        status.last_recorded_at_utc matches Some(text) && !crate::text::text_lt(
            text@,
            state.entries@[i].recorded_at_utc@,
        ),
{
    let _ = state.entries@[i].recorded_at_utc@;
}

/// One more entry is counted under its own underlying and its own sector, and nowhere else.
pub proof fn risk_is_counted_by_underlying_and_sector(
    before: RiskStatus,
    after: RiskStatus,
    config: OperatorConfig,
    state: StrategyState,
    larger: StrategyState,
    entry: StrategyStateEntry,
    open_before: int,
    open_after: int,
    name: Seq<char>,
)
    requires
        shows_risk(before, config, state, open_before),
        shows_risk(after, config, larger, open_after),
        larger.entries@ == state.entries@.push(entry),
    ensures
        ({
            let open = entry.submitted && !entry.closed && !entry.canceled;
            &&& after.active_entries == before.active_entries + one_if(open)
            &&& after.daily_submits == before.daily_submits + one_if(
                entry.submitted && !entry.canceled && entry.trade_date@ == config.trade_date@,
            )
            &&& count_at(after.active_entries_by_underlying, name) == count_at(
                before.active_entries_by_underlying,
                name,
            ) + one_if(open && entry.underlying@ == name)
            &&& count_at(after.active_entries_by_sector, name) == count_at(
                before.active_entries_by_sector,
                name,
            ) + one_if(
                open && (config.sectors.at(upper(entry.underlying@)) matches Some(sector) && sector@
                    == name),
            )
        }),
        after.open_orders == open_after,
        after.trade_date@ == config.trade_date@,
        after.max_active_entries == config.max_active_entries,
        after.max_daily_submits == config.max_daily_submits,
        after.max_open_orders == config.max_open_orders,
        after.max_active_entries_per_underlying == config.max_active_entries_per_underlying,
        after.max_active_entries_per_sector == config.max_active_entries_per_sector,
{
    reveal(Seq::filter);
    assert(larger.entries@.drop_last() =~= state.entries@);
    assert(larger.entries@.last() == entry);
    let _ = (
        after.active_entries_by_underlying.at(name),
        before.active_entries_by_underlying.at(name),
        after.active_entries_by_sector.at(name),
        before.active_entries_by_sector.at(name),
    );
}

/// Every active entry is shown, and no other.
pub proof fn active_entries_are_shown(
    before: Seq<ActiveEntryStatus>,
    after: Seq<ActiveEntryStatus>,
    entries: Seq<StrategyStateEntry>,
    entry: StrategyStateEntry,
)
    requires
        shows_entries(before, entries),
        shows_entries(after, entries.push(entry)),
    ensures
        after.len() == before.len() + one_if(entry.submitted && !entry.closed && !entry.canceled),
        entry.submitted && !entry.closed && !entry.canceled ==> after.last().underlying
            == entry.underlying && after.last().strategy == entry.strategy && texts(
            after.last().symbols@,
        ) == entry.leg_symbols(),
{
    reveal(Seq::filter);
    assert(entries.push(entry).drop_last() =~= entries);
    if after.len() > 0 {
        let _ = after[after.len() - 1];
        assert(crate::status::shows_entry(
            after[after.len() - 1],
            crate::state::active_entries(entries.push(entry))[after.len() - 1],
        ));
    }
}

// ---------------------------------------------------------------------------------------------
// Evidence
// ---------------------------------------------------------------------------------------------

/// Whether a value is of a type.
pub open spec fn typed(value: Json, kind: Seq<char>) -> bool {
    value.text_field("type"@) == Some(kind)
}

/// Whether a place is the last of a type, or there is none of that type.
pub open spec fn last_typed(at: Option<usize>, events: Seq<Evidence>, kind: Seq<char>) -> bool {
    match at {
        Some(k) => k < events.len() && typed(events[k as int].value, kind) && (forall|i: int|
            k < i < events.len() ==> !typed((#[trigger] events[i]).value, kind)),
        None => forall|i: int| 0 <= i < events.len() ==> !typed((#[trigger] events[i]).value, kind),
    }
}

/// Whether no event is of a type.
pub open spec fn none_typed(events: Seq<Evidence>, kind: Seq<char>) -> bool {
    last_typed(None, events, kind)
}

proof fn last_is_last(events: Seq<Evidence>, kind: Seq<char>)
    ensures
        match crate::status::last_of(events, kind) {
            Some(at) => 0 <= at < events.len() && typed(events[at].value, kind) && (forall|i: int|
                at < i < events.len() ==> !typed((#[trigger] events[i]).value, kind)),
            None => none_typed(events, kind),
        },
{
    super::reports::the_latest_evidence_is_the_last(
        events,
        |value: Json| crate::evidence::has_type(value, kind),
    );
    crate::evidence::last_where_bounds(
        events,
        |value: Json| crate::evidence::has_type(value, kind),
    );
}

/// The latest evidence of each kind is the last there is. A scan is looked for among the chain scans, then
/// among the ledger's results, then among the iterations, and a poll before its error.
pub proof fn the_latest_of_each_kind_is_shown(
    latest: LatestEvidence,
    events: Seq<Evidence>,
    records: Seq<Evidence>,
)
    requires
        shows_latest(latest, events, records),
    ensures
        last_typed(latest.scanner_diagnostic, events, "scanner_diagnostic"@),
        last_typed(latest.management_snapshot, events, "management_snapshot"@),
        last_typed(latest.management_block, events, "management_block"@),
        last_typed(latest.active_risk_quote_cache, events, "active_risk_quote_cache"@),
        last_typed(latest.option_market_data_stream, events, "option_market_data_stream"@),
        !none_typed(events, "option_lifecycle_poll"@) ==> last_typed(
            latest.lifecycle_event,
            events,
            "option_lifecycle_poll"@,
        ),
        none_typed(events, "option_lifecycle_poll"@) ==> last_typed(
            latest.lifecycle_event,
            events,
            "option_lifecycle_poll_error"@,
        ),
        !none_typed(events, "option_chain_candidate_scan"@) ==> (latest.scan matches Some(
            EvidenceRef::Event(k),
        ) && last_typed(Some(k), events, "option_chain_candidate_scan"@)),
        none_typed(events, "option_chain_candidate_scan"@) && !none_typed(
            records,
            "scanner_result"@,
        ) ==> (latest.scan matches Some(EvidenceRef::Record(k)) && last_typed(
            Some(k),
            records,
            "scanner_result"@,
        )),
        none_typed(events, "option_chain_candidate_scan"@) && none_typed(
            records,
            "scanner_result"@,
        ) ==> match latest.scan {
            Some(EvidenceRef::Event(k)) => last_typed(Some(k), events, "management_iteration"@),
            Some(EvidenceRef::Record(k)) => false,
            None => none_typed(events, "management_iteration"@),
        },
        !none_typed(events, "entry_decision"@) ==> (latest.decision matches Some(
            EvidenceRef::Event(k),
        ) && last_typed(Some(k), events, "entry_decision"@)),
        latest.decision matches Some(EvidenceRef::Record(k)) ==> typed(
            records[k as int].value,
            "candidate_alert"@,
        ) && records[k as int].value.text_field("alert_type"@) == Some("selected_candidate"@),
{
    last_is_last(events, "scanner_diagnostic"@);
    last_is_last(events, "management_snapshot"@);
    last_is_last(events, "management_block"@);
    last_is_last(events, "active_risk_quote_cache"@);
    last_is_last(events, "option_market_data_stream"@);
    last_is_last(events, "option_lifecycle_poll"@);
    last_is_last(events, "option_lifecycle_poll_error"@);
    last_is_last(events, "option_chain_candidate_scan"@);
    last_is_last(events, "management_iteration"@);
    last_is_last(events, "entry_decision"@);
    last_is_last(events, "decision"@);
    last_is_last(records, "scanner_result"@);
    super::reports::the_latest_evidence_is_the_last(
        records,
        |value: Json| crate::evidence::is_ledger_alert(value, "selected_candidate"@),
    );
}

/// A management block is recent of a reason exactly when it gives that reason within the lookback, and a
/// poll blocks exactly when it lists a block within it.
pub proof fn recent_blocks_give_their_reason(
    value: Json,
    reason: Seq<char>,
    now: crate::calendar::UtcInstant,
    lookback: int,
)
    ensures
        ({
            let recent = value.text_field("ts_utc"@) matches Some(text) && crate::calendar::is_recent(
                text,
                now,
                lookback,
            );
            &&& recent_block(value, reason, now, lookback) <==> typed(value, "management_block"@)
                && value.text_field("reason"@) == Some(reason) && recent
            &&& recent_lifecycle_block(value, now, lookback) <==> typed(
                value,
                "option_lifecycle_poll"@,
            ) && recent && (value.field("blocks"@) matches Some(Json::List(blocks)) && blocks@.len()
                > 0)
        }),
{
}

/// The last status of a group counts.
pub proof fn the_last_status_of_a_group_counts(values: Seq<Json>, value: Json, group: Seq<char>)
    ensures
        value.text_field("group"@) == Some(group) && value.text_field("status"@) is Some
            ==> group_status(values.push(value), group) == value.text_field("status"@),
        value.text_field("group"@) != Some(group) || value.text_field("status"@) is None
            ==> group_status(values.push(value), group) == group_status(values, group),
        group_status(Seq::empty(), group) is None,
{
    assert(values.push(value).drop_last() =~= values);
}

/// The texts of a list are kept in order and everything else is left out.
pub proof fn texts_of_a_list_are_kept(values: Seq<Json>, value: Json)
    ensures
        value matches Json::Text(text) ==> strings_in(values.push(value)) == strings_in(
            values,
        ).push(text@),
        !(value is Text) ==> strings_in(values.push(value)) == strings_in(values),
        strings_in(Seq::empty()).len() == 0,
{
    assert(values.push(value).drop_last() =~= values);
}

/// Whether a group is there: fresh, or degraded.
pub open spec fn group_is_there(values: Seq<Json>, group: Seq<char>) -> bool {
    group_status(values, group) matches Some(status) && (status == "fresh"@ || status
        == "degraded"@)
}

/// A regime is told from the snapshot, and from the scan's own context where there is none. A feature is
/// there exactly when its group is fresh or degraded.
pub proof fn regimes_are_told_from_their_evidence(
    status: RegimeCoverageStatus,
    snapshot: Option<Json>,
    record: Option<Json>,
)
    requires
        covers_regime(status, snapshot, record),
    ensures
        snapshot is Some ==> regime_evidence(snapshot, record) == snapshot && status.source@
            == "operator_event"@,
        snapshot is None ==> status.source@ == "candidate_ledger"@,
        snapshot is None && record is Some ==> regime_evidence(snapshot, record)
            == record->0.field("regime_context"@),
        snapshot matches Some(value) ==> {
            let groups = match value.list_field("feature_freshness"@) {
                Some(items) => items,
                None => Seq::empty(),
            };
            &&& status.has_underlying_bars <==> group_is_there(groups, "underlying_bars"@)
            &&& status.has_underlying_trend_vol <==> group_is_there(groups, "underlying_trend_vol"@)
            &&& status.has_option_liquidity <==> group_is_there(groups, "option_liquidity"@)
            &&& status.has_event_load <==> group_is_there(groups, "event_load"@)
            &&& value.text_field("underlying"@) is Some ==> opt_text(status.underlying)
                == value.text_field("underlying"@)
            &&& value.text_field("trade_date"@) is Some ==> opt_text(status.trade_date)
                == value.text_field("trade_date"@)
            &&& value.text_field("underlying"@) is None && record is Some ==> opt_text(
                status.underlying,
            ) == record->0.text_field("underlying"@)
        },
        record is Some ==> (record->0.field("regime_context"@) matches Some(context) ==> {
            &&& opt_text(status.label) == context.text_field("label"@)
            &&& opt_text(status.routing_action) == context.text_field("routing_action"@)
            &&& status.dry_run_only == Some(true) <==> context.field("dry_run_only"@) == Some(
                Json::Bool(true),
            )
        }),
{
}

/// An alert record names its type, severity and key, and keeps the fields of its payload.
pub proof fn alert_records_keep_their_payload(
    record: Json,
    payload: Json,
    alert_type: Seq<char>,
    severity: Seq<char>,
    alert_key: Seq<char>,
    name: Seq<char>,
)
    requires
        is_alert_record(record, payload, alert_type, severity, alert_key),
    ensures
        record.text_field("alert_type"@) == Some(alert_type),
        record.text_field("severity"@) == Some(severity),
        record.text_field("alert_key"@) == Some(alert_key),
        payload is Object && name != "alert_type"@ && name != "severity"@ && name != "alert_key"@
            ==> record.field(name) == payload.field(name),
        !(payload is Object) && name == "payload"@ && name != "alert_type"@ && name != "severity"@
            && name != "alert_key"@ ==> record.field(name) == Some(payload),
{
    let _ = record.field(name);
}

// ---------------------------------------------------------------------------------------------
// Preview
// ---------------------------------------------------------------------------------------------

/// An entry is shown exactly when it is active and has a plan, in the order of the entries.
pub proof fn active_entries_with_a_plan_are_shown(
    state: StrategyState,
    plans: Seq<Option<OptionSpreadPlan>>,
    n: nat,
    i: int,
)
    requires
        n <= state.entries@.len(),
        n <= plans.len(),
    ensures
        shown_positions(state, plans, n).contains(i) <==> 0 <= i < n && {
            let entry = state.entries@[i];
            entry.submitted && !entry.closed && !entry.canceled && plans[i] is Some
        },
        forall|a: int, b: int|
            0 <= a < b < shown_positions(state, plans, n).len() ==> shown_positions(
                state,
                plans,
                n,
            )[a] < shown_positions(state, plans, n)[b],
    decreases n,
{
    if n > 0 {
        let before = shown_positions(state, plans, (n - 1) as nat);
        let all = shown_positions(state, plans, n);
        active_entries_with_a_plan_are_shown(state, plans, (n - 1) as nat, i);
        assert forall|a: int, b: int| 0 <= a < b < all.len() implies all[a] < all[b] by {
            if b == before.len() {
                active_entries_with_a_plan_are_shown(state, plans, (n - 1) as nat, before[a]);
                assert(before.contains(before[a]));
            }
        }
        if before.contains(i) {
            assert(all[before.index_of(i)] == i);
        }
        if all.contains(i) {
            let k = all.index_of(i);
            if k < before.len() {
                assert(before[k] == i);
            }
        }
        if i == n - 1 && all.len() > before.len() {
            assert(all[before.len() as int] == i);
        }
    }
}

/// The statuses of a spread follow from what the broker holds of its legs and has on order.
pub proof fn spreads_are_shown_by_their_legs(
    shown: StateSpreadPreview,
    entry: StrategyStateEntry,
    plan: OptionSpreadPlan,
    expected: TextSet,
    broker: BrokerSymbols,
    open_orders: Seq<AlpacaOrder>,
    recent_orders: Seq<AlpacaOrder>,
    activities: Seq<AlpacaActivity>,
    symbol: Seq<char>,
)
    requires
        shows_spread(
            shown,
            entry,
            plan,
            expected,
            broker,
            open_orders,
            recent_orders,
            activities,
        ),
    ensures
        texts(shown.matched_position_symbols@).contains(symbol) <==> expected.has(symbol)
            && broker.positions.has(symbol),
        texts(shown.matched_open_order_symbols@).contains(symbol) <==> expected.has(symbol)
            && broker.open_orders.has(symbol),
        texts(shown.missing_symbols@).contains(symbol) <==> expected.has(symbol)
            && !broker.positions.has(symbol) && !broker.open_orders.has(symbol),
        shown.order_list_id == entry.order_list_id,
        shown.close_order_list_id == entry.close_order_list_id,
        shown.underlying == entry.underlying,
        shown.strategy == entry.strategy,
        shown.trade_date == entry.trade_date,
        shown.spread_instrument_id == plan.instrument_id,
        shown.spread_symbol == plan.raw_symbol,
        shown.legs@.len() == plan.legs@.len(),
        expected.has(symbol) && broker.positions.has(symbol) ==> shown.position_status@
            != "missing"@,
        expected.has(symbol) && !broker.positions.has(symbol) ==> shown.position_status@
            != "matched"@,
        expected.has(symbol) && broker.open_orders.has(symbol) ==> shown.open_order_status@
            != "missing"@,
        expected.has(symbol) && !broker.open_orders.has(symbol) ==> shown.open_order_status@
            != "matched"@,
        expected.has(symbol) && (broker.positions.has(symbol) || broker.open_orders.has(symbol))
            ==> shown.status@ != "missing"@,
        expected.has(symbol) && !broker.positions.has(symbol) && !broker.open_orders.has(symbol)
            ==> shown.status@ != "matched"@,
{
    reveal_strlit("missing");
    reveal_strlit("matched");
    reveal_strlit("partial");
    assert("missing"@[1] != "matched"@[1]);
    assert("missing"@[0] != "partial"@[0]);
    assert("matched"@[0] != "partial"@[0]);
    let kept = crate::preview::represented(expected, broker);
    super::reports::legs_are_represented_by_positions_and_orders(expected, broker, symbol);
    crate::text_set::filter_has(expected@, |item: Seq<char>| broker.positions@.contains(item), symbol);
    crate::text_set::filter_has(
        expected@,
        |item: Seq<char>| broker.open_orders@.contains(item),
        symbol,
    );
    crate::text_set::filter_has(expected@, |item: Seq<char>| !kept.contains(item), symbol);
    filters_drop_what_fails(
        expected@,
        |item: Seq<char>| broker.positions@.contains(item),
        symbol,
    );
    filters_drop_what_fails(
        expected@,
        |item: Seq<char>| broker.open_orders@.contains(item),
        symbol,
    );
    filters_drop_what_fails(
        expected@,
        |s: Seq<char>| broker.positions.has(s) || broker.open_orders.has(s),
        symbol,
    );
}

proof fn filters_drop_what_fails(
    items: Seq<Seq<char>>,
    pass: spec_fn(Seq<char>) -> bool,
    item: Seq<char>,
)
    ensures
        items.filter(pass).len() <= items.len(),
        items.contains(item) && !pass(item) ==> items.filter(pass).len() < items.len(),
        items.contains(item) && pass(item) ==> items.filter(pass).len() > 0,
    decreases items.len(),
{
    reveal(Seq::filter);
    if items.len() > 0 {
        let rest = items.drop_last();
        filters_drop_what_fails(rest, pass, item);
        if items.contains(item) {
            let k = items.index_of(item);
            if k < rest.len() {
                assert(rest[k] == item);
            }
        }
    }
}

/// An order is shown under its own name, and as matched exactly when it covers the spread.
pub proof fn orders_are_shown_as_they_are(
    shown: BrokerOrderRef,
    order: AlpacaOrder,
    source: Seq<char>,
    expected: TextSet,
)
    requires
        shows_order(shown, order, source, expected),
    ensures
        shown.id == order.id,
        shown.client_order_id == order.client_order_id,
        shown.status == order.status,
        shown.order_class == order.order_class,
        shown.source@ == source,
        shown.mapping@ == "matched"@ <==> forall|x: Seq<char>|
            #[trigger] crate::preview::names_option(order, x) <==> expected.has(x),
        forall|x: Seq<char>|
            #[trigger] texts(shown.symbols@).contains(x) <==> crate::preview::names_option(order, x),
{
    reveal_strlit("matched");
    reveal_strlit("partial");
    assert("matched"@[0] != "partial"@[0]);
}

/// The summary counts every spread, order and leg once.
pub proof fn previews_are_summed_up(
    before: SpreadReconciliationPreview,
    after: SpreadReconciliationPreview,
    positions: Seq<AlpacaPosition>,
    orders: Seq<AlpacaOrder>,
    spread: StateSpreadPreview,
    position: AlpacaPosition,
    order: AlpacaOrder,
)
    requires
        sums_up(before, positions, orders),
        sums_up(after, positions.push(position), orders.push(order)),
        after.state_spreads@ == before.state_spreads@.push(spread),
    ensures
        after.summary.state_spreads == before.summary.state_spreads + 1,
        after.summary.matched_spreads == before.summary.matched_spreads + one_if(
            spread.status@ == "matched"@,
        ),
        after.summary.partial_spreads == before.summary.partial_spreads + one_if(
            spread.status@ == "partial"@,
        ),
        after.summary.missing_spreads == before.summary.missing_spreads + one_if(
            spread.status@ == "missing"@,
        ),
        after.summary.broker_mleg_orders == before.summary.broker_mleg_orders + one_if(
            opt_text(order.order_class) == Some("mleg"@),
        ),
        after.summary.broker_position_legs == before.summary.broker_position_legs + one_if(
            opt_text(position.asset_class) == Some("us_option"@) && (position.symbol matches Some(
                text,
            ) && trimmed(text@).len() > 0),
        ),
        after.summary.unmanaged_extra_legs == after.unmanaged_extra_legs@.len(),
        after.summary.unknown_parent_leg_mappings == after.unknown_parent_leg_mappings@.len(),
{
    reveal(Seq::filter);
    assert(after.state_spreads@.drop_last() =~= before.state_spreads@);
    assert(positions.push(position).drop_last() =~= positions);
    assert(orders.push(order).drop_last() =~= orders);
    super::reports::option_positions_have_a_symbol(position);
}

/// A position is extra exactly when it has a symbol that no spread manages.
pub proof fn positions_outside_the_spreads_are_extra(
    positions: Seq<AlpacaPosition>,
    position: AlpacaPosition,
    managed: TextSet,
)
    ensures
        ({
            let before = unmanaged_positions(positions, managed);
            let after = unmanaged_positions(positions.push(position), managed);
            let extra = position.symbol matches Some(text) && trimmed(text@).len() > 0
                && !managed.has(trimmed(text@));
            &&& !extra ==> after == before
            &&& extra ==> {
                &&& after.len() == before.len() + 1
                &&& after.take(before.len() as int) == before
                &&& after.last().symbol == trimmed(position.symbol->0@)
                &&& after.last().qty == opt_text(position.qty)
                &&& after.last().side == opt_text(position.side)
                &&& after.last().source == "position"@
            }
        }),
{
    assert(positions.push(position).drop_last() =~= positions);
    let before = unmanaged_positions(positions, managed);
    let after = unmanaged_positions(positions.push(position), managed);
    if after.len() > before.len() {
        assert(after.take(before.len() as int) =~= before);
    }
}

/// The legs of open orders are extra exactly when no spread manages their symbol.
pub proof fn order_legs_outside_the_spreads_are_extra(
    orders: Seq<AlpacaOrder>,
    managed: TextSet,
    leg: LegPreviewView,
)
    ensures
        unmanaged_order_legs(orders, managed).contains(leg) <==> !managed.has(leg.symbol)
            && exists|i: int|
            0 <= i < orders.len() && #[trigger] order_leg_views(orders[i]).contains(leg),
    decreases orders.len(),
{
    if orders.len() > 0 {
        let rest = orders.drop_last();
        order_legs_outside_the_spreads_are_extra(rest, managed, leg);
        let before = unmanaged_order_legs(rest, managed);
        let legs = order_leg_views(orders.last());
        let kept = legs.filter(|leg: LegPreviewView| !managed.has(leg.symbol));
        let all = unmanaged_order_legs(orders, managed);
        assert(all == before + kept);
        crate::text_set::filter_has(legs, |leg: LegPreviewView| !managed.has(leg.symbol), leg);
        if before.contains(leg) {
            assert(all[before.index_of(leg)] == leg);
            let i = choose|i: int|
                0 <= i < rest.len() && #[trigger] order_leg_views(rest[i]).contains(leg);
            assert(order_leg_views(orders[i]).contains(leg));
        }
        if kept.contains(leg) {
            assert(all[before.len() + kept.index_of(leg)] == leg);
            assert(order_leg_views(orders[orders.len() - 1]).contains(leg));
        }
        if all.contains(leg) {
            let k = all.index_of(leg);
            if k < before.len() {
                assert(before[k] == leg);
            } else {
                assert(kept[k - before.len()] == leg);
            }
        }
        if exists|i: int| 0 <= i < orders.len() && #[trigger] order_leg_views(orders[i]).contains(leg) {
            let i = choose|i: int|
                0 <= i < orders.len() && #[trigger] order_leg_views(orders[i]).contains(leg);
            if i < rest.len() {
                assert(order_leg_views(rest[i]).contains(leg));
            }
        }
    }
}

/// An activity on a leg is shown with its own figures, and others are not shown.
pub proof fn activities_on_the_legs_are_shown(
    activities: Seq<AlpacaActivity>,
    activity: AlpacaActivity,
    expected: TextSet,
)
    ensures
        ({
            let before = activities_shown(activities, expected);
            let after = activities_shown(activities.push(activity), expected);
            let on_leg = activity.symbol matches Some(symbol) && expected.has(symbol@);
            &&& !on_leg ==> after == before
            &&& on_leg ==> {
                &&& after.len() == before.len() + 1
                &&& after.last().id == activity.id
                &&& after.last().order_id == activity.order_id
                &&& after.last().symbol == activity.symbol
                &&& after.last().side == activity.side
                &&& after.last().qty == activity.qty
                &&& after.last().price == activity.price
                &&& after.last().activity_type == activity.activity_type
                &&& after.last().transaction_time == activity.transaction_time
            }
        }),
{
    reveal(Seq::filter);
    assert(activities.push(activity).drop_last() =~= activities);
    assert(activities.push(activity).last() == activity);
}

// ---------------------------------------------------------------------------------------------
// Notes and profiles
// ---------------------------------------------------------------------------------------------

/// Every decision on a candidate leaves a note with its reason, except where the ledger itself is
/// unhealthy, there was no candidate or drafting failed.
pub proof fn decisions_leave_a_note(
    note: Option<CandidateNote>,
    outcome: CandidateOutcome,
    order_list_id: Seq<char>,
    codes: Seq<Seq<char>>,
)
    requires
        note_is_owed(note, outcome, order_list_id, codes),
    ensures
        note is None <==> {
            ||| outcome is NoCandidate
            ||| outcome is Failed
            ||| outcome matches CandidateOutcome::Skipped(reason) && reason@
                == "candidate_ledger_unhealthy"@
        },
        outcome is Submit ==> note is Some && note->0.action@ == "submitted"@ && opt_text(
            note->0.order_list_id,
        ) == Some(order_list_id),
        outcome matches CandidateOutcome::DryRun(reason) ==> note is Some && note->0.action@
            == "dry_run"@ && opt_text(note->0.reason) == Some(reason@),
        outcome matches CandidateOutcome::Blocked(block) ==> note is Some && note->0.action@
            == "selected_but_blocked"@ && opt_text(note->0.reason) == Some(block.reason@)
            && note->0.current == block.current && note->0.limit == block.limit && texts(
            note->0.details@,
        ) == texts(block.details@),
        outcome matches CandidateOutcome::Skipped(reason) ==> (note matches Some(found) ==> found.action@
            == "skipped"@ && opt_text(found.reason) == Some(reason@)),
        !(outcome is Submit) ==> (note matches Some(found) ==> found.order_list_id is None),
{
}

/// The next attempt follows those that were made, and never overflows.
pub proof fn attempts_are_numbered_on(entry: StrategyStateEntry)
    ensures
        next_attempt(entry) == entry.close_attempts + 1 || entry.close_attempts == u32::MAX
            && next_attempt(entry) == u32::MAX,
{
}

/// A member is added where there is a value, and all others are kept.
pub proof fn members_are_added_where_there_is_a_value(
    members: Map<Seq<char>, crate::json::JsonTree>,
    name: Seq<char>,
    other: Seq<char>,
    value: Option<crate::json::JsonTree>,
)
    ensures
        value is None ==> with_member(members, name, value) == members,
        value matches Some(found) ==> with_member(members, name, value).contains_pair(name, found),
        other != name ==> (with_member(members, name, value).dom().contains(other)
            <==> members.dom().contains(other)) && with_member(members, name, value)[other]
            == members[other],
{
}

/// A profile is shown with its own universe, and scanned under its own name, mode, quantity and limits.
pub proof fn profiles_are_shown_as_they_are(
    plan: StrategyProfilePlan,
    profile: AlpacaOptionsStrategyProfile,
    profiles: Seq<AlpacaOptionsStrategyProfile>,
    tasks: Seq<ScanTask>,
    k: int,
)
    requires
        shows_profile(plan, profile),
        0 <= k < tasks.len(),
        tasks[k].profile < profiles.len(),
    ensures
        plan.id@ == profile.id@,
        plan.quantity == profile.quantity,
        plan.risk == profile.risk,
        plan.mode@ == profile.mode.label(),
        plan.family@ == profile.family.label(),
        texts(plan.universe_groups@) == texts(profile.universe_groups@),
        texts(plan.include_underlyings@) == texts(profile.include_underlyings@),
        texts(plan.exclude_underlyings@) == texts(profile.exclude_underlyings@),
        texts(plan.resolved_underlyings@) == texts(profile.underlyings@),
        plan.resolved_underlying_count == plan.resolved_underlyings@.len(),
        task_profiles(profiles, tasks).len() == tasks.len(),
        ({
            let scanned = task_profiles(profiles, tasks)[k];
            let own = profiles[tasks[k].profile as int];
            &&& scanned.id == own.id
            &&& scanned.family == own.family
            &&& scanned.mode == own.mode
            &&& scanned.quantity == own.quantity
            &&& scanned.risk == own.risk
        }),
{
    assert(texts(plan.resolved_underlyings@).len() == plan.resolved_underlyings@.len());
    assert(texts(profile.underlyings@).len() == profile.underlyings@.len());
}

/// Every leg of an order is looked at: the order itself where it names an option, and each of its legs.
pub proof fn orders_are_looked_at_with_their_legs(order: AlpacaOrder, leg: LegPreviewView)
    ensures
        order_leg_views(order).contains(leg) <==> crate::preview::own_leg(order).contains(leg) || (
        order.legs matches Some(legs) && exists|i: int|
            0 <= i < legs@.len() && #[trigger] order_leg_views(legs@[i]).contains(leg)),
        ({
            let own = crate::preview::own_leg(order);
            let names_itself = opt_text(order.asset_class) == Some("us_option"@) && (
            order.symbol matches Some(text) && trimmed(text@).len() > 0);
            &&& own.len() == one_if(names_itself)
            &&& own.len() == 1 ==> {
                &&& own[0].symbol == trimmed(order.symbol->0@)
                &&& own[0].source == "open_order"@
                &&& own[0].qty == opt_text(order.qty)
                &&& own[0].side == opt_text(order.side)
                &&& own[0].order_id == opt_text(order.id)
                &&& own[0].client_order_id == opt_text(order.client_order_id)
                &&& own[0].status == opt_text(order.status)
            }
        }),
{
    let own = crate::preview::own_leg(order);
    let nested = match order.legs {
        Some(legs) => crate::preview::nested_leg_views(legs@, legs@.len()),
        None => Seq::empty(),
    };
    let all = order_leg_views(order);
    assert(all == nested + own);
    if order.legs is Some {
        legs_are_looked_at(order.legs->0@, order.legs->0@.len(), leg);
    }
    parts_hold(nested, own, leg);
}

proof fn parts_hold(a: Seq<LegPreviewView>, b: Seq<LegPreviewView>, leg: LegPreviewView)
    ensures
        (a + b).contains(leg) <==> a.contains(leg) || b.contains(leg),
{
    if a.contains(leg) {
        assert((a + b)[a.index_of(leg)] == leg);
    }
    if b.contains(leg) {
        assert((a + b)[a.len() + b.index_of(leg)] == leg);
    }
    if (a + b).contains(leg) {
        let k = (a + b).index_of(leg);
        if k < a.len() {
            assert(a[k] == leg);
        } else {
            assert(b[k - a.len()] == leg);
        }
    }
}

proof fn legs_are_looked_at(legs: Seq<AlpacaOrder>, n: nat, leg: LegPreviewView)
    requires
        n <= legs.len(),
    ensures
        crate::preview::nested_leg_views(legs, n).contains(leg) <==> exists|i: int|
            0 <= i < n && #[trigger] order_leg_views(legs[i]).contains(leg),
    decreases n,
{
    if n > 0 {
        legs_are_looked_at(legs, (n - 1) as nat, leg);
        let before = crate::preview::nested_leg_views(legs, (n - 1) as nat);
        parts_hold(before, order_leg_views(legs[n - 1]), leg);
    }
}

/// The legs of several orders are counted together.
pub proof fn legs_are_counted_together(orders: Seq<AlpacaOrder>, order: AlpacaOrder)
    ensures
        crate::status::leg_total(Seq::empty()) == 0,
        crate::status::leg_total(orders.push(order)) == crate::status::leg_total(orders) + (
        match order.legs {
            Some(legs) => legs@.len(),
            None => 0,
        }),
{
    assert(orders.push(order).drop_last() =~= orders);
}

/// A service is shown as it is configured and as the host finds it.
pub proof fn services_are_shown_as_they_are(
    service: crate::status::ServiceStatus,
    config: OperatorConfig,
    host: crate::status::HostFacts,
)
    requires
        crate::status::shows_service(service, config, host),
    ensures
        service.name@ == config.service_name@,
        service.fleet_account_id == config.fleet_account_id,
        service.active == host.service_active,
        service.active_state == host.service_active_state,
        service.lock_file@ == config.lock_path@,
        service.lock_file_exists == host.lock_file_exists,
        service.log_file@ == config.log_path@,
        service.log_file_exists == host.log_file_exists,
        service.open_orders_enabled == config.open_orders_enabled,
        service.close_orders_enabled == config.close_orders_enabled,
        service.close_order_mode@ == config.close_order_mode@,
        texts(service.dry_run_families@) == texts(config.dry_run_families@),
{
}

/// An order that fits no spread is shown under its own name, with the reason and the spreads in question.
pub proof fn unclear_orders_are_shown_as_they_are(
    shown: crate::preview::BrokerOrderMappingPreview,
    order: AlpacaOrder,
    spreads: Seq<crate::preview::ExpectedSpread>,
)
    requires
        crate::preview::shows_mapping(shown, order, spreads),
    ensures
        shown.id == order.id,
        shown.client_order_id == order.client_order_id,
        shown.status == order.status,
        shown.order_class == order.order_class,
        crate::preview::unknown_mapping(order, spreads) is Some,
        (crate::preview::unknown_mapping(order, spreads)->0).0 == shown.reason@,
        (crate::preview::unknown_mapping(order, spreads)->0).1 == texts(
            shown.candidate_order_list_ids@,
        ),
        forall|x: Seq<char>|
            #[trigger] texts(shown.symbols@).contains(x) <==> crate::preview::names_option(order, x),
{
}

/// The symbols of a preview are those of the positions, the open orders and the activities, and the
/// managed ones are the legs of the plans of the entries that are shown.
pub proof fn previews_follow_from_what_is_there(
    preview: SpreadReconciliationPreview,
    state: StrategyState,
    plans: Seq<Option<OptionSpreadPlan>>,
    positions: Seq<AlpacaPosition>,
    open_orders: Seq<AlpacaOrder>,
    recent_orders: Seq<AlpacaOrder>,
    activities: Seq<AlpacaActivity>,
    spreads: Seq<crate::preview::ExpectedSpread>,
    managed: TextSet,
    broker: BrokerSymbols,
    k: int,
    symbol: Seq<char>,
)
    requires
        crate::preview::shows_everything(
            preview,
            state,
            plans,
            positions,
            open_orders,
            recent_orders,
            activities,
            spreads,
            managed,
            broker,
        ),
        0 <= k < preview.state_spreads@.len(),
    ensures
        ({
            let at = shown_positions(state, plans, state.entries@.len());
            &&& preview.state_spreads@.len() == at.len() == spreads.len()
            &&& preview.state_spreads@[k].order_list_id@ == state.entries@[at[k]].order_list_id@
            &&& spreads[k].order_list_id@ == state.entries@[at[k]].order_list_id@
            &&& spreads[k].symbols.has(symbol) <==> exists|i: int|
                0 <= i < plans[at[k]]->0.legs@.len() && (
                #[trigger] plans[at[k]]->0.legs@[i]).symbol@ == symbol
        }),
        spreads[k].symbols.has(symbol) ==> managed.has(symbol),
        broker.open_orders.has(symbol) <==> exists|i: int|
            0 <= i < open_orders.len() && crate::preview::names_option(
                #[trigger] open_orders[i],
                symbol,
            ),
        broker.positions.has(symbol) <==> exists|i: int|
            0 <= i < positions.len() && crate::preview::option_position(#[trigger] positions[i])
                == Some(symbol),
{
    let at = shown_positions(state, plans, state.entries@.len());
    assert(shows_spread(
        preview.state_spreads@[k],
        state.entries@[at[k]],
        plans[at[k]]->0,
        spreads[k].symbols,
        broker,
        open_orders,
        recent_orders,
        activities,
    ));
    let _ = spreads[k].symbols.has(symbol);
    let _ = managed.has(symbol);
}

/// Scans are grouped under every name that one of them has, and under no other; each group counts its own
/// scans.
pub proof fn groups_count_their_own_scans(
    groups: crate::text_map::TextMap<crate::scanner_report::ScannerAggregate>,
    items: Seq<crate::scanner_report::ScanItem>,
    key: Seq<char>,
    name: Seq<char>,
)
    requires
        crate::scanner_report::grouped(groups, items, key),
    ensures
        ({
            let own = crate::scanner_report::scans_named(items, key, name);
            &&& groups.at(name) is Some <==> own.len() > 0
            &&& groups.at(name) matches Some(group) ==> {
                &&& group.tally.scans == own.len()
                &&& group.tally.candidate_scans + group.tally.no_candidate_scans == own.len()
                &&& group.tally.candidate_count == crate::scanner_report::number_total(
                    own,
                    "candidate_count"@,
                )
                &&& group.tally.scoreable_count == crate::scanner_report::number_total(
                    own,
                    "scoreable"@,
                )
                &&& group.tally.contract_count == crate::scanner_report::number_total(
                    own,
                    "contracts"@,
                )
                &&& group.tally.snapshot_count == crate::scanner_report::number_total(
                    own,
                    "snapshots"@,
                )
                &&& forall|x: Seq<char>|
                    #[trigger] group.underlyings.has(x) <==> crate::scanner_report::names_in(
                        own,
                        "underlying"@,
                    ).contains(x)
                &&& forall|x: Seq<char>|
                    #[trigger] group.profiles.has(x) <==> crate::scanner_report::names_in(
                        own,
                        "profile_id"@,
                    ).contains(x)
            }
        }),
{
    let own = crate::scanner_report::scans_named(items, key, name);
    crate::scanner_report::scans_split_by_outcome(own);
    let _ = groups.at(name);
}

/// A store is shown with what it holds, and without one nothing is known of its migrations.
pub proof fn stores_are_shown_as_they_are(
    status: crate::status::OperationalStoreStatus,
    store: Option<crate::operator_config::StoreFacts>,
    schema: Seq<char>,
)
    requires
        crate::operator_config::store_status(status, store, schema),
    ensures
        status.enabled <==> store is Some,
        store matches Some(facts) ==> status.schema@ == facts.schema@ && status.applied_migrations
            == Some(facts.applied_count) && status.latest_migration_version == facts.latest_version
            && status.dirty_migration_version == facts.dirty_version,
        store is None ==> status.schema@ == schema && status.applied_migrations is None
            && status.latest_migration_version is None && status.dirty_migration_version is None,
{
}

/// A scan is of the day of its slice, and of today where the slice has no real time.
pub proof fn scans_are_of_the_day_of_their_slice(
    date: crate::calendar::CalendarDate,
    ts_event: u64,
    now: crate::calendar::UtcInstant,
)
    requires
        crate::scan_actor::is_scan_date(date, ts_event, now),
    ensures
        exists|slice: crate::calendar::CalendarDate|
            #![trigger slice.valid()]
            slice.valid() && slice.day_number() == ts_event as int / 86_400_000_000_000 + 719_163
                && (slice.year >= 2000 ==> date == slice) && (slice.year < 2000
                ==> date.day_number() == now.utc_day()),
{
}

/// The record of a scan is the scan that is shown, and the ledger's last result where none is.
pub proof fn scan_records_are_those_shown(
    events: Seq<Evidence>,
    records: Seq<Evidence>,
    scan: Option<EvidenceRef>,
)
    ensures
        scan matches Some(EvidenceRef::Event(i)) ==> crate::evidence::scan_record(
            events,
            records,
            scan,
        ) == Some(events[i as int].value),
        scan matches Some(EvidenceRef::Record(i)) ==> crate::evidence::scan_record(
            events,
            records,
            scan,
        ) == Some(records[i as int].value),
        scan is None ==> (crate::evidence::scan_record(events, records, scan) is None <==> none_typed(
            records,
            "scanner_result"@,
        )),
        scan is None ==> (crate::evidence::scan_record(events, records, scan) matches Some(value)
            ==> typed(value, "scanner_result"@)),
{
    super::reports::the_latest_evidence_is_the_last(
        records,
        |value: Json| crate::evidence::has_type(value, "scanner_result"@),
    );
}

/// Following a close changes something unless it is left to work.
pub proof fn settled_closes_change_something(step: crate::engine::CloseOrderStep)
    ensures
        crate::engine::close_step_changes(step) <==> step is Filled || step is StaleCancel
            || step is Terminal || step is Missing,
{
}

/// A candidate is described by its own strategy, contracts, score and premium.
pub proof fn descriptors_tell_of_their_candidate(
    descriptor: crate::entry::OptionEntryDescriptor,
    entry: crate::entry::SelectedOptionsEntry,
)
    requires
        descriptor.describes(entry),
    ensures
        descriptor.strategy@ == entry.strategy(),
        descriptor.underlying@ == entry.underlying_chars(),
        descriptor.candidate_type@ == entry.candidate_type(),
        texts(descriptor.symbols@) == entry.symbols(),
        descriptor.score == entry.score_amount(),
        descriptor.premium_kind == entry.premium_kind(),
        descriptor.premium == entry.premium_amount(),
{
}

/// A side of a chain is reported with the number of its contracts and snapshots, and its rejections are
/// those of scoring and building together.
pub proof fn sides_are_reported_as_they_are(
    result: crate::candidate_set::ScanResult,
    underlying: Seq<char>,
    side: crate::chain::OptionChainCandidateSide,
    scored: crate::chain::ScoredSide,
    reason: Seq<char>,
    key: Seq<char>,
)
    requires
        crate::chain::reports_side(result, underlying, side, scored, reason),
    ensures
        result.underlying@ == underlying,
        result.contract_count == side.contracts@.len(),
        result.snapshot_count == side.snapshots@.len(),
        result.scoreable_count == scored.scoreable_count,
        result.candidates == scored.candidates,
        result.no_candidate_reason@ == reason,
        count_at(result.rejection_counts, key) == count_at(scored.scoring_rejections, key)
            + count_at(scored.build_rejections, key),
{
    let _ = count_at(result.rejection_counts, key);
}

/// A client order is one of a close exactly when its list, pending or cached, is the close of an entry.
pub proof fn client_orders_of_closes_are_known(
    strategy: crate::account_strategy::AlpacaOptionsAccountStrategy,
    client_order_id: Seq<char>,
    cached: Option<Seq<char>>,
)
    ensures
        ({
            let pending = strategy.pending_closes.client_order_ids.at(client_order_id);
            let list = if pending is Some {
                Some(pending->0@)
            } else {
                cached
            };
            let found = strategy.close_list_of(client_order_id, cached);
            &&& found is Some ==> found == list
            &&& found is Some <==> list is Some && exists|i: int|
                0 <= i < strategy.state.entries@.len() && opt_text(
                    (#[trigger] strategy.state.entries@[i]).close_order_list_id,
                ) == list
        }),
{
    let pending = strategy.pending_closes.client_order_ids.at(client_order_id);
    let list = if pending is Some {
        Some(pending->0@)
    } else {
        cached
    };
    if list is Some {
        let entries = strategy.state.entries@;
        super::state::closes_are_found_by_their_list(entries, list->0);
        let at = crate::state::close_position(entries, list->0);
        if at < entries.len() {
            assert(opt_text(entries[at].close_order_list_id) == list);
        }
    }
}

} // verus!
