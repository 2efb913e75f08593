//! Laws of assignment, exercise and expiration risk.
use vstd::prelude::*;

use crate::admission::BlockView;
use crate::broker::AlpacaActivity;
use crate::calendar::age_secs;
use crate::calendar::date_in;
use crate::calendar::instant_in;
use crate::calendar::midnight;
use crate::calendar::UtcInstant;
use crate::entry::SelectedOptionsEntry;
use crate::lifecycle::event_line;
use crate::lifecycle::event_of;
use crate::lifecycle::events_of;
use crate::lifecycle::expiration_block;
use crate::lifecycle::kind_of_activity;
use crate::lifecycle::lifecycle_block;
use crate::lifecycle::reports_block;
use crate::lifecycle::OptionLifecycleEvent;
use crate::lifecycle::OptionLifecycleEventKind;
use crate::lifecycle::OptionLifecycleRiskConfig;
use crate::symbol::expiration_days;
use crate::text::decimal;
use crate::text::trimmed;
use crate::text::upper;

verus! {

/// Whether an event took a position away or brought one: an assignment or an exercise.
pub open spec fn moves_positions(event: OptionLifecycleEvent) -> bool {
    event.kind == OptionLifecycleEventKind::Assignment || event.kind
        == OptionLifecycleEventKind::Exercise
}

/// Whether an event is less than a number of hours and one hour old, ahead of the clock, or without a
/// time.
pub open spec fn recent(event: OptionLifecycleEvent, hours: u64, now: UtcInstant) -> bool {
    event.occurred_at_utc matches Some(time) ==> (age_secs(now, time) matches Some(secs) ==> secs < (
    hours + 1) * 3600)
}

/// After a poll the account is blocked exactly when one of its events is an assignment or an exercise
/// and is recent or without a time.
pub proof fn assignments_and_exercises_block(
    config: OptionLifecycleRiskConfig,
    events: Seq<OptionLifecycleEvent>,
    blocks: Seq<Seq<char>>,
    now: UtcInstant,
)
    requires
        forall|line: Seq<char>|
            #[trigger] blocks.contains(line) <==> reports_block(config, events, now, line),
    ensures
        blocks.len() > 0 <==> (exists|event: OptionLifecycleEvent| #[trigger]
            events.contains(event) && moves_positions(event) && recent(
                event,
                config.activity_block_hours,
                now,
            )),
{
    if blocks.len() > 0 {
        assert(blocks.contains(blocks[0]));
        assert(reports_block(config, events, now, blocks[0]));
        let i = choose|i: int|
            0 <= i < events.len() && crate::lifecycle::event_blocks(
                config,
                #[trigger] events[i],
                now,
            ) && event_line(events[i], now) == blocks[0];
        assert(events.contains(events[i]));
        assert(moves_positions(events[i]) && recent(events[i], config.activity_block_hours, now));
    }
    if exists|event: OptionLifecycleEvent| #[trigger]
        events.contains(event) && moves_positions(event) && recent(
            event,
            config.activity_block_hours,
            now,
        ) {
        let event = choose|event: OptionLifecycleEvent| #[trigger]
            events.contains(event) && moves_positions(event) && recent(
                event,
                config.activity_block_hours,
                now,
            );
        let i = events.index_of(event);
        assert(crate::lifecycle::event_blocks(config, events[i], now));
        assert(reports_block(config, events, now, event_line(event, now)));
        assert(blocks.contains(event_line(event, now)));
    }
}

/// Each event that blocks is told with its kind, its ID, its symbol and its full hours.
pub proof fn blocking_events_are_told(
    config: OptionLifecycleRiskConfig,
    events: Seq<OptionLifecycleEvent>,
    blocks: Seq<Seq<char>>,
    now: UtcInstant,
    event: OptionLifecycleEvent,
    id: String,
    symbol: String,
    time: UtcInstant,
    secs: int,
)
    requires
        forall|line: Seq<char>|
            #[trigger] blocks.contains(line) <==> reports_block(config, events, now, line),
        events.contains(event),
        moves_positions(event),
        event.id == Some(id),
        event.symbol == Some(symbol),
        event.occurred_at_utc == Some(time),
        age_secs(now, time) == Some(secs),
        0 <= secs < (config.activity_block_hours + 1) * 3600,
    ensures
        event.kind is Assignment ==> blocks.contains(
            "assignment"@ + " activity id="@ + id@ + " symbol="@ + symbol@ + " age_hours="@ + decimal(
                (secs / 3600) as nat,
            ),
        ),
        event.kind is Exercise ==> blocks.contains(
            "exercise"@ + " activity id="@ + id@ + " symbol="@ + symbol@ + " age_hours="@ + decimal(
                (secs / 3600) as nat,
            ),
        ),
        blocks.len() > 0,
{
    let i = events.index_of(event);
    assert(crate::lifecycle::event_blocks(config, events[i], now));
    assert(reports_block(config, events, now, event_line(event, now)));
    assert(blocks.contains(event_line(event, now)));
}

/// A longer block never lets an entry in that a shorter one keeps out.
pub proof fn longer_blocks_keep_more_out(
    shorter: OptionLifecycleRiskConfig,
    longer: OptionLifecycleRiskConfig,
    events: Seq<OptionLifecycleEvent>,
    now: UtcInstant,
    line: Seq<char>,
)
    requires
        shorter.activity_block_hours <= longer.activity_block_hours,
        reports_block(shorter, events, now, line),
    ensures
        reports_block(longer, events, now, line),
{
    let i = choose|i: int|
        0 <= i < events.len() && crate::lifecycle::event_blocks(shorter, #[trigger] events[i], now)
            && event_line(events[i], now) == line;
    assert(crate::lifecycle::event_blocks(longer, events[i], now));
}

/// Whether a leg of a candidate expires within a number of days.
pub open spec fn some_leg_expires(
    selected: SelectedOptionsEntry,
    limit: i64,
    now: UtcInstant,
) -> bool {
    exists|symbol: Seq<char>| #[trigger]
        selected.symbols().contains(symbol) && (expiration_days(symbol, now.utc_day()) matches Some(
            days,
        ) && days <= limit)
}

proof fn expiring_position_tells(symbols: Seq<Seq<char>>, today: int, limit: i64)
    ensures
        ({
            let at = crate::lifecycle::expiring_position(symbols, today, limit);
            &&& 0 <= at <= symbols.len()
            &&& at < symbols.len() ==> (expiration_days(symbols[at], today) matches Some(days)
                && days <= limit)
            &&& forall|i: int|
                0 <= i < at ==> !(expiration_days(#[trigger] symbols[i], today) matches Some(days)
                    && days <= limit)
        }),
    decreases symbols.len(),
{
    if symbols.len() > 0 {
        let rest = symbols.drop_first();
        expiring_position_tells(rest, today, limit);
        let at = crate::lifecycle::expiring_position(symbols, today, limit);
        assert forall|i: int| 0 <= i < at implies !(expiration_days(
            #[trigger] symbols[i],
            today,
        ) matches Some(days) && days <= limit) by {
            if i > 0 {
                assert(rest[i - 1] == symbols[i]);
            }
        }
        if 0 < at < symbols.len() {
            assert(rest[at - 1] == symbols[at]);
        }
    }
}

/// A candidate is kept out for its expiration exactly when that is asked for and one of its legs
/// expires within the configured days; the block names the first such leg.
pub proof fn expiring_legs_block(
    config: OptionLifecycleRiskConfig,
    selected: SelectedOptionsEntry,
    now: UtcInstant,
)
    ensures
        expiration_block(config, selected, now) is Some <==> config.expiration_entry_block_days >= 0
            && some_leg_expires(selected, config.expiration_entry_block_days, now),
        expiration_block(config, selected, now) matches Some(block) ==> {
            &&& block.reason == "expiration_entry_block"@
            &&& exists|i: int|
                0 <= i < selected.symbols().len() && block.details.len() > 0 && block.details[0]
                    == "symbol="@ + (#[trigger] selected.symbols()[i]) && (expiration_days(
                    selected.symbols()[i],
                    now.utc_day(),
                ) matches Some(days) && days <= config.expiration_entry_block_days)
        },
{
    let symbols = selected.symbols();
    let limit = config.expiration_entry_block_days;
    expiring_position_tells(symbols, now.utc_day(), limit);
    let at = crate::lifecycle::expiring_position(symbols, now.utc_day(), limit);
    if at < symbols.len() {
        assert(symbols.contains(symbols[at]));
    }
    if some_leg_expires(selected, limit, now) {
        let symbol = choose|symbol: Seq<char>| #[trigger]
            symbols.contains(symbol) && (expiration_days(symbol, now.utc_day()) matches Some(days)
                && days <= limit);
        assert(symbols[symbols.index_of(symbol)] == symbol);
    }
}

/// An entry passes the lifecycle gate exactly when the account is free of blocks and none of its legs
/// is about to expire; an expiring leg is told before the account.
pub proof fn lifecycle_risk_keeps_entries_out(
    config: OptionLifecycleRiskConfig,
    account_blocks: Seq<Seq<char>>,
    selected: SelectedOptionsEntry,
    now: UtcInstant,
)
    ensures
        ({
            let block = lifecycle_block(config, account_blocks, selected, now);
            let expiring = config.expiration_entry_block_days >= 0 && some_leg_expires(
                selected,
                config.expiration_entry_block_days,
                now,
            );
            &&& block is None <==> account_blocks.len() == 0 && !expiring
            &&& expiring ==> block->0.reason == "expiration_entry_block"@
            &&& !expiring && account_blocks.len() > 0 ==> block == Some(
                BlockView {
                    reason: "account_lifecycle_event"@,
                    current: None,
                    limit: None,
                    details: account_blocks,
                },
            )
        }),
{
    expiring_legs_block(config, selected, now);
}

/// An activity is read as an assignment, an exercise or an expiration by its type, whatever the case
/// of its letters and the space around it; no other activity is an event.
pub proof fn activity_types_name_the_kind(value: Seq<char>)
    ensures
        kind_of_activity(value) == Some(OptionLifecycleEventKind::Assignment) <==> upper(
            trimmed(value),
        ) == "OPASN"@,
        kind_of_activity(value) == Some(OptionLifecycleEventKind::Exercise) <==> upper(
            trimmed(value),
        ) == "OPEXC"@,
        kind_of_activity(value) == Some(OptionLifecycleEventKind::Expiration) <==> upper(
            trimmed(value),
        ) == "OPEXP"@,
{
    reveal_strlit("OPASN");
    reveal_strlit("OPEXC");
    reveal_strlit("OPEXP");
    assert("OPASN"@[2] == 'A');
    assert("OPEXC"@[2] == 'E');
    assert("OPEXP"@[2] == 'E');
    assert("OPEXC"@[4] == 'C');
    assert("OPEXP"@[4] == 'P');
}

/// An event happened at the activity's own time, or at the start of its date where it has none that
/// can be read; its ID, symbol, date and quantity are the activity's.
pub proof fn events_keep_the_activity(activity: AlpacaActivity)
    ensures
        event_of(activity) is Some <==> (activity.activity_type matches Some(text)
            && kind_of_activity(text@) is Some),
        event_of(activity) matches Some(event) ==> {
            &&& activity.activity_type matches Some(text) && kind_of_activity(text@) == Some(
                event.kind,
            )
            &&& event.id == activity.id && event.symbol == activity.symbol && event.quantity
                == activity.qty && event.activity_date == activity.date
            &&& event.occurred_at_utc == if activity.transaction_time is Some && instant_in(
                activity.transaction_time->0@,
            ) is Some {
                instant_in(activity.transaction_time->0@)
            } else if activity.date is Some && date_in(activity.date->0@) is Some {
                Some(midnight(date_in(activity.date->0@)->0))
            } else {
                None
            }
        },
{
}

/// Every activity that is a lifecycle event is among the events, and no event comes from elsewhere.
pub proof fn every_lifecycle_activity_is_an_event(
    activities: Seq<AlpacaActivity>,
    event: OptionLifecycleEvent,
)
    ensures
        events_of(activities).contains(event) <==> (exists|activity: AlpacaActivity| #[trigger]
            activities.contains(activity) && event_of(activity) == Some(event)),
    decreases activities.len(),
{
    if activities.len() > 0 {
        let rest = activities.drop_last();
        let last = activities.last();
        every_lifecycle_activity_is_an_event(rest, event);
        assert(activities[activities.len() - 1] == last);
        assert(activities.contains(last));
        let before = events_of(rest);
        let all = events_of(activities);
        if event_of(last) is Some {
            assert(all == before.push(event_of(last)->0));
            assert(all[before.len() as int] == event_of(last)->0);
        }
        if before.contains(event) {
            let i = before.index_of(event);
            assert(all[i] == event);
            let activity = choose|activity: AlpacaActivity| #[trigger]
                rest.contains(activity) && event_of(activity) == Some(event);
            assert(activities[rest.index_of(activity)] == activity);
            assert(activities.contains(activity));
        }
        if all.contains(event) && !before.contains(event) {
            let i = all.index_of(event);
            if i < before.len() {
                assert(before[i] == event);
            }
            assert(event_of(last) == Some(event));
        }
        if exists|activity: AlpacaActivity| #[trigger]
            activities.contains(activity) && event_of(activity) == Some(event) {
            let activity = choose|activity: AlpacaActivity| #[trigger]
                activities.contains(activity) && event_of(activity) == Some(event);
            let i = activities.index_of(activity);
            if i < rest.len() {
                assert(rest[i] == activity);
                assert(rest.contains(activity));
                assert(before.contains(event));
            }
        }
    }
}

} // verus!
