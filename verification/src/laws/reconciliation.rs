//! Laws of reconciling entries with the broker.
use vstd::prelude::*;

use crate::reconciliation::action_for;
use crate::reconciliation::present;
use crate::reconciliation::reconciled;
use crate::reconciliation::repairs;
use crate::state::StrategyStateEntry;
use crate::text_set::filter_has;
use crate::text_set::without;
use crate::text_set::TextSet;

verus! {

/// Whether some leg of an entry is in a set of symbols.
pub open spec fn some_leg_in(entry: StrategyStateEntry, symbols: TextSet) -> bool {
    exists|leg: Seq<char>| #[trigger] entry.leg_symbols().contains(leg) && symbols.has(leg)
}

/// Whether some leg of an entry is not in a set of symbols.
pub open spec fn some_leg_outside(entry: StrategyStateEntry, symbols: TextSet) -> bool {
    exists|leg: Seq<char>| #[trigger] entry.leg_symbols().contains(leg) && !symbols.has(leg)
}

/// Whether the status of the opening orders says that they ended without a fill.
pub open spec fn ended_unfilled(status: Option<Seq<char>>) -> bool {
    status matches Some(text) && (text == "canceled"@ || text == "expired"@ || text == "rejected"@)
}

proof fn counts_tell(legs: Seq<Seq<char>>, set: TextSet)
    ensures
        present(legs, set).len() <= legs.len(),
        present(legs, set).len() == 0 <==> (forall|leg: Seq<char>|
            #[trigger] legs.contains(leg) ==> !set.has(leg)),
        present(legs, set).len() == legs.len() <==> (forall|leg: Seq<char>|
            #[trigger] legs.contains(leg) ==> set.has(leg)),
    decreases legs.len(),
{
    reveal(Seq::filter);
    if legs.len() > 0 {
        let rest = legs.drop_last();
        let last = legs.last();
        counts_tell(rest, set);
        assert(legs.contains(last)) by {
            assert(legs[legs.len() - 1] == last);
        }
        assert forall|leg: Seq<char>| rest.contains(leg) implies legs.contains(leg) by {
            let i = rest.index_of(leg);
            assert(legs[i] == leg);
        }
        assert forall|leg: Seq<char>| legs.contains(leg) implies rest.contains(leg) || leg
            == last by {
            let i = legs.index_of(leg);
            if i < rest.len() {
                assert(rest[i] == leg);
            }
        }
    }
}

/// An entry is reported as partly held exactly when the broker holds one of its legs and does not hold
/// another.
pub proof fn partly_held_entries_are_reported(
    entry: StrategyStateEntry,
    positions: TextSet,
    open_orders: TextSet,
    status: Option<Seq<char>>,
)
    ensures
        action_for(entry, positions, open_orders, status) is PartialPosition <==> some_leg_in(
            entry,
            positions,
        ) && some_leg_outside(entry, positions),
{
    counts_tell(entry.leg_symbols(), positions);
    counts_tell(entry.leg_symbols(), open_orders);
}

/// An entry is in order exactly when the broker holds all of its legs, or none of them while a leg is
/// still on order.
pub proof fn entries_in_order_are_kept(
    entry: StrategyStateEntry,
    positions: TextSet,
    open_orders: TextSet,
    status: Option<Seq<char>>,
)
    ensures
        action_for(entry, positions, open_orders, status) is Keep <==> (some_leg_in(
            entry,
            positions,
        ) && !some_leg_outside(entry, positions)) || (!some_leg_in(entry, positions)
            && some_leg_in(entry, open_orders)),
{
    counts_tell(entry.leg_symbols(), positions);
    counts_tell(entry.leg_symbols(), open_orders);
}

/// An entry that the broker neither holds nor has on order is over: canceled exactly when its opening
/// orders ended without a fill, and closed otherwise.
pub proof fn flat_entries_are_over(
    entry: StrategyStateEntry,
    positions: TextSet,
    open_orders: TextSet,
    status: Option<Seq<char>>,
)
    ensures
        ({
            let flat = !some_leg_in(entry, positions) && !some_leg_in(entry, open_orders);
            let action = action_for(entry, positions, open_orders, status);
            &&& action is MarkCanceled <==> flat && ended_unfilled(status)
            &&& action is MarkClosed <==> flat && !ended_unfilled(status)
        }),
{
    counts_tell(entry.leg_symbols(), positions);
    counts_tell(entry.leg_symbols(), open_orders);
}

/// Reconciliation ends exactly the open entries that the broker is flat on, and leaves every other
/// entry as it is.
pub proof fn reconciliation_ends_flat_entries(
    entry: StrategyStateEntry,
    positions: TextSet,
    open_orders: TextSet,
    status: Option<Seq<char>>,
    now: String,
)
    ensures
        ({
            let open = entry.submitted && !entry.closed && !entry.canceled;
            let flat = !some_leg_in(entry, positions) && !some_leg_in(entry, open_orders);
            let after = reconciled(entry, positions, open_orders, status, now);
            &&& repairs(entry, positions, open_orders, status) <==> open && flat
            &&& !(open && flat) ==> after == entry
            &&& open && flat && ended_unfilled(status) ==> after.canceled && !after.closed
            &&& open && flat && !ended_unfilled(status) ==> after.closed && !after.canceled
                && after.closed_at_utc == Some(now)
            &&& after.order_list_id == entry.order_list_id
            &&& after.leg_symbols() == entry.leg_symbols()
            &&& after.close_parent_order_id == entry.close_parent_order_id
        }),
{
    flat_entries_are_over(entry, positions, open_orders, status);
}

/// A position that the broker opens on a leg never ends an entry: the more is held, the less is ended.
pub proof fn more_positions_end_less(
    entry: StrategyStateEntry,
    fewer: TextSet,
    more: TextSet,
    open_orders: TextSet,
    status: Option<Seq<char>>,
)
    requires
        forall|x: Seq<char>| #[trigger] fewer.has(x) ==> more.has(x),
        repairs(entry, more, open_orders, status),
    ensures
        repairs(entry, fewer, open_orders, status),
{
    flat_entries_are_over(entry, fewer, open_orders, status);
    flat_entries_are_over(entry, more, open_orders, status);
}

/// What one set has over another is exactly the symbols that are in the first and not in the second:
/// so are the positions that no active entry accounts for.
pub proof fn differences_hold_what_is_missing(
    held: TextSet,
    managed: TextSet,
    symbol: Seq<char>,
)
    ensures
        without(held@, managed@).contains(symbol) <==> held.has(symbol) && !managed.has(symbol),
{
    filter_has(held@, |item: Seq<char>| !managed@.contains(item), symbol);
}

} // verus!
