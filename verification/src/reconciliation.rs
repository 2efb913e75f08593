//! Reconciling strategy state with what the broker holds.
use vstd::prelude::*;

use crate::broker::is_terminal_status;
use crate::broker::order_symbols;
use crate::broker::orders_mention;
use crate::broker::position_symbols;
use crate::broker::terminal_status;
use crate::broker::AlpacaOrder;
use crate::broker::AlpacaPosition;
use crate::state::StrategyState;
use crate::state::StrategyStateEntry;
use crate::text::opt_text;
use crate::text::slices;
use crate::text::texts;
use crate::text_set::filter_step;
use crate::text_set::without;
use crate::text_set::TextSet;

verus! {

/// What reconciliation does with an active entry.
#[derive(Clone, Copy, Debug, PartialEq, Eq, Structural)]
pub enum ReconciliationAction {
    /// Leave the entry.
    Keep,
    /// The broker is flat: the entry was closed.
    MarkClosed,
    /// The broker is flat and the opening orders ended without a fill.
    MarkCanceled,
    /// The broker holds only some of the legs.
    PartialPosition,
}

/// The symbols that are elements of a set.
pub open spec fn present(symbols: Seq<Seq<char>>, set: TextSet) -> Seq<Seq<char>> {
    symbols.filter(|symbol: Seq<char>| set.has(symbol))
}

/// What reconciliation does with an entry, given the symbols of positions and of open orders and the
/// status of the opening orders.
pub open spec fn action_for(
    entry: StrategyStateEntry,
    positions: TextSet,
    open_orders: TextSet,
    status: Option<Seq<char>>,
) -> ReconciliationAction {
    let symbols = entry.leg_symbols();
    let held = present(symbols, positions).len();
    if held == 0 && present(symbols, open_orders).len() == 0 {
        if is_terminal_status(status) {
            ReconciliationAction::MarkCanceled
        } else {
            ReconciliationAction::MarkClosed
        }
    } else if 0 < held < symbols.len() {
        ReconciliationAction::PartialPosition
    } else {
        ReconciliationAction::Keep
    }
}

fn count_present(symbols: &Vec<&str>, set: &TextSet) -> (count: usize)
    ensures
        count == present(slices(symbols@), *set).len(),
{
    let mut count: usize = 0;
    let n: usize = symbols.len();
    for i in 0..n
        invariant
            n == symbols@.len(),
            count <= i,
            count == present(slices(symbols@).take(i as int), *set).len(),
    {
        proof {
            filter_step(slices(symbols@), i as int, |symbol: Seq<char>| set.has(symbol));
        }
        if set.contains(symbols[i]) {
            count += 1;
        }
    }
    assert(slices(symbols@).take(n as int) =~= slices(symbols@));
    count
}

/// Returns what reconciliation does with an entry.
pub fn reconciliation_action(
    entry: &StrategyStateEntry,
    position_symbols: &TextSet,
    open_order_symbols: &TextSet,
    entry_order_status: &Option<String>,
) -> (action: ReconciliationAction)
    ensures
        action == action_for(
            *entry,
            *position_symbols,
            *open_order_symbols,
            opt_text(*entry_order_status),
        ),
{
    let symbols = entry.symbols();
    let position_matches: usize = count_present(&symbols, position_symbols);
    let open_order_matches: usize = count_present(&symbols, open_order_symbols);
    if position_matches == 0 && open_order_matches == 0 {
        if terminal_status(entry_order_status) {
            ReconciliationAction::MarkCanceled
        } else {
            ReconciliationAction::MarkClosed
        }
    } else if position_matches > 0 && position_matches < symbols.len() {
        ReconciliationAction::PartialPosition
    } else {
        ReconciliationAction::Keep
    }
}

/// An entry after an action.
pub open spec fn acted(entry: StrategyStateEntry, action: ReconciliationAction, now: String) -> StrategyStateEntry {
    match action {
        ReconciliationAction::MarkClosed => entry.after_close(None, now),
        ReconciliationAction::MarkCanceled => entry.after_cancel(),
        _ => entry,
    }
}

/// What reconciliation makes of an entry; only active entries are touched.
pub open spec fn reconciled(
    entry: StrategyStateEntry,
    positions: TextSet,
    open_orders: TextSet,
    status: Option<Seq<char>>,
    now: String,
) -> StrategyStateEntry {
    if entry.active() {
        acted(entry, action_for(entry, positions, open_orders, status), now)
    } else {
        entry
    }
}

/// Whether reconciliation changes an entry.
pub open spec fn repairs(
    entry: StrategyStateEntry,
    positions: TextSet,
    open_orders: TextSet,
    status: Option<Seq<char>>,
) -> bool {
    &&& entry.active()
    &&& action_for(entry, positions, open_orders, status) is MarkClosed || action_for(
        entry,
        positions,
        open_orders,
        status,
    ) is MarkCanceled
}

/// Returns whether the status of the opening orders decides what is done with an entry.
pub fn needs_order_status(
    entry: &StrategyStateEntry,
    position_symbols: &TextSet,
    open_order_symbols: &TextSet,
) -> (needed: bool)
    ensures
        needed == (entry.active() && present(entry.leg_symbols(), *position_symbols).len() == 0
            && present(entry.leg_symbols(), *open_order_symbols).len() == 0),
{
    entry.is_active() && reconciliation_action(
        entry,
        position_symbols,
        open_order_symbols,
        &None,
    ) == ReconciliationAction::MarkClosed
}

/// The status of the opening orders matters only for an entry that the broker is flat on.
pub proof fn status_matters_only_when_flat(
    entry: StrategyStateEntry,
    positions: TextSet,
    open_orders: TextSet,
    status: Option<Seq<char>>,
)
    requires
        !(action_for(entry, positions, open_orders, None) is MarkClosed),
    ensures
        action_for(entry, positions, open_orders, status) == action_for(
            entry,
            positions,
            open_orders,
            None,
        ),
{
}

/// What reconciliation found.
#[derive(Clone, Debug)]
pub struct ReconciliationReport {
    /// Whether an entry was changed.
    pub changed: bool,
    /// Position symbols that no active entry accounts for.
    pub unmanaged_symbols: Vec<String>,
    /// Actions, one for each entry; inactive entries get none.
    pub actions: Vec<ReconciliationAction>,
}

/// Reconciles strategy state with positions and open orders. `statuses` holds, for each entry, the
/// status of its opening orders where it was looked up.
pub fn reconcile_strategy_state(
    state: &mut StrategyState,
    positions: &Vec<AlpacaPosition>,
    open_orders: &Vec<AlpacaOrder>,
    statuses: &Vec<Option<String>>,
    now: &String,
) -> (report: ReconciliationReport)
    requires
        statuses@.len() == old(state).entries@.len(),
    ensures
        final(state).entries@.len() == old(state).entries@.len(),
        report.actions@.len() == old(state).entries@.len(),
        exists|held: TextSet, ordered: TextSet, managed: TextSet|
            #![trigger held.wf(), ordered.wf(), managed.wf()]
            {
                &&& held.wf() && ordered.wf() && managed.wf()
                &&& forall|x: Seq<char>|
                    #[trigger] held.has(x) <==> (exists|i: int|
                        0 <= i < positions@.len() && opt_text((#[trigger] positions@[i]).symbol)
                            == Some(x))
                &&& forall|x: Seq<char>| #[trigger] ordered.has(x) <==> orders_mention(open_orders@, x)
                &&& forall|x: Seq<char>| #[trigger] managed.has(x) <==> old(state).has_active_symbol(x)
                &&& texts(report.unmanaged_symbols@) == without(held@, managed@)
                &&& forall|i: int|
                    0 <= i < old(state).entries@.len() ==> #[trigger] final(state).entries@[i]
                        == reconciled(
                        old(state).entries@[i],
                        held,
                        ordered,
                        opt_text(statuses@[i]),
                        *now,
                    )
                &&& forall|i: int|
                    0 <= i < old(state).entries@.len() ==> #[trigger] report.actions@[i] == if old(state).entries@[i].active() {
                        action_for(
                            old(state).entries@[i],
                            held,
                            ordered,
                            opt_text(statuses@[i]),
                        )
                    } else {
                        ReconciliationAction::Keep
                    }
                &&& report.changed == (exists|i: int|
                    0 <= i < old(state).entries@.len() && repairs(
                        #[trigger] old(state).entries@[i],
                        held,
                        ordered,
                        opt_text(statuses@[i]),
                    ))
            },
{
    let held = position_symbols(positions);
    let ordered = order_symbols(open_orders);
    let managed = state.active_symbols();
    let unmanaged_symbols = held.difference(&managed);
    let ghost before = state.entries@;
    let n: usize = state.entries.len();
    let mut changed: bool = false;
    let mut actions: Vec<ReconciliationAction> = Vec::new();
    for i in 0..n
        invariant
            n == before.len(),
            state.entries@.len() == n,
            statuses@.len() == n,
            actions@.len() == i,
            forall|k: int| i <= k < n ==> #[trigger] state.entries@[k] == before[k],
            forall|k: int|
                0 <= k < i ==> #[trigger] state.entries@[k] == reconciled(
                    before[k],
                    held,
                    ordered,
                    opt_text(statuses@[k]),
                    *now,
                ),
            forall|k: int|
                0 <= k < i ==> #[trigger] actions@[k] == if before[k].active() {
                    action_for(before[k], held, ordered, opt_text(statuses@[k]))
                } else {
                    ReconciliationAction::Keep
                },
            changed == (exists|k: int|
                0 <= k < i && repairs(
                    #[trigger] before[k],
                    held,
                    ordered,
                    opt_text(statuses@[k]),
                )),
    {
        let ghost untouched = changed;
        assert(state.entries@[i as int] == before[i as int]);
        let mut action = ReconciliationAction::Keep;
        if state.entries[i].is_active() {
            action = reconciliation_action(&state.entries[i], &held, &ordered, &statuses[i]);
            match action {
                ReconciliationAction::MarkClosed => {
                    state.entries[i].mark_closed(None, now.clone());
                    changed = true;
                },
                ReconciliationAction::MarkCanceled => {
                    state.entries[i].mark_canceled();
                    changed = true;
                },
                _ => {},
            }
        }
        actions.push(action);
        proof {
            assert(repairs(before[i as int], held, ordered, opt_text(statuses@[i as int])) ==> changed);
            if changed && !untouched {
                assert(repairs(before[i as int], held, ordered, opt_text(statuses@[i as int])));
            }
        }
    }
    proof {
        assert(held.wf() && ordered.wf() && managed.wf());
    }
    ReconciliationReport { changed, unmanaged_symbols, actions }
}

/// Reconciling a second time against the same positions and orders changes nothing, whatever the
/// order statuses say then.
pub proof fn reconciling_twice_changes_nothing(
    entry: StrategyStateEntry,
    positions: TextSet,
    open_orders: TextSet,
    status: Option<Seq<char>>,
    later_status: Option<Seq<char>>,
    now: String,
    later: String,
)
    ensures
        reconciled(
            reconciled(entry, positions, open_orders, status, now),
            positions,
            open_orders,
            later_status,
            later,
        ) == reconciled(entry, positions, open_orders, status, now),
{
}

/// An entry that holds a leg at the broker is never closed or canceled by reconciliation.
pub proof fn held_entries_are_kept(
    entry: StrategyStateEntry,
    positions: TextSet,
    open_orders: TextSet,
    status: Option<Seq<char>>,
    now: String,
    symbol: Seq<char>,
)
    requires
        entry.leg_symbols().contains(symbol),
        positions.has(symbol) || open_orders.has(symbol),
    ensures
        reconciled(entry, positions, open_orders, status, now) == entry,
{
    let symbols = entry.leg_symbols();
    let at = symbols.index_of(symbol);
    if positions.has(symbol) {
        present_keeps(symbols, positions, at);
    } else {
        present_keeps(symbols, open_orders, at);
    }
}

proof fn present_keeps(symbols: Seq<Seq<char>>, set: TextSet, at: int)
    requires
        0 <= at < symbols.len(),
        set.has(symbols[at]),
    ensures
        present(symbols, set).len() > 0,
    decreases symbols.len(),
{
    reveal(Seq::filter);
    if at < symbols.len() - 1 {
        present_keeps(symbols.drop_last(), set, at);
    }
}

} // verus!
