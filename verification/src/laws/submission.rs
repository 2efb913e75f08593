//! Laws of submitting candidates and of following the answers.
use vstd::prelude::*;

use crate::account_strategy::early_outcome;
use crate::account_strategy::is_new_close;
use crate::account_strategy::is_rejected_entry;
use crate::account_strategy::late_outcome;
use crate::account_strategy::outcome_of;
use crate::account_strategy::recorded_submission;
use crate::account_strategy::state_after_acceptance;
use crate::account_strategy::state_after_rejection;
use crate::account_strategy::underlying_key;
use crate::account_strategy::AlpacaOptionsAccountStrategy;
use crate::account_strategy::CandidateSubmission;
use crate::account_strategy::OutcomeView;
use crate::admission::admission_block;
use crate::admission::names_uncovered_permission;
use crate::admission::EntryAdmissionSnapshot;
use crate::broker_view::admission_reasons;
use crate::broker_view::counts_groups;
use crate::broker_view::WorkingOrder;
use crate::calendar::UtcInstant;
use crate::entry::SelectedOptionsEntry;
use crate::entry_strategy::AlpacaOptionsEntryStrategyConfig;
use crate::lifecycle::lifecycle_block;
use crate::management::CloseOrderMode;
use crate::orders::entry_failure;
use crate::pending::accepted_book;
use crate::pending::answered_book;
use crate::pending::rejected_book;
use crate::pending::rejection_label;
use crate::pending::PendingCloseSubmission;
use crate::pending::PendingCloses;
use crate::pending::PendingEntries;
use crate::pending::PendingEntrySubmission;
use crate::quotes::freshness_block;
use crate::quotes::quote_age;
use crate::state::StrategyState;
use crate::state::StrategyStateEntry;
use crate::state::StrategyStateEntryDraft;
use crate::symbol::is_visible;
use crate::text::opt_text;
use crate::text::texts;
use crate::text_map::TextMap;
use crate::text_set::TextSet;

verus! {

// ---------------------------------------------------------------------------------------------
// Fresh quotes
// ---------------------------------------------------------------------------------------------

/// Whether a candidate has a leg whose last quote is older than a limit, where there is a limit.
pub open spec fn some_leg_stale(
    entry: SelectedOptionsEntry,
    quotes: TextMap<u64>,
    limit: u64,
    now: UtcInstant,
) -> bool {
    limit > 0 && exists|symbol: Seq<char>| #[trigger]
        entry.symbols().contains(symbol) && is_visible(symbol) && (quotes.at(symbol) matches Some(
            ts_event,
        ) && quote_age(ts_event, now) matches Some(age) && age > limit)
}

/// A candidate is kept out for its quotes exactly when one of its legs has a quote that is older than
/// the limit; a leg without a quote keeps nothing out.
pub proof fn stale_quotes_keep_candidates_out(
    entry: SelectedOptionsEntry,
    quotes: TextMap<u64>,
    limit: u64,
    now: UtcInstant,
)
    ensures
        freshness_block(entry, quotes, limit, now) is Some <==> some_leg_stale(
            entry,
            quotes,
            limit,
            now,
        ),
        freshness_block(entry, quotes, limit, now) matches Some(block) ==> block.reason
            == "active_risk_quote_stale"@,
{
    let symbols = entry.symbols();
    let stale = crate::quotes::stale_ones(symbols, quotes, limit, now);
    let pass = |symbol: Seq<char>| crate::quotes::quote_stale(symbol, quotes, limit, now);
    if limit > 0 {
        assert forall|x: Seq<char>| #[trigger] stale.contains(x) <==> symbols.contains(x)
            && crate::quotes::quote_stale(x, quotes, limit, now) by {
            crate::text_set::filter_has(symbols, pass, x);
        }
        if stale.len() > 0 {
            assert(stale.contains(stale[0]));
        }
        if some_leg_stale(entry, quotes, limit, now) {
            let x = choose|symbol: Seq<char>| #[trigger]
                symbols.contains(symbol) && is_visible(symbol) && (quotes.at(symbol) matches Some(
                    ts_event,
                ) && quote_age(ts_event, now) matches Some(age) && age > limit);
            assert(stale.contains(x));
        }
    }
}

// ---------------------------------------------------------------------------------------------
// Outcomes
// ---------------------------------------------------------------------------------------------

/// Whether the lifecycle risk that is followed, if any, stands against a candidate.
pub open spec fn lifecycle_objects(
    strategy: AlpacaOptionsAccountStrategy,
    entry: SelectedOptionsEntry,
    now: UtcInstant,
) -> bool {
    strategy.config.lifecycle_risk matches Some(handle) && lifecycle_block(
        handle.config,
        texts(handle.state.account_blocks@),
        entry,
        now,
    ) is Some
}

/// Whether nothing stands against submitting a candidate before the broker is asked: the account is
/// open to entries, the regime and the strategy's mode allow a submission, no lifecycle risk and no
/// stale quote stands against it, the stores are in order, and every leg names an instrument.
pub open spec fn clear_so_far(
    strategy: AlpacaOptionsAccountStrategy,
    data: CandidateSubmission,
    entry: SelectedOptionsEntry,
) -> bool {
    let admission = strategy.config.admission;
    &&& !admission.kill_switch
    &&& admission.ignore_entry_window || admission.entry_window.open_at(data.now)
    &&& !data.regime_dry_run_only
    &&& admission.submit_enabled
    &&& !admission.dry_run_strategy_family_names.has(entry.strategy())
    &&& !lifecycle_objects(strategy, entry, data.now)
    &&& !some_leg_stale(
        entry,
        data.quote_times,
        strategy.config.management.active_risk_quote_stale_secs,
        data.now,
    )
    &&& data.candidate_ledger_ready
    &&& data.state_persistence_ready
    &&& forall|symbol: Seq<char>| #[trigger] entry.symbols().contains(symbol) ==> is_visible(symbol)
}

proof fn hidden_symbols_fail(symbols: Seq<Seq<char>>)
    ensures
        crate::broker_view::first_hidden(symbols) is None <==> (forall|symbol: Seq<char>| #[trigger]
            symbols.contains(symbol) ==> is_visible(symbol)),
    decreases symbols.len(),
{
    if symbols.len() > 0 {
        let rest = symbols.drop_first();
        hidden_symbols_fail(rest);
        assert(symbols.contains(symbols[0]));
        assert forall|x: Seq<char>| #[trigger] symbols.contains(x) <==> rest.contains(x) || x
            == symbols[0] by {
            if rest.contains(x) {
                assert(symbols[rest.index_of(x) + 1] == x);
            }
            if symbols.contains(x) && symbols.index_of(x) > 0 {
                assert(rest[symbols.index_of(x) - 1] == x);
            }
        }
        if exists|x: Seq<char>| #[trigger] rest.contains(x) && !is_visible(x) {
            let x = choose|x: Seq<char>| #[trigger] rest.contains(x) && !is_visible(x);
            assert(symbols.contains(x));
        }
    }
}

proof fn early_outcomes_tell(
    strategy: AlpacaOptionsAccountStrategy,
    data: CandidateSubmission,
    entry: SelectedOptionsEntry,
)
    ensures
        early_outcome(strategy.config, data, entry) is None <==> clear_so_far(
            strategy,
            data,
            entry,
        ),
        early_outcome(strategy.config, data, entry) != Some(OutcomeView::Submit),
{
    hidden_symbols_fail(entry.symbols());
    stale_quotes_keep_candidates_out(
        entry,
        data.quote_times,
        strategy.config.management.active_risk_quote_stale_secs,
        data.now,
    );
}

/// The best candidate is submitted exactly when nothing stands against it beforehand, admission finds
/// no block given what the broker holds and works, no submission on the same date, strategy and
/// underlying is on its way, and its orders can be built.
pub proof fn candidates_are_submitted_when_nothing_stands_against_them(
    strategy: AlpacaOptionsAccountStrategy,
    data: CandidateSubmission,
    outcome: OutcomeView,
    entry: SelectedOptionsEntry,
)
    requires
        outcome_of(strategy, data, outcome),
        data.candidates.selected() matches Some(selected) && selected.entry == entry,
    ensures
        outcome is Submit ==> clear_so_far(strategy, data, entry),
        outcome is Submit ==> entry_failure(entry, data.order_list_id@, strategy.config.quantity) is None,
        outcome is Submit ==> !strategy.submitted_underlying_keys.has(
            data.candidates.trade_date@ + ":"@ + entry.strategy() + ":"@ + entry.underlying_chars(),
        ),
        outcome is Submit ==> exists|snapshot: EntryAdmissionSnapshot|
            counts_groups(data.broker.orders@, #[trigger] snapshot.open_order_count) && texts(
                snapshot.broker_admission_reasons@,
            ) == admission_reasons(
                texts(strategy.config.admission.account_admission_reasons@),
                data.broker,
                entry,
            ) && admission_block(
                strategy.config.admission,
                strategy.state,
                entry,
                data.candidates.trade_date@,
                snapshot,
                data.figures,
            ) is None,
        clear_so_far(strategy, data, entry) && entry_failure(
            entry,
            data.order_list_id@,
            strategy.config.quantity,
        ) is None && !strategy.submitted_underlying_keys.has(
            data.candidates.trade_date@ + ":"@ + entry.strategy() + ":"@ + entry.underlying_chars(),
        ) ==> outcome is Submit || outcome is Blocked,
{
    early_outcomes_tell(strategy, data, entry);
    if early_outcome(strategy.config, data, entry) is None {
        let snapshot = choose|snapshot: EntryAdmissionSnapshot|
            #![trigger crate::account_strategy::takes_stock(snapshot, strategy.config, data, entry)]
            crate::account_strategy::takes_stock(snapshot, strategy.config, data, entry) && outcome
                == late_outcome(strategy, data, entry, snapshot);
        assert(counts_groups(data.broker.orders@, snapshot.open_order_count));
    }
}

/// A candidate that is not submitted is told why, the first of the gates first: the kill switch, the
/// hours, the regime, the strategy's mode, lifecycle risk, stale quotes, and the two stores.
pub proof fn candidates_are_told_what_stands_against_them(
    strategy: AlpacaOptionsAccountStrategy,
    data: CandidateSubmission,
    entry: SelectedOptionsEntry,
)
    ensures
        ({
            let admission = strategy.config.admission;
            let outcome = early_outcome(strategy.config, data, entry);
            if admission.kill_switch {
                outcome == Some(OutcomeView::Skipped("kill_switch_enabled"@))
            } else if !(admission.ignore_entry_window || admission.entry_window.open_at(data.now)) {
                outcome == Some(OutcomeView::Skipped("outside_entry_window"@))
            } else if data.regime_dry_run_only {
                outcome == Some(OutcomeView::DryRun("regime_dry_run_only"@))
            } else if !admission.submit_enabled || admission.dry_run_strategy_family_names.has(
                entry.strategy(),
            ) {
                outcome == Some(OutcomeView::DryRun("open_orders_disabled"@))
            } else if lifecycle_objects(strategy, entry, data.now) {
                outcome matches Some(OutcomeView::Blocked(block)) && Some(block) == lifecycle_block(
                    strategy.config.lifecycle_risk->0.config,
                    texts(strategy.config.lifecycle_risk->0.state.account_blocks@),
                    entry,
                    data.now,
                )
            } else if some_leg_stale(
                entry,
                data.quote_times,
                strategy.config.management.active_risk_quote_stale_secs,
                data.now,
            ) {
                outcome matches Some(OutcomeView::Blocked(block)) && block.reason
                    == "active_risk_quote_stale"@
            } else if !data.candidate_ledger_ready {
                outcome == Some(OutcomeView::Skipped("candidate_ledger_unhealthy"@))
            } else if !data.state_persistence_ready {
                outcome == Some(OutcomeView::Skipped("state_persistence_unhealthy"@))
            } else {
                outcome is None || outcome->0 is Failed
            }
        }),
{
    stale_quotes_keep_candidates_out(
        entry,
        data.quote_times,
        strategy.config.management.active_risk_quote_stale_secs,
        data.now,
    );
}

/// After its own gates, a candidate is blocked before it is passed over as a repetition, and that before
/// its orders fail.
pub proof fn blocks_come_before_repetitions(
    strategy: AlpacaOptionsAccountStrategy,
    data: CandidateSubmission,
    entry: SelectedOptionsEntry,
    snapshot: EntryAdmissionSnapshot,
)
    ensures
        ({
            let outcome = late_outcome(strategy, data, entry, snapshot);
            let block = admission_block(
                strategy.config.admission,
                strategy.state,
                entry,
                data.candidates.trade_date@,
                snapshot,
                data.figures,
            );
            let repeated = strategy.submitted_underlying_keys.has(
                data.candidates.trade_date@ + ":"@ + entry.strategy() + ":"@
                    + entry.underlying_chars(),
            );
            let failure = entry_failure(entry, data.order_list_id@, strategy.config.quantity);
            &&& block is Some <==> outcome is Blocked
            &&& block matches Some(found) ==> outcome == OutcomeView::Blocked(found)
            &&& block is None && repeated ==> outcome == OutcomeView::Skipped(
                "duplicate_pending_submission"@,
            )
            &&& block is None && !repeated ==> (outcome is Failed <==> failure is Some)
            &&& outcome is Submit <==> block is None && !repeated && failure is None
        }),
{
}

/// The key of a candidate is its trade date, its strategy and its underlying, in that order.
pub proof fn keys_name_date_strategy_and_underlying(
    trade_date: Seq<char>,
    entry: SelectedOptionsEntry,
)
    ensures
        underlying_key(trade_date, entry).take(trade_date.len() as int) == trade_date,
        underlying_key(trade_date, entry) == trade_date + ":"@ + entry.strategy() + ":"@
            + entry.underlying_chars(),
{
    assert(underlying_key(trade_date, entry).take(trade_date.len() as int) =~= trade_date);
}

/// What is pending of a submission is what was submitted, with no answer yet.
pub proof fn submissions_are_pending_as_they_are(
    strategy: AlpacaOptionsAccountStrategy,
    data: CandidateSubmission,
    pending: PendingEntrySubmission,
    order_count: int,
)
    requires
        recorded_submission(strategy, data, pending, order_count),
    ensures
        data.candidates.selected() is Some,
        pending.entry == data.candidates.selected()->0.entry,
        pending.order_list_id@ == data.order_list_id@,
        pending.trade_date@ == data.candidates.trade_date@,
        pending.submitted_at_utc@ == data.submitted_at_utc@,
        pending.quantity == strategy.config.quantity,
        data.figures.candidate matches Some(figure) ==> pending.risk_capital_usd == Some(
            figure.amount,
        ),
        data.figures.candidate is None ==> pending.risk_capital_usd is None,
        pending.spread.legs@ == data.spread.legs@,
        pending.order_count == order_count,
        pending.accepted + pending.rejected == 0,
        !pending.recorded,
        pending.rejection_reasons@.len() == 0,
{
}

// ---------------------------------------------------------------------------------------------
// Order groups
// ---------------------------------------------------------------------------------------------

/// Whether two working orders belong to one group: they are of one order list, or of none and the same
/// order.
pub open spec fn same_group(a: WorkingOrder, b: WorkingOrder) -> bool {
    match (a.order_list_id, b.order_list_id) {
        (Some(x), Some(y)) => x@ == y@,
        (None, None) => a.client_order_id@ == b.client_order_id@,
        _ => false,
    }
}

proof fn prefixed_keys_differ(a: WorkingOrder, b: WorkingOrder)
    ensures
        crate::broker_view::group_key(a) == crate::broker_view::group_key(b) <==> same_group(a, b),
{
    reveal_strlit("list:");
    reveal_strlit("client:");
    let x = crate::broker_view::group_key(a);
    let y = crate::broker_view::group_key(b);
    match (a.order_list_id, b.order_list_id) {
        (Some(p), Some(q)) => {
            assert(x.skip(5) =~= p@);
            assert(y.skip(5) =~= q@);
        },
        (None, None) => {
            assert(x.skip(7) =~= a.client_order_id@);
            assert(y.skip(7) =~= b.client_order_id@);
        },
        (Some(_), None) => {
            assert(x[0] == 'l' && y[0] == 'c');
        },
        (None, Some(_)) => {
            assert(x[0] == 'c' && y[0] == 'l');
        },
    }
}

proof fn ascending_sets_have_no_repetition(set: TextSet)
    requires
        set.wf(),
    ensures
        set@.no_duplicates(),
{
    assert forall|i: int, j: int| 0 <= i < set@.len() && 0 <= j < set@.len() && i != j implies set@[i]
        != set@[j] by {
        if i < j {
            assert(crate::text::text_lt(set@[i], set@[j]));
            crate::text::text_lt_irreflexive(set@[i]);
        } else {
            assert(crate::text::text_lt(set@[j], set@[i]));
            crate::text::text_lt_irreflexive(set@[j]);
        }
    }
}

/// One more working order raises the count of open orders exactly when it belongs to none of the groups
/// so far: the orders of a list count once.
pub proof fn the_orders_of_a_list_count_once(
    orders: Seq<WorkingOrder>,
    order: WorkingOrder,
    before: usize,
    after: usize,
)
    requires
        counts_groups(orders, before),
        counts_groups(orders.push(order), after),
    ensures
        after == before + (if exists|i: int|
            0 <= i < orders.len() && same_group(#[trigger] orders[i], order) {
            0int
        } else {
            1
        }),
{
    let all = orders.push(order);
    let one = choose|groups: TextSet|
        #![trigger groups.wf()]
        groups.wf() && groups@.len() == before && forall|key: Seq<char>|
            #[trigger] groups.has(key) <==> crate::broker_view::is_group(orders, key);
    let two = choose|groups: TextSet|
        #![trigger groups.wf()]
        groups.wf() && groups@.len() == after && forall|key: Seq<char>|
            #[trigger] groups.has(key) <==> crate::broker_view::is_group(all, key);
    ascending_sets_have_no_repetition(one);
    ascending_sets_have_no_repetition(two);
    one@.unique_seq_to_set();
    two@.unique_seq_to_set();
    let new = crate::broker_view::group_key(order);
    assert forall|key: Seq<char>| two@.to_set().contains(key) <==> one@.to_set().insert(
        new,
    ).contains(key) by {
        assert(two.has(key) <==> crate::broker_view::is_group(all, key));
        assert(one.has(key) <==> crate::broker_view::is_group(orders, key));
        if crate::broker_view::is_group(orders, key) {
            let i = choose|i: int|
                0 <= i < orders.len() && crate::broker_view::group_key(#[trigger] orders[i]) == key;
            assert(all[i] == orders[i]);
        }
        if crate::broker_view::is_group(all, key) {
            let i = choose|i: int|
                0 <= i < all.len() && crate::broker_view::group_key(#[trigger] all[i]) == key;
            if i < orders.len() {
                assert(all[i] == orders[i]);
            }
        }
        if key == new {
            assert(all[orders.len() as int] == order);
        }
    }
    assert(two@.to_set() =~= one@.to_set().insert(new));
    if exists|i: int| 0 <= i < orders.len() && same_group(#[trigger] orders[i], order) {
        let i = choose|i: int| 0 <= i < orders.len() && same_group(#[trigger] orders[i], order);
        prefixed_keys_differ(orders[i], order);
        assert(crate::broker_view::is_group(orders, new));
        assert(one.has(new));
    } else {
        if one.has(new) {
            let i = choose|i: int|
                0 <= i < orders.len() && crate::broker_view::group_key(#[trigger] orders[i]) == new;
            prefixed_keys_differ(orders[i], order);
            assert(same_group(orders[i], order));
        }
    }
}

// ---------------------------------------------------------------------------------------------
// Answers
// ---------------------------------------------------------------------------------------------

/// An acceptance is counted, and the submission stays until every order was answered. No other
/// submission changes.
pub proof fn acceptances_are_counted(
    before: PendingEntries,
    after: PendingEntries,
    p: PendingEntrySubmission,
    other: Seq<char>,
)
    requires
        accepted_book(before, after, p),
        p.accepted < usize::MAX,
        other != p.order_list_id@,
    ensures
        after.submissions.at(p.order_list_id@) is None <==> p.accepted + 1 + p.rejected
            >= p.order_count,
        after.submissions.at(p.order_list_id@) matches Some(q) ==> {
            &&& q.accepted == p.accepted + 1 && q.rejected == p.rejected
            &&& q.recorded
            &&& q.entry == p.entry && q.order_count == p.order_count
            &&& q.rejection_reasons == p.rejection_reasons
            &&& q.order_list_id == p.order_list_id && q.quantity == p.quantity
        },
        after.submissions.at(other) == before.submissions.at(other),
{
}

/// A rejection is counted with its reason, and the submission stays until every order was answered. No
/// other submission changes.
pub proof fn rejections_are_counted(
    before: PendingEntries,
    after: PendingEntries,
    p: PendingEntrySubmission,
    reason: Seq<char>,
    other: Seq<char>,
)
    requires
        rejected_book(before, after, p, reason),
        p.rejected < usize::MAX,
        other != p.order_list_id@,
    ensures
        after.submissions.at(p.order_list_id@) is None <==> p.accepted + p.rejected + 1
            >= p.order_count,
        after.submissions.at(p.order_list_id@) matches Some(q) ==> {
            &&& q.rejected == p.rejected + 1 && q.accepted == p.accepted
            &&& texts(q.rejection_reasons@) == texts(p.rejection_reasons@).push(reason)
            &&& q.recorded <==> p.recorded || (p.entry is NakedOption && p.accepted == 0)
            &&& q.entry == p.entry && q.order_count == p.order_count
        },
        after.submissions.at(other) == before.submissions.at(other),
{
}

/// An answer to a close is counted on its side, and the close stays until every order was answered. No
/// other close changes.
pub proof fn answers_to_closes_are_counted(
    before: PendingCloses,
    after: PendingCloses,
    p: PendingCloseSubmission,
    accepted: bool,
    other: Seq<char>,
)
    requires
        answered_book(before, after, p, accepted),
        p.accepted < usize::MAX,
        p.rejected < usize::MAX,
        other != p.close_order_list_id@,
    ensures
        after.submissions.at(p.close_order_list_id@) is None <==> p.accepted + p.rejected + 1
            >= p.order_count,
        after.submissions.at(p.close_order_list_id@) matches Some(q) ==> {
            &&& accepted ==> q.accepted == p.accepted + 1 && q.rejected == p.rejected && q.recorded
            &&& !accepted ==> q.accepted == p.accepted && q.rejected == p.rejected + 1 && q.recorded
                == p.recorded
            &&& q.entry_order_list_id == p.entry_order_list_id
            &&& q.close_order_list_id == p.close_order_list_id
            &&& q.close_reason == p.close_reason && q.close_order_mode == p.close_order_mode
            &&& q.order_count == p.order_count
        },
        after.submissions.at(other) == before.submissions.at(other),
{
}

/// Once a submission is answered in full, its client order IDs are forgotten and no others; before
/// that, none are.
pub proof fn client_orders_are_forgotten_together(
    before: PendingEntries,
    after: PendingEntries,
    p: PendingEntrySubmission,
    id: Seq<char>,
)
    requires
        accepted_book(before, after, p),
    ensures
        ({
            let own = before.client_order_ids.at(id) matches Some(list) && list@ == p.order_list_id@;
            let full = p.accepted + p.rejected + 1 >= p.order_count;
            &&& own && full ==> after.client_order_ids.at(id) is None
            &&& !(own && full) ==> after.client_order_ids.at(id) == before.client_order_ids.at(id)
        }),
{
}

/// A rejection is one for want of permission exactly when one of the reasons says so.
pub proof fn permission_is_what_one_reason_says(reasons: Seq<Seq<char>>, reason: Seq<char>)
    ensures
        rejection_label(reasons.push(reason)) == (if names_uncovered_permission(reason) {
            "entry_rejected_uncovered_option_permission"@
        } else {
            rejection_label(reasons)
        }),
        rejection_label(Seq::empty()) == "entry_rejected"@,
{
    let all = reasons.push(reason);
    if crate::pending::any_uncovered(reasons) {
        let i = choose|i: int|
            0 <= i < reasons.len() && names_uncovered_permission(#[trigger] reasons[i]);
        assert(names_uncovered_permission(all[i]));
    }
    if names_uncovered_permission(reason) {
        assert(names_uncovered_permission(all[reasons.len() as int]));
    }
    if crate::pending::any_uncovered(all) {
        let i = choose|i: int| 0 <= i < all.len() && names_uncovered_permission(#[trigger] all[i]);
        if i < reasons.len() {
            assert(names_uncovered_permission(reasons[i]));
        }
    }
}

/// The first acceptance records the submitted entry as open, under the submission's list and with the
/// broker's ID; later ones record nothing.
pub proof fn the_first_acceptance_records_the_entry(
    before: StrategyState,
    after: StrategyState,
    p: PendingEntrySubmission,
    venue_order_id: String,
    now: String,
)
    requires
        state_after_acceptance(before, after, p, venue_order_id, now),
    ensures
        p.recorded ==> after.entries@ == before.entries@,
        !p.recorded ==> {
            let entry = after.entries@.last();
            &&& after.entries@.len() == before.entries@.len() + 1
            &&& after.entries@.drop_last() == before.entries@
            &&& super::state::open_entry(entry)
            &&& entry.order_list_id@ == p.order_list_id@
            &&& entry.trade_date@ == p.trade_date@
            &&& entry.quantity == p.quantity
            &&& entry.risk_capital_usd == p.risk_capital_usd
            &&& entry.parent_order_id == Some(venue_order_id)
            &&& entry.submitted_at_utc == Some(p.submitted_at_utc)
            &&& entry.strategy@ == p.entry.strategy()
            &&& entry.underlying@ == p.entry.underlying_chars()
            &&& entry.spread_legs@ == p.spread.legs@
            &&& entry.recorded_at_utc == now
        },
{
    if !p.recorded {
        let draft = choose|draft: StrategyStateEntryDraft|
            #[trigger] p.drafts(draft, Some(venue_order_id)) && after.entries@
                == before.entries@.push(crate::state::recorded_entry(draft, now));
        assert(after.entries@.drop_last() =~= before.entries@);
    }
}

/// A rejection records a canceled entry exactly where a naked option was refused before anything of it
/// was accepted; nothing else changes the state.
pub proof fn refused_naked_options_are_recorded_as_canceled(
    before: StrategyState,
    after: StrategyState,
    p: PendingEntrySubmission,
    reason: Seq<char>,
    now: String,
)
    requires
        state_after_rejection(before, after, p, reason, now),
    ensures
        !(p.entry is NakedOption && p.accepted == 0 && !p.recorded) ==> after.entries@
            == before.entries@,
        p.entry is NakedOption && p.accepted == 0 && !p.recorded ==> {
            let entry = after.entries@.last();
            &&& after.entries@.len() == before.entries@.len() + 1
            &&& after.entries@.drop_last() == before.entries@
            &&& entry.canceled && !super::state::open_entry(entry)
            &&& opt_text(entry.close_reason) == Some(
                rejection_label(texts(p.rejection_reasons@).push(reason)),
            )
            &&& entry.order_list_id@ == p.order_list_id@
            &&& entry.parent_order_id is None
            &&& entry.strategy@ == p.entry.strategy()
        },
{
    if p.ends_on_rejection() {
        let draft = choose|draft: StrategyStateEntryDraft|
            #[trigger] p.drafts(draft, None) && is_rejected_entry(
                after.entries@.last(),
                draft,
                rejection_label(texts(p.rejection_reasons@).push(reason)),
                now,
            );
        assert(p.drafts(draft, None));
    }
}

/// A close is pending for its entry, under its own list, with its reason and mode and no answer yet.
pub proof fn closes_are_pending_as_they_are(
    pending: PendingCloseSubmission,
    entry: StrategyStateEntry,
    close_reason: Seq<char>,
    close_order_list_id: Seq<char>,
    mode: CloseOrderMode,
    order_count: int,
)
    requires
        is_new_close(pending, entry, close_reason, close_order_list_id, mode, order_count),
    ensures
        pending.entry_order_list_id@ == entry.order_list_id@,
        pending.close_order_list_id@ == close_order_list_id,
        pending.close_reason@ == close_reason,
        mode is LegacyLegOrderList ==> pending.close_order_mode@ == "legacy_leg_order_list"@,
        mode is OptionSpread ==> pending.close_order_mode@ == "option_spread"@,
        pending.order_count == order_count,
        pending.accepted + pending.rejected == 0,
        !pending.recorded,
{
}

/// The entry strategy submits under the same switches as the account: the kill switch, the hours, and
/// the strategies that are only tried.
pub proof fn the_entry_strategy_keeps_the_switches(
    config: AlpacaOptionsEntryStrategyConfig,
    now: UtcInstant,
    strategy: Seq<char>,
)
    ensures
        config.block_reason(now) is None <==> !config.kill_switch && (config.ignore_entry_window
            || config.entry_window.open_at(now)),
        config.kill_switch ==> config.block_reason(now) == Some("kill_switch_enabled"@),
        !config.kill_switch && config.block_reason(now) is Some ==> config.block_reason(now) == Some(
            "outside_entry_window"@,
        ),
        config.submits(strategy) <==> config.submit_enabled && !config.dry_run_strategy_names.has(
            strategy,
        ),
{
}

/// A refusal keeps the client order IDs of a submission until it is answered in full, and then takes its
/// own away and no others. The other submissions stay as they are.
pub proof fn refusals_take_the_client_orders_away_together(
    before: PendingEntries,
    after: PendingEntries,
    p: PendingEntrySubmission,
    reason: Seq<char>,
    id: Seq<char>,
    list: Seq<char>,
)
    requires
        crate::pending::rejected_book(before, after, p, reason),
    ensures
        ({
            let own = before.client_order_ids.at(id) matches Some(list) && list@ == p.order_list_id@;
            let full = p.accepted + p.rejected + 1 >= p.order_count;
            &&& own && full ==> after.client_order_ids.at(id) is None
            &&& !(own && full) ==> after.client_order_ids.at(id) == before.client_order_ids.at(id)
            &&& full <==> after.submissions.at(p.order_list_id@) is None
        }),
        list != p.order_list_id@ ==> after.submissions.at(list) == before.submissions.at(list),
{
}

/// An answer to a close keeps its client order IDs until it is answered in full, and then takes its own
/// away and no others. The other closes stay as they are.
pub proof fn answered_closes_take_their_client_orders_away_together(
    before: crate::pending::PendingCloses,
    after: crate::pending::PendingCloses,
    p: crate::pending::PendingCloseSubmission,
    accepted: bool,
    id: Seq<char>,
    list: Seq<char>,
)
    requires
        crate::pending::answered_book(before, after, p, accepted),
    ensures
        ({
            let own = before.client_order_ids.at(id) matches Some(list) && list@
                == p.close_order_list_id@;
            let full = p.accepted + p.rejected + 1 >= p.order_count;
            &&& own && full ==> after.client_order_ids.at(id) is None
            &&& !(own && full) ==> after.client_order_ids.at(id) == before.client_order_ids.at(id)
            &&& full <==> after.submissions.at(p.close_order_list_id@) is None
        }),
        list != p.close_order_list_id@ ==> after.submissions.at(list) == before.submissions.at(list),
{
}

/// Every client order of a submission leads to its list, and the others lead where they led.
pub proof fn client_orders_lead_to_their_list(
    before: crate::text_map::TextMap<String>,
    after: crate::text_map::TextMap<String>,
    ids: Seq<Seq<char>>,
    list: Seq<char>,
    id: Seq<char>,
)
    requires
        crate::pending::ids_with(before, after, ids, list),
    ensures
        ids.contains(id) ==> (after.at(id) matches Some(found) && found@ == list),
        !ids.contains(id) ==> after.at(id) == before.at(id),
{
    let _ = after.at(id);
}

} // verus!
