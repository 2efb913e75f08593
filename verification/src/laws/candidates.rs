//! Laws of scanning for candidates, ranking and planning them.
use vstd::prelude::*;

use crate::amount::Amount;
use crate::candidate_set::profile_tasks;
use crate::candidate_set::ranked;
use crate::candidate_set::recorded_in_turn;
use crate::candidate_set::requested_scan;
use crate::candidate_set::scan_recorded;
use crate::candidate_set::tasks_of;
use crate::candidate_set::with_candidate;
use crate::candidate_set::AlpacaOptionsCandidateProfile;
use crate::candidate_set::OptionsCandidateSet;
use crate::candidate_set::ProfiledOptionsEntry;
use crate::candidate_set::ScanCandidates;
use crate::candidate_set::ScanRequest;
use crate::candidate_set::ScanResult;
use crate::candidate_set::ScanTask;
use crate::chain::chosen_volatility;
use crate::chain::in_series;
use crate::chain::normalizes;
use crate::chain::slice_price;
use crate::chain::slice_scans;
use crate::chain::OptionChainCandidateInput;
use crate::chain::OptionChainCandidateSide;
use crate::chain::OptionChainOpportunityScanConfig;
use crate::chain::OptionChainSlice;
use crate::chain::OptionSeries;
use crate::chain::SeriesInstrument;
use crate::chain::StrikeQuote;
use crate::entry::SelectedOptionsEntry;
use crate::planner::family_of;
use crate::planner::opening_legs;
use crate::planner::AlpacaOptionsEntryPlan;
use crate::profile::AlpacaOptionsStrategyProfile;
use crate::state::StrategyStateEntryDraft;
use crate::text::opt_text;
use crate::text::texts;

verus! {

/// The score of a candidate.
pub open spec fn score(entry: SelectedOptionsEntry) -> Amount {
    match entry {
        SelectedOptionsEntry::Credit(e) => e.candidate.score,
        SelectedOptionsEntry::IronCondor(e) => e.candidate.score,
        SelectedOptionsEntry::Debit(e) => e.candidate.score,
        SelectedOptionsEntry::NakedOption(e) => e.candidate.score,
    }
}

/// What a candidate brings in, or costs where it is a debit spread.
pub open spec fn premium(entry: SelectedOptionsEntry) -> Amount {
    match entry {
        SelectedOptionsEntry::Credit(e) => e.candidate.credit,
        SelectedOptionsEntry::IronCondor(e) => e.candidate.credit,
        SelectedOptionsEntry::Debit(e) => e.candidate.debit,
        SelectedOptionsEntry::NakedOption(e) => e.candidate.credit,
    }
}

/// A candidate is described by its own score, premium, symbols and names. The debit spreads are the
/// candidates that cost something.
pub proof fn candidates_are_described_as_they_are(entry: SelectedOptionsEntry)
    ensures
        entry.score_amount() == score(entry),
        entry.premium_amount() == premium(entry),
        entry.premium_kind() is Debit <==> entry is Debit,
        entry.symbols().len() == super::orders::sold(entry).len() + super::orders::bought(entry).len(),
        forall|i: int|
            0 <= i < super::orders::sold(entry).len() ==> entry.symbols().contains(
                (#[trigger] super::orders::sold(entry)[i]).symbol@,
            ),
        forall|i: int|
            0 <= i < super::orders::bought(entry).len() ==> entry.symbols().contains(
                (#[trigger] super::orders::bought(entry)[i]).symbol@,
            ),
        entry is Credit ==> entry.candidate_type() == "credit_spread"@,
        entry is IronCondor ==> entry.candidate_type() == "iron_condor"@ && entry.strategy()
            == "iron_condor"@,
        entry is Debit ==> entry.candidate_type() == "debit_spread"@,
        entry is NakedOption ==> entry.candidate_type() == "naked_option"@,
{
    let symbols = entry.symbols();
    let s = super::orders::sold(entry);
    let b = super::orders::bought(entry);
    match entry {
        SelectedOptionsEntry::Credit(_) => {
            assert(symbols[0] == s[0].symbol@ && symbols[1] == b[0].symbol@);
        },
        SelectedOptionsEntry::IronCondor(_) => {
            assert(symbols[0] == s[0].symbol@ && symbols[1] == b[0].symbol@);
            assert(symbols[2] == s[1].symbol@ && symbols[3] == b[1].symbol@);
        },
        SelectedOptionsEntry::Debit(_) => {
            assert(symbols[0] == b[0].symbol@ && symbols[1] == s[0].symbol@);
        },
        SelectedOptionsEntry::NakedOption(_) => {
            assert(symbols[0] == s[0].symbol@);
        },
    }
}

/// The strategy of a candidate is named by its kind, and the plan files it under the family of that
/// name.
pub proof fn strategies_are_named_by_their_kind(entry: SelectedOptionsEntry)
    ensures
        entry matches SelectedOptionsEntry::Credit(e) ==> {
            &&& e.kind is Put ==> entry.strategy() == "put_credit"@ && family_of(entry) is PutCredit
            &&& e.kind is Call ==> entry.strategy() == "call_credit"@ && family_of(
                entry,
            ) is CallCredit
        },
        entry matches SelectedOptionsEntry::Debit(e) ==> {
            &&& e.kind is Put ==> entry.strategy() == "put_debit"@ && family_of(entry) is PutDebit
            &&& e.kind is Call ==> entry.strategy() == "call_debit"@ && family_of(entry) is CallDebit
        },
        entry matches SelectedOptionsEntry::NakedOption(e) ==> {
            &&& e.kind is Put ==> entry.strategy() == "naked_put"@ && family_of(entry) is NakedPut
            &&& e.kind is Call ==> entry.strategy() == "naked_call"@ && family_of(entry) is NakedCall
            &&& e.kind is PutOneToThreeDte ==> entry.strategy() == "naked_put_1_3dte"@ && family_of(
                entry,
            ) is NakedPutOneToThreeDte
            &&& e.kind is CallOneToThreeDte ==> entry.strategy() == "naked_call_1_3dte"@ && family_of(
                entry,
            ) is NakedCallOneToThreeDte
        },
        entry is IronCondor ==> family_of(entry) is IronCondor,
{
}

/// A plan is that of its candidate: it sells the short legs and buys the long ones, and repeats the
/// candidate's own figures.
pub proof fn plans_are_those_of_the_candidate(
    plan: AlpacaOptionsEntryPlan,
    profile: Option<AlpacaOptionsCandidateProfile>,
    entry: SelectedOptionsEntry,
)
    requires
        plan.plans(profile, entry, family_of(entry)),
    ensures
        plan.profile == profile,
        plan.entry == entry,
        plan.family == family_of(entry),
        plan.score == score(entry),
        plan.premium == premium(entry),
        plan.premium_kind is Debit <==> entry is Debit,
        plan.underlying@ == entry.underlying_chars(),
        plan.strategy@ == entry.strategy(),
        texts(plan.symbols@) == entry.symbols(),
        plan.order_legs@.len() == entry.symbols().len(),
        plan.vertical() <==> entry is Credit || entry is Debit,
{
    assert(crate::planner::leg_views(plan.order_legs@).len() == plan.order_legs@.len());
}

/// A plan sells exactly the short contracts and buys exactly the long ones.
pub proof fn plans_sell_the_short_and_buy_the_long(entry: SelectedOptionsEntry, at: int)
    requires
        0 <= at < opening_legs(entry).len(),
    ensures
        opening_legs(entry)[at].1 is Sell ==> exists|i: int|
            0 <= i < super::orders::sold(entry).len() && (#[trigger] super::orders::sold(
                entry,
            )[i]).symbol@ == opening_legs(entry)[at].0,
        opening_legs(entry)[at].1 is Buy ==> exists|i: int|
            0 <= i < super::orders::bought(entry).len() && (#[trigger] super::orders::bought(
                entry,
            )[i]).symbol@ == opening_legs(entry)[at].0,
        opening_legs(entry).len() == super::orders::sold(entry).len() + super::orders::bought(
            entry,
        ).len(),
{
    let s = super::orders::sold(entry);
    let b = super::orders::bought(entry);
    let legs = opening_legs(entry);
    match entry {
        SelectedOptionsEntry::Credit(_) => {
            assert(s[0].symbol@ == legs[0].0 && b[0].symbol@ == legs[1].0);
        },
        SelectedOptionsEntry::IronCondor(_) => {
            assert(s[0].symbol@ == legs[0].0 && b[0].symbol@ == legs[1].0);
            assert(s[1].symbol@ == legs[2].0 && b[1].symbol@ == legs[3].0);
        },
        SelectedOptionsEntry::Debit(_) => {
            assert(b[0].symbol@ == legs[0].0 && s[0].symbol@ == legs[1].0);
        },
        SelectedOptionsEntry::NakedOption(_) => {
            assert(s[0].symbol@ == legs[0].0);
        },
    }
}

/// A drafted entry has the candidate's contracts in the places of its legs, and its premium as a credit:
/// a debit counts as a negative one and is kept beside it.
pub proof fn drafts_keep_contracts_and_premium(
    entry: SelectedOptionsEntry,
    draft: StrategyStateEntryDraft,
)
    requires
        entry.drafted_as(draft),
    ensures
        draft.underlying@ == entry.underlying_chars(),
        draft.strategy@ == entry.strategy(),
        draft.score == score(entry),
        entry is Debit ==> draft.debit == Some(premium(entry)) && draft.credit.negated_spec()
            == premium(entry),
        !(entry is Debit) ==> draft.debit is None && draft.credit == premium(entry),
        draft.short_symbol@ == super::orders::sold(entry)[0].symbol@,
        !(entry is NakedOption) ==> draft.long_symbol@ == super::orders::bought(entry)[0].symbol@,
        entry is NakedOption ==> draft.long_symbol@.len() == 0,
        entry is IronCondor ==> opt_text(draft.short_call_symbol) == Some(
            super::orders::sold(entry)[1].symbol@,
        ) && opt_text(draft.long_call_symbol) == Some(super::orders::bought(entry)[1].symbol@),
        !(entry is IronCondor) ==> draft.short_call_symbol is None && draft.long_call_symbol is None,
{
}

// ---------------------------------------------------------------------------------------------
// Ranking
// ---------------------------------------------------------------------------------------------

/// A candidate takes its place after every one that scores as high and before every one that scores
/// lower; nothing else moves.
pub proof fn candidates_take_their_place(
    entries: Seq<ProfiledOptionsEntry>,
    candidate: ProfiledOptionsEntry,
)
    requires
        ranked(entries),
    ensures
        exists|at: int|
            0 <= at <= entries.len() && #[trigger] with_candidate(entries, candidate)[at] == candidate
                && with_candidate(entries, candidate) == entries.insert(at, candidate) && (forall|
                i: int,
            |
                0 <= i < at ==> score((#[trigger] entries[i]).entry).total_rank() >= score(
                    candidate.entry,
                ).total_rank()) && (forall|i: int|
                at <= i < entries.len() ==> score((#[trigger] entries[i]).entry).total_rank() < score(
                    candidate.entry,
                ).total_rank()),
{
    let s = candidate.entry.score_amount();
    let at = crate::candidate_set::rank_position(entries, s);
    crate::candidate_set::rank_position_splits(entries, s);
    assert(with_candidate(entries, candidate)[at] == candidate);
    assert forall|i: int| at <= i < entries.len() implies score(
        (#[trigger] entries[i]).entry,
    ).total_rank() < s.total_rank() by {
        if i > at {
            assert(entries[at].entry.score_amount().total_rank()
                >= entries[i].entry.score_amount().total_rank());
        }
    }
}

/// A scan adds its best candidate, and nothing where it found none; the set selects that candidate
/// exactly when it scores higher than the one selected so far.
pub proof fn the_best_candidate_is_selected(
    before: OptionsCandidateSet,
    after: OptionsCandidateSet,
    profile: AlpacaOptionsCandidateProfile,
    result: ScanResult,
    best: SelectedOptionsEntry,
)
    requires
        before.wf(),
        scan_recorded(before, after, profile, result),
        result.candidates.count() > 0,
        forall|other: SelectedOptionsEntry| #[trigger]
            result.candidates.first_is(result.underlying@, other) ==> other == best,
    ensures
        after.wf(),
        after.ranked_entries@.len() == before.ranked_entries@.len() + 1,
        after.selected() == match before.selected() {
            Some(held) => if score(held.entry).total_rank() < score(best).total_rank() {
                Some(ProfiledOptionsEntry { profile, entry: best })
            } else {
                Some(held)
            },
            None => Some(ProfiledOptionsEntry { profile, entry: best }),
        },
{
    let candidate = ProfiledOptionsEntry { profile, entry: best };
    crate::candidate_set::considering_keeps_the_ranking(before.ranked_entries@, candidate);
    crate::candidate_set::rank_position_splits(before.ranked_entries@, best.score_amount());
}

/// A scan without candidates leaves the ranking as it is, and says why.
pub proof fn empty_scans_leave_the_ranking(
    before: OptionsCandidateSet,
    after: OptionsCandidateSet,
    profile: AlpacaOptionsCandidateProfile,
    result: ScanResult,
)
    requires
        scan_recorded(before, after, profile, result),
    ensures
        after.scans@.len() == before.scans@.len() + 1,
        after.trade_date == before.trade_date,
        ({
            let report = after.scans@.last();
            &&& report.profile == profile
            &&& report.underlying@ == result.underlying@
            &&& report.candidate_count == result.candidates.count()
            &&& report.contract_count == result.contract_count
            &&& report.snapshot_count == result.snapshot_count
            &&& report.scoreable_count == result.scoreable_count
            &&& report.outcome is Candidate <==> result.candidates.count() > 0
            &&& result.candidates.count() == 0 ==> opt_text(report.reason) == Some(
                result.no_candidate_reason@,
            ) && after.ranked_entries@ == before.ranked_entries@
            &&& result.candidates.count() > 0 ==> report.reason is None
        }),
{
}

/// The best candidate of a scan is the first that it found, of the scan's kind and on its underlying.
pub proof fn the_first_candidate_is_the_best(
    candidates: ScanCandidates,
    underlying: Seq<char>,
    entry: SelectedOptionsEntry,
)
    requires
        candidates.first_is(underlying, entry),
    ensures
        entry.underlying_chars() == underlying,
        entry.strategy() == candidates.request().strategy(),
        candidates matches ScanCandidates::Credit(_, list) ==> entry->Credit_0.candidate == list@[0],
        candidates matches ScanCandidates::IronCondor(list) ==> entry->IronCondor_0.candidate
            == list@[0],
        candidates matches ScanCandidates::Debit(_, list) ==> entry->Debit_0.candidate == list@[0],
        candidates matches ScanCandidates::Naked(_, list) ==> entry->NakedOption_0.candidate
            == list@[0],
{
}

/// Recording scans in turn starts from nothing and counts every scan.
pub proof fn every_scan_is_recorded(
    steps: Seq<OptionsCandidateSet>,
    profiles: Seq<AlpacaOptionsCandidateProfile>,
    results: Seq<ScanResult>,
    n: int,
)
    requires
        recorded_in_turn(steps, profiles, results),
        0 <= n <= results.len(),
    ensures
        steps[n].scans@.len() == n,
        steps[n].trade_date == steps[0].trade_date,
        steps[n].ranked_entries@.len() <= n,
        steps[n].ranked_entries@.len() == 0 <==> (forall|k: int|
            0 <= k < n ==> (#[trigger] results[k]).candidates.count() == 0),
    decreases n,
{
    if n > 0 {
        every_scan_is_recorded(steps, profiles, results, n - 1);
        assert(scan_recorded(steps[n - 1], steps[n - 1 + 1], profiles[n - 1], results[n - 1]));
        if results[n - 1].candidates.count() > 0 {
            let result = results[n - 1];
            let best = choose|best: SelectedOptionsEntry|
                #![trigger result.candidates.first_is(result.underlying@, best)]
                result.candidates.first_is(result.underlying@, best) && steps[n].ranked_entries@
                    == with_candidate(
                    steps[n - 1].ranked_entries@,
                    ProfiledOptionsEntry { profile: profiles[n - 1], entry: best },
                );
            crate::candidate_set::rank_position_splits(
                steps[n - 1].ranked_entries@,
                best.score_amount(),
            );
            assert(steps[n].ranked_entries@.len() == steps[n - 1].ranked_entries@.len() + 1);
        }
    }
}

// ---------------------------------------------------------------------------------------------
// Tasks
// ---------------------------------------------------------------------------------------------

/// A profile is scanned for what its family trades, and only by the scanner of that sort.
pub proof fn profiles_are_scanned_for_their_family(profile: AlpacaOptionsStrategyProfile)
    ensures
        requested_scan(profile) matches Some(request) ==> request.strategy()
            == profile.family.label(),
        requested_scan(profile) is Some <==> {
            let family = profile.family;
            ||| profile.scanner is Credit && (family is PutCredit || family is CallCredit)
            ||| profile.scanner is IronCondor && family is IronCondor
            ||| profile.scanner is Debit && (family is PutDebit || family is CallDebit)
            ||| profile.scanner is Naked && (family is NakedPut || family is NakedCall
                || family is NakedPutOneToThreeDte || family is NakedCallOneToThreeDte)
        },
{
}

/// Every underlying of every profile that is scanned is scanned: there is one task for each.
pub proof fn every_underlying_is_scanned(
    profiles: Seq<AlpacaOptionsStrategyProfile>,
    n: int,
    p: int,
    u: int,
)
    requires
        0 <= p < n <= profiles.len() <= usize::MAX,
        0 <= u < profiles[p].underlyings@.len() <= usize::MAX,
        requested_scan(profiles[p]) is Some,
    ensures
        tasks_of(profiles, n).contains(
            ScanTask {
                profile: p as usize,
                underlying: u as usize,
                request: requested_scan(profiles[p])->0,
            },
        ),
    decreases n,
{
    let task = ScanTask {
        profile: p as usize,
        underlying: u as usize,
        request: requested_scan(profiles[p])->0,
    };
    let earlier = tasks_of(profiles, n - 1);
    let own = profile_tasks(profiles[n - 1], n - 1);
    let all = tasks_of(profiles, n);
    if p == n - 1 {
        assert(own[u] == task);
        assert(all[earlier.len() + u] == task);
    } else {
        every_underlying_is_scanned(profiles, n - 1, p, u);
        assert(all[earlier.index_of(task)] == task);
    }
}

/// A profile adds as many tasks as it has underlyings, and none where it is not scanned.
pub proof fn profiles_add_their_underlyings(
    profiles: Seq<AlpacaOptionsStrategyProfile>,
    n: int,
)
    requires
        0 < n <= profiles.len(),
    ensures
        tasks_of(profiles, n).len() == tasks_of(profiles, n - 1).len() + (if requested_scan(
            profiles[n - 1],
        ) is Some {
            profiles[n - 1].underlyings@.len()
        } else {
            0
        }),
{
}

// ---------------------------------------------------------------------------------------------
// Option chains
// ---------------------------------------------------------------------------------------------

/// A slice is scanned for each configured kind, in the order of the families: credit spreads, iron
/// condors, debit spreads, naked options.
pub proof fn slices_are_scanned_for_every_kind(config: OptionChainOpportunityScanConfig)
    ensures
        ({
            let scans = slice_scans(config);
            let credits = config.spread_kinds@.len();
            let condors = if config.iron_condor_enabled {
                1nat
            } else {
                0
            };
            let debits = config.debit_kinds@.len();
            &&& scans.len() == credits + condors + debits + config.naked_kinds@.len()
            &&& forall|i: int|
                0 <= i < credits ==> #[trigger] scans[i] == ScanRequest::Credit(
                    config.spread_kinds@[i],
                )
            &&& scans.contains(ScanRequest::IronCondor) <==> config.iron_condor_enabled
            &&& forall|i: int|
                0 <= i < debits ==> scans[credits + condors + i] == ScanRequest::Debit(
                    #[trigger] config.debit_kinds@[i],
                )
            &&& forall|i: int|
                0 <= i < config.naked_kinds@.len() ==> scans[credits + condors + debits + i]
                    == ScanRequest::Naked(#[trigger] config.naked_kinds@[i])
        }),
{
    let scans = slice_scans(config);
    if config.iron_condor_enabled {
        assert(scans[config.spread_kinds@.len() as int] == ScanRequest::IronCondor);
    }
}

/// Puts are scored on the put side of a slice and calls on the call side.
pub proof fn sides_hold_their_kind(input: OptionChainCandidateInput)
    ensures
        input.side(true) == input.puts,
        input.side(false) == input.calls,
{
}

/// A side has one contract for each strike, with the strike's own symbol, price and open interest, and
/// the last quote of each symbol.
pub proof fn sides_follow_the_strikes(
    side: OptionChainCandidateSide,
    strikes: Seq<StrikeQuote>,
    expiration_date: Seq<char>,
    at: int,
)
    requires
        normalizes(side, strikes, expiration_date),
        0 <= at < strikes.len(),
        forall|k: int| at < k < strikes.len() ==> (#[trigger] strikes[k]).symbol@ != strikes[at].symbol@,
    ensures
        side.contracts@.len() == strikes.len(),
        side.contracts@[at].symbol@ == strikes[at].symbol@,
        side.contracts@[at].strike == Some(strikes[at].strike),
        side.contracts@[at].open_interest == strikes[at].open_interest,
        side.contracts@[at].expiration_date@ == expiration_date,
        ({
            let found = side.snapshots.at(strikes[at].symbol@);
            &&& found matches Some(snapshot) && snapshot.delta == strikes[at].delta
                && snapshot.implied_volatility == strikes[at].implied_volatility && snapshot.volume
                == 0
            &&& found->0.quote matches Some(quote) && quote.bid == Some(strikes[at].bid) && quote.ask
                == Some(strikes[at].ask) && quote.bid_size == strikes[at].bid_size && quote.ask_size
                == strikes[at].ask_size
        }),
{
    last_snapshots_win(strikes, at);
    assert(crate::chain::is_contract_of(side.contracts@[at], strikes[at], expiration_date));
}

proof fn last_snapshots_win(strikes: Seq<StrikeQuote>, at: int)
    requires
        0 <= at < strikes.len(),
        forall|k: int| at < k < strikes.len() ==> (#[trigger] strikes[k]).symbol@ != strikes[at].symbol@,
    ensures
        crate::chain::last_snapshot(strikes, strikes[at].symbol@) == Some(
            strikes[at].as_snapshot(),
        ),
    decreases strikes.len(),
{
    if at < strikes.len() - 1 {
        let rest = strikes.drop_last();
        assert(strikes.last() == strikes[strikes.len() - 1]);
        assert forall|k: int| at < k < rest.len() implies (#[trigger] rest[k]).symbol@
            != rest[at].symbol@ by {
            assert(rest[k] == strikes[k]);
        }
        last_snapshots_win(rest, at);
    }
}

/// Whether a price is a finite number above zero.
pub open spec fn is_price(price: Option<Amount>) -> bool {
    price matches Some(value) && 0 < value.bits < 0x7FF0_0000_0000_0000
}

proof fn first_price_tells(strikes: Seq<StrikeQuote>)
    ensures
        match crate::chain::first_price(strikes) {
            Some(price) => is_price(Some(price)) && exists|i: int|
                0 <= i < strikes.len() && (#[trigger] strikes[i]).underlying_price == Some(price) && (
                forall|k: int| 0 <= k < i ==> !is_price((#[trigger] strikes[k]).underlying_price)),
            None => forall|i: int|
                0 <= i < strikes.len() ==> !is_price((#[trigger] strikes[i]).underlying_price),
        },
    decreases strikes.len(),
{
    if strikes.len() > 0 {
        let rest = strikes.drop_first();
        first_price_tells(rest);
        if is_price(strikes[0].underlying_price) {
            assert(strikes[0].underlying_price == crate::chain::first_price(strikes));
        } else {
            match crate::chain::first_price(rest) {
                Some(price) => {
                    let i = choose|i: int|
                        0 <= i < rest.len() && (#[trigger] rest[i]).underlying_price == Some(price)
                            && (forall|k: int|
                            0 <= k < i ==> !is_price((#[trigger] rest[k]).underlying_price));
                    assert(strikes[i + 1] == rest[i]);
                    assert forall|k: int| 0 <= k < i + 1 implies !is_price(
                        (#[trigger] strikes[k]).underlying_price,
                    ) by {
                        if k > 0 {
                            assert(rest[k - 1] == strikes[k]);
                        }
                    }
                },
                None => {
                    assert forall|i: int| 0 <= i < strikes.len() implies !is_price(
                        (#[trigger] strikes[i]).underlying_price,
                    ) by {
                        if i > 0 {
                            assert(rest[i - 1] == strikes[i]);
                        }
                    }
                },
            }
        }
    }
}

/// The price of the underlying is the first finite price above zero that a call names, else that a put
/// names, and the strike at the money where none does.
pub proof fn underlying_prices_are_usable(slice: OptionChainSlice)
    ensures
        ({
            let calls = exists|i: int|
                0 <= i < slice.calls@.len() && is_price(
                    (#[trigger] slice.calls@[i]).underlying_price,
                );
            let puts = exists|i: int|
                0 <= i < slice.puts@.len() && is_price((#[trigger] slice.puts@[i]).underlying_price);
            let price = slice_price(slice);
            &&& calls ==> is_price(price) && exists|i: int|
                0 <= i < slice.calls@.len() && (#[trigger] slice.calls@[i]).underlying_price == price
            &&& !calls && puts ==> is_price(price) && exists|i: int|
                0 <= i < slice.puts@.len() && (#[trigger] slice.puts@[i]).underlying_price == price
            &&& !calls && !puts ==> price == slice.atm_strike
        }),
{
    first_price_tells(slice.calls@);
    first_price_tells(slice.puts@);
}

/// A volatility is that of the mark, else the mean of an orderly bid and ask, else that of the bid or
/// the ask; it is finite and not negative.
pub proof fn volatilities_are_finite_and_not_negative(
    mark: Option<Amount>,
    bid: Option<Amount>,
    ask: Option<Amount>,
    middle: Amount,
)
    ensures
        ({
            let found = chosen_volatility(mark, bid, ask, middle);
            let sound = |value: Amount|
                value.bits < 0x7FF0_0000_0000_0000 || value.bits == 0x8000_0000_0000_0000;
            let finite = |value: Amount|
                value.bits < 0x7FF0_0000_0000_0000 || 0x8000_0000_0000_0000 <= value.bits
                    < 0xFFF0_0000_0000_0000;
            let orderly = bid is Some && ask is Some && finite(bid->0) && finite(ask->0)
                && bid->0.at_most(ask->0);
            let source = if mark is Some {
                mark
            } else if orderly {
                Some(middle)
            } else if bid is Some {
                bid
            } else {
                ask
            };
            &&& found is Some <==> source is Some && sound(source->0)
            &&& found is Some ==> found == source
        }),
{
}

/// An instrument belongs to a series exactly when venue, underlying, settlement currency and expiration
/// are the same and it is an option with a strike.
pub proof fn series_hold_their_options(instrument: SeriesInstrument, series: OptionSeries)
    ensures
        in_series(instrument, series) <==> {
            &&& instrument.venue@ == series.venue@
            &&& instrument.underlying matches Some(text) && text@ == series.underlying@
            &&& instrument.settlement_currency@ == series.settlement_currency@
            &&& instrument.expiration_ns matches Some(nanos) && nanos == series.expiration_ns
            &&& instrument.has_strike_price && instrument.has_option_kind
        },
{
}

/// A scan is reported with its own profile, underlying, strategy and counts, as one with a candidate
/// exactly when it gave one; the earlier reports stay.
pub proof fn scans_are_reported_as_they_were(
    before: OptionsCandidateSet,
    after: OptionsCandidateSet,
    profile: AlpacaOptionsCandidateProfile,
    result: ScanResult,
    i: int,
)
    requires
        scan_recorded(before, after, profile, result),
        0 <= i < before.scans@.len(),
    ensures
        after.scans@[i] == before.scans@[i],
        after.scans@.len() == before.scans@.len() + 1,
        ({
            let report = after.scans@.last();
            &&& report.profile == profile
            &&& report.underlying@ == result.underlying@
            &&& report.strategy@ == result.candidates.request().strategy()
            &&& report.candidate_count == result.candidates.count()
            &&& report.outcome is Candidate <==> result.candidates.count() > 0
            &&& report.reason is Some <==> result.candidates.count() == 0
            &&& report.reason matches Some(reason) ==> reason@ == result.no_candidate_reason@
            &&& report.contract_count == result.contract_count
            &&& report.snapshot_count == result.snapshot_count
            &&& report.scoreable_count == result.scoreable_count
            &&& report.rejection_counts == result.rejection_counts
        }),
{
    assert(after.scans@[i] == after.scans@.drop_last()[i]);
}

} // verus!
