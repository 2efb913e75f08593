//! Candidate-engine input from option-chain snapshots, and the scans that read it.
use vstd::prelude::*;

use crate::amount::Amount;
use crate::amount::INFINITY_BITS;
use crate::calendar::date_chars;
use crate::calendar::date_of_nanos;
use crate::calendar::date_text;
use crate::calendar::utc_date;
use crate::calendar::CalendarDate;
use crate::calendar::EPOCH_DAY;
use crate::calendar::UtcInstant;
use crate::candidate_set::record_scans;
use crate::candidate_set::recorded_in_turn;
use crate::candidate_set::AlpacaOptionsCandidateProfile;
use crate::candidate_set::OptionsCandidateSet;
use crate::candidate_set::ScanCandidates;
use crate::candidate_set::ScanRequest;
use crate::candidate_set::ScanResult;
use crate::candidates::CreditSpreadKind;
use crate::candidates::DebitSpreadKind;
use crate::candidates::IronCondorCandidate;
use crate::candidates::NakedOptionKind;
use crate::text::is_text;
use crate::text::opt_text;
use crate::text::same_text;
use crate::text_map::count_at;
use crate::text_map::keys_of;
use crate::text_map::lookup_found;
use crate::text_map::lookup_own_key;
use crate::text_map::lookup_position;
use crate::text_map::TextMap;
use crate::text_set::TextSet;

verus! {

/// A normalized option contract.
#[derive(Clone, Debug)]
pub struct CandidateContract {
    /// Option symbol.
    pub symbol: String,
    /// Expiration date.
    pub expiration_date: String,
    /// Strike price.
    pub strike: Option<Amount>,
    /// Open interest.
    pub open_interest: Option<u64>,
}

/// A normalized quote.
#[derive(Clone, Copy, Debug)]
pub struct CandidateQuote {
    /// Bid price.
    pub bid: Option<Amount>,
    /// Ask price.
    pub ask: Option<Amount>,
    /// Bid size.
    pub bid_size: u64,
    /// Ask size.
    pub ask_size: u64,
}

/// A normalized market snapshot.
#[derive(Clone, Copy, Debug)]
pub struct CandidateMarketSnapshot {
    /// Quote.
    pub quote: Option<CandidateQuote>,
    /// Delta.
    pub delta: Option<Amount>,
    /// Implied volatility.
    pub implied_volatility: Option<Amount>,
    /// Volume.
    pub volume: u64,
}

/// Normalized candidate-engine input for one side of an option-chain slice.
#[derive(Clone, Debug)]
pub struct OptionChainCandidateSide {
    /// Normalized contracts.
    pub contracts: Vec<CandidateContract>,
    /// Normalized market snapshots keyed by candidate symbol.
    pub snapshots: TextMap<CandidateMarketSnapshot>,
}

impl OptionChainCandidateSide {
    /// Returns the number of normalized contracts.
    #[must_use]
    pub fn contract_count(&self) -> (count: usize)
        ensures
            count == self.contracts@.len(),
    {
        self.contracts.len()
    }

    /// Returns the number of normalized market snapshots.
    #[must_use]
    pub fn snapshot_count(&self) -> (count: usize)
        ensures
            count == self.snapshots@.len(),
    {
        self.snapshots.len()
    }
}

/// One strike of an option-chain slice.
#[derive(Clone, Debug)]
pub struct StrikeQuote {
    /// Option symbol.
    pub symbol: String,
    /// Strike price.
    pub strike: Amount,
    /// Bid price.
    pub bid: Amount,
    /// Ask price.
    pub ask: Amount,
    /// Bid size.
    pub bid_size: u64,
    /// Ask size.
    pub ask_size: u64,
    /// Open interest.
    pub open_interest: Option<u64>,
    /// Delta.
    pub delta: Option<Amount>,
    /// Implied volatility.
    pub implied_volatility: Option<Amount>,
    /// Underlying price that the Greeks were computed with.
    pub underlying_price: Option<Amount>,
}

impl StrikeQuote {
    /// The snapshot of a strike.
    pub open spec fn as_snapshot(self) -> CandidateMarketSnapshot {
        CandidateMarketSnapshot {
            quote: Some(
                CandidateQuote {
                    bid: Some(self.bid),
                    ask: Some(self.ask),
                    bid_size: self.bid_size,
                    ask_size: self.ask_size,
                },
            ),
            delta: self.delta,
            implied_volatility: self.implied_volatility,
            volume: 0,
        }
    }
}

/// Whether a contract is that of a strike.
pub open spec fn is_contract_of(contract: CandidateContract, strike: StrikeQuote, expiration_date: Seq<char>) -> bool {
    &&& contract.symbol@ == strike.symbol@
    &&& contract.expiration_date@ == expiration_date
    &&& contract.strike == Some(strike.strike)
    &&& contract.open_interest == strike.open_interest
}

/// The snapshot that the last strike with a symbol gives.
pub open spec fn last_snapshot(strikes: Seq<StrikeQuote>, symbol: Seq<char>) -> Option<
    CandidateMarketSnapshot,
>
    decreases strikes.len(),
{
    if strikes.len() == 0 {
        None
    } else if strikes.last().symbol@ == symbol {
        Some(strikes.last().as_snapshot())
    } else {
        last_snapshot(strikes.drop_last(), symbol)
    }
}

/// Whether a side is the normalized form of some strikes.
pub open spec fn normalizes(
    side: OptionChainCandidateSide,
    strikes: Seq<StrikeQuote>,
    expiration_date: Seq<char>,
) -> bool {
    &&& side.snapshots.wf()
    &&& side.contracts@.len() == strikes.len()
    &&& forall|i: int|
        0 <= i < strikes.len() ==> is_contract_of(
            #[trigger] side.contracts@[i],
            strikes[i],
            expiration_date,
        )
    &&& forall|symbol: Seq<char>|
        #[trigger] side.snapshots.at(symbol) == last_snapshot(strikes, symbol)
}

/// Normalizes one side of an option-chain slice.
pub fn candidate_side(strikes: &Vec<StrikeQuote>, expiration_date: &str) -> (side: OptionChainCandidateSide)
    ensures
        normalizes(side, strikes@, expiration_date@),
{
    let mut contracts: Vec<CandidateContract> = Vec::new();
    let mut snapshots: TextMap<CandidateMarketSnapshot> = TextMap::new();
    let n: usize = strikes.len();
    for i in 0..n
        invariant
            n == strikes@.len(),
            snapshots.wf(),
            contracts@.len() == i,
            forall|k: int|
                0 <= k < i ==> is_contract_of(
                    #[trigger] contracts@[k],
                    strikes@[k],
                    expiration_date@,
                ),
            forall|symbol: Seq<char>|
                #[trigger] snapshots.at(symbol) == last_snapshot(strikes@.take(i as int), symbol),
    {
        let data = &strikes[i];
        let ghost before = snapshots;
        contracts.push(
            CandidateContract {
                symbol: data.symbol.clone(),
                expiration_date: expiration_date.to_owned(),
                strike: Some(data.strike),
                open_interest: data.open_interest,
            },
        );
        snapshots.insert(
            data.symbol.clone(),
            CandidateMarketSnapshot {
                quote: Some(
                    CandidateQuote {
                        bid: Some(data.bid),
                        ask: Some(data.ask),
                        bid_size: data.bid_size,
                        ask_size: data.ask_size,
                    },
                ),
                delta: data.delta,
                implied_volatility: data.implied_volatility,
                volume: 0,
            },
        );
        proof {
            let next = strikes@.take(i + 1);
            assert(next.drop_last() =~= strikes@.take(i as int));
            assert(next.last() == *data);
            assert forall|symbol: Seq<char>|
                #[trigger] snapshots.at(symbol) == last_snapshot(next, symbol) by {
                assert(before.at(symbol) == last_snapshot(strikes@.take(i as int), symbol));
            }
        }
    }
    assert(strikes@.take(n as int) =~= strikes@);
    OptionChainCandidateSide { contracts, snapshots }
}

/// One option-chain slice.
#[derive(Clone, Debug)]
pub struct OptionChainSlice {
    /// Underlying symbol.
    pub underlying: String,
    /// Expiration in nanoseconds since 1970.
    pub expiration_ns: u64,
    /// Call strikes in strike order.
    pub calls: Vec<StrikeQuote>,
    /// Put strikes in strike order.
    pub puts: Vec<StrikeQuote>,
    /// Strike at the money.
    pub atm_strike: Option<Amount>,
}

/// Normalized candidate-engine input for one option-chain slice.
#[derive(Clone, Debug)]
pub struct OptionChainCandidateInput {
    /// Underlying symbol from the option series.
    pub underlying: String,
    /// Expiration date shared by the option series.
    pub expiration_date: String,
    /// Call-side candidates.
    pub calls: OptionChainCandidateSide,
    /// Put-side candidates.
    pub puts: OptionChainCandidateSide,
    /// Underlying price from Greeks or ATM strike, when available.
    pub underlying_price: Option<Amount>,
}

/// Whether a price is a finite number above zero.
pub open spec fn usable_price(price: Option<Amount>) -> bool {
    match price {
        Some(value) => value.magnitude() < INFINITY_BITS && value.above_zero(),
        None => false,
    }
}

/// The first usable underlying price of some strikes.
pub open spec fn first_price(strikes: Seq<StrikeQuote>) -> Option<Amount>
    decreases strikes.len(),
{
    if strikes.len() == 0 {
        None
    } else if usable_price(strikes[0].underlying_price) {
        strikes[0].underlying_price
    } else {
        first_price(strikes.drop_first())
    }
}

/// The underlying price of a slice: the first usable one of its calls, then of its puts, else the
/// strike at the money.
pub open spec fn slice_price(slice: OptionChainSlice) -> Option<Amount> {
    match first_price(slice.calls@) {
        Some(price) => Some(price),
        None => match first_price(slice.puts@) {
            Some(price) => Some(price),
            None => slice.atm_strike,
        },
    }
}

fn first_usable_price(strikes: &Vec<StrikeQuote>) -> (price: Option<Amount>)
    ensures
        price == first_price(strikes@),
{
    let n: usize = strikes.len();
    let ghost all = strikes@;
    assert(all.skip(0) =~= all);
    for i in 0..n
        invariant
            all == strikes@,
            n == all.len(),
            first_price(all) == first_price(all.skip(i as int)),
    {
        match strikes[i].underlying_price {
            Some(price) => {
                if price.is_above_zero() && price.bits < INFINITY_BITS {
                    return Some(price);
                }
            },
            None => {},
        }
        assert(all.skip(i as int).drop_first() =~= all.skip(i + 1));
    }
    None
}

/// Returns the underlying price of a slice.
pub fn underlying_price(slice: &OptionChainSlice) -> (price: Option<Amount>)
    ensures
        price == slice_price(*slice),
{
    match first_usable_price(&slice.calls) {
        Some(price) => Some(price),
        None => match first_usable_price(&slice.puts) {
            Some(price) => Some(price),
            None => slice.atm_strike,
        },
    }
}

/// The implied volatility of an option: the mark, else the middle of an orderly bid and ask, else the
/// bid, else the ask; and none that is negative or not finite.
pub open spec fn chosen_volatility(
    mark: Option<Amount>,
    bid: Option<Amount>,
    ask: Option<Amount>,
    middle: Amount,
) -> Option<Amount> {
    let orderly = match (bid, ask) {
        (Some(b), Some(a)) => b.magnitude() < INFINITY_BITS && a.magnitude() < INFINITY_BITS
            && b.at_most(a),
        _ => false,
    };
    let found = if mark is Some {
        mark
    } else if orderly {
        Some(middle)
    } else if bid is Some {
        bid
    } else {
        ask
    };
    match found {
        Some(value) => if value.magnitude() < INFINITY_BITS && value.rank() >= 0 {
            found
        } else {
            None
        },
        None => None,
    }
}

/// Returns the implied volatility of an option. `middle` is the mean of bid and ask.
pub fn implied_volatility(
    mark: Option<Amount>,
    bid: Option<Amount>,
    ask: Option<Amount>,
    middle: Amount,
) -> (volatility: Option<Amount>)
    ensures
        volatility == chosen_volatility(mark, bid, ask, middle),
{
    let orderly: bool = match (bid, ask) {
        (Some(b), Some(a)) => b.is_finite() && a.is_finite() && b.is_at_most(a),
        _ => false,
    };
    let found = if mark.is_some() {
        mark
    } else if orderly {
        Some(middle)
    } else if bid.is_some() {
        bid
    } else {
        ask
    };
    match found {
        Some(value) => {
            if value.is_finite() && !value.is_below(Amount { bits: 0 }) {
                found
            } else {
                None
            }
        },
        None => None,
    }
}

/// Converts an option-chain slice into candidate-engine inputs.
#[must_use]
pub fn option_chain_candidate_input(slice: &OptionChainSlice) -> (input: OptionChainCandidateInput)
    ensures
        input.underlying == slice.underlying,
        exists|date: CalendarDate|
            #![trigger date_chars(date)]
            date.valid() && date.day_number() == slice.expiration_ns as int / 86_400_000_000_000
                + EPOCH_DAY && input.expiration_date@ == date_chars(date),
        normalizes(input.calls, slice.calls@, input.expiration_date@),
        normalizes(input.puts, slice.puts@, input.expiration_date@),
        input.underlying_price == slice_price(*slice),
{
    let date = date_of_nanos(slice.expiration_ns);
    let expiration_date = date_text(date);
    assert(expiration_date@ == date_chars(date));
    let calls = candidate_side(&slice.calls, expiration_date.as_str());
    let puts = candidate_side(&slice.puts, expiration_date.as_str());
    OptionChainCandidateInput {
        underlying: slice.underlying.clone(),
        expiration_date,
        calls,
        puts,
        underlying_price: underlying_price(slice),
    }
}

impl OptionChainCandidateInput {
    /// The side of a request.
    pub open spec fn side(self, puts: bool) -> OptionChainCandidateSide {
        if puts {
            self.puts
        } else {
            self.calls
        }
    }

    /// Returns the side that a credit spread trades.
    pub fn side_for_credit(&self, kind: CreditSpreadKind) -> (side: &OptionChainCandidateSide)
        ensures
            *side == self.side(kind is Put),
    {
        match kind {
            CreditSpreadKind::Put => &self.puts,
            CreditSpreadKind::Call => &self.calls,
        }
    }

    /// Returns the side that a debit spread trades.
    pub fn side_for_debit(&self, kind: DebitSpreadKind) -> (side: &OptionChainCandidateSide)
        ensures
            *side == self.side(kind is Put),
    {
        match kind {
            DebitSpreadKind::Put => &self.puts,
            DebitSpreadKind::Call => &self.calls,
        }
    }

    /// Returns the side that a naked option trades.
    pub fn side_for_naked(&self, kind: NakedOptionKind) -> (side: &OptionChainCandidateSide)
        ensures
            *side == self.side(kind is Put || kind is PutOneToThreeDte),
    {
        match kind {
            NakedOptionKind::Put | NakedOptionKind::PutOneToThreeDte => &self.puts,
            NakedOptionKind::Call | NakedOptionKind::CallOneToThreeDte => &self.calls,
        }
    }
}

// ---------------------------------------------------------------------------------------------
// Scan results
// ---------------------------------------------------------------------------------------------

/// Whether counts can be added without overflow.
pub open spec fn counts_fit(a: TextMap<usize>, b: TextMap<usize>) -> bool {
    forall|k: Seq<char>| #[trigger] count_at(a, k) + count_at(b, k) <= usize::MAX
}

/// Adds the counts of `other`.
pub fn merge_rejection_counts(counts: &mut TextMap<usize>, other: &TextMap<usize>)
    requires
        old(counts).wf(),
        other.wf(),
        counts_fit(*old(counts), *other),
    ensures
        final(counts).wf(),
        forall|k: Seq<char>|
            #[trigger] count_at(*final(counts), k) == count_at(*old(counts), k) + count_at(*other, k),
        forall|k: Seq<char>|
            #[trigger] final(counts).at(k) is Some <==> old(counts).at(k) is Some || other.at(k) is Some,
{
    let n: usize = other.len();
    for i in 0..n
        invariant
            n == other@.len(),
            other.wf(),
            counts.wf(),
            counts_fit(*old(counts), *other),
            forall|k: Seq<char>|
                #[trigger] count_at(*counts, k) == count_at(*old(counts), k) + (if keys_of(
                    other@,
                ).take(i as int).contains(k) {
                    count_at(*other, k)
                } else {
                    0
                }),
            forall|k: Seq<char>|
                #[trigger] counts.at(k) is Some <==> old(counts).at(k) is Some || keys_of(
                    other@,
                ).take(i as int).contains(k),
    {
        let ghost before = *counts;
        let ghost key = other@[i as int].0@;
        let ghost keys = keys_of(other@);
        proof {
            lookup_own_key(other@, i as int);
            assert(keys[i as int] == key);
            if keys.take(i as int).contains(key) {
                let j = keys.take(i as int).index_of(key);
                assert(crate::text::text_lt(keys[j], keys[i as int]));
                crate::text::text_lt_irreflexive(key);
            }
            assert(count_at(*old(counts), key) + count_at(*other, key) <= usize::MAX);
            assert(count_at(*counts, key) == count_at(*old(counts), key));
        }
        counts.add_count(other.key(i), *other.value(i));
        proof {
            assert forall|k: Seq<char>|
                #[trigger] count_at(*counts, k) == count_at(*old(counts), k) + (if keys.take(
                    i + 1,
                ).contains(k) {
                    count_at(*other, k)
                } else {
                    0
                }) by {
                crate::text_set::lemma_take_contains(keys, i as int, k);
                assert(count_at(before, k) == count_at(*old(counts), k) + (if keys.take(
                    i as int,
                ).contains(k) {
                    count_at(*other, k)
                } else {
                    0
                }));
                if k != key {
                    assert(counts.at(k) == before.at(k));
                }
            }
            assert forall|k: Seq<char>|
                #[trigger] counts.at(k) is Some <==> old(counts).at(k) is Some || keys.take(
                    i + 1,
                ).contains(k) by {
                crate::text_set::lemma_take_contains(keys, i as int, k);
                assert(before.at(k) is Some <==> old(counts).at(k) is Some || keys.take(
                    i as int,
                ).contains(k));
                if k != key {
                    assert(counts.at(k) == before.at(k));
                }
            }
        }
    }
    proof {
        let keys = keys_of(other@);
        assert(keys.take(n as int) =~= keys);
        assert forall|k: Seq<char>| keys.contains(k) <==> #[trigger] other.at(k) is Some by {
            if keys.contains(k) {
                lookup_found(other@, k, keys.index_of(k));
            }
            if other.at(k) is Some {
                let at = lookup_position(other@, k);
                assert(keys[at] == k);
            }
        }
        assert forall|k: Seq<char>|
            #[trigger] count_at(*counts, k) == count_at(*old(counts), k) + count_at(*other, k) by {
            assert(keys.contains(k) <==> other.at(k) is Some);
        }
        assert forall|k: Seq<char>|
            #[trigger] counts.at(k) is Some <==> old(counts).at(k) is Some || other.at(k) is Some by {
            assert(keys.contains(k) <==> other.at(k) is Some);
        }
    }
}

/// What scoring and ranking one side gave.
#[derive(Clone, Debug)]
pub struct ScoredSide {
    /// Number of scoreable contracts.
    pub scoreable_count: usize,
    /// Reasons for which contracts were not scoreable.
    pub scoring_rejections: TextMap<usize>,
    /// Reasons for which no candidate was built.
    pub build_rejections: TextMap<usize>,
    /// Ranked candidates.
    pub candidates: ScanCandidates,
}

/// Whether a result reports a side: its counts, and the rejections of both steps together.
pub open spec fn reports_side(
    result: ScanResult,
    underlying: Seq<char>,
    side: OptionChainCandidateSide,
    scored: ScoredSide,
    no_candidate_reason: Seq<char>,
) -> bool {
    &&& result.underlying@ == underlying
    &&& result.contract_count == side.contracts@.len()
    &&& result.snapshot_count == side.snapshots@.len()
    &&& result.scoreable_count == scored.scoreable_count
    &&& result.rejection_counts.wf()
    &&& forall|k: Seq<char>|
        #[trigger] count_at(result.rejection_counts, k) == count_at(scored.scoring_rejections, k)
            + count_at(scored.build_rejections, k)
    &&& result.candidates == scored.candidates
    &&& result.no_candidate_reason@ == no_candidate_reason
}

/// Reports the scan of one side.
pub fn scan_option_chain_side(
    underlying: &str,
    side: &OptionChainCandidateSide,
    scored: ScoredSide,
    no_candidate_reason: &str,
) -> (result: ScanResult)
    requires
        scored.scoring_rejections.wf(),
        scored.build_rejections.wf(),
        counts_fit(scored.scoring_rejections, scored.build_rejections),
    ensures
        reports_side(result, underlying@, *side, scored, no_candidate_reason@),
{
    let mut rejection_counts = scored.scoring_rejections;
    merge_rejection_counts(&mut rejection_counts, &scored.build_rejections);
    ScanResult {
        underlying: underlying.to_owned(),
        contract_count: side.contract_count(),
        snapshot_count: side.snapshot_count(),
        scoreable_count: scored.scoreable_count,
        rejection_counts,
        candidates: scored.candidates,
        no_candidate_reason: no_candidate_reason.to_owned(),
    }
}

/// Reports the credit-spread scan of a slice.
pub fn scan_credit_spread_option_chain(
    input: &OptionChainCandidateInput,
    kind: CreditSpreadKind,
    scored: ScoredSide,
    no_candidate_reason: &str,
) -> (result: ScanResult)
    requires
        scored.scoring_rejections.wf(),
        scored.build_rejections.wf(),
        counts_fit(scored.scoring_rejections, scored.build_rejections),
    ensures
        reports_side(
            result,
            input.underlying@,
            input.side(kind is Put),
            scored,
            no_candidate_reason@,
        ),
{
    scan_option_chain_side(
        input.underlying.as_str(),
        input.side_for_credit(kind),
        scored,
        no_candidate_reason,
    )
}

/// Reports the debit-spread scan of a slice.
pub fn scan_debit_spread_option_chain(
    input: &OptionChainCandidateInput,
    kind: DebitSpreadKind,
    scored: ScoredSide,
    no_candidate_reason: &str,
) -> (result: ScanResult)
    requires
        scored.scoring_rejections.wf(),
        scored.build_rejections.wf(),
        counts_fit(scored.scoring_rejections, scored.build_rejections),
    ensures
        reports_side(
            result,
            input.underlying@,
            input.side(kind is Put),
            scored,
            no_candidate_reason@,
        ),
{
    scan_option_chain_side(
        input.underlying.as_str(),
        input.side_for_debit(kind),
        scored,
        no_candidate_reason,
    )
}

/// Reports the naked-option scan of a slice. Without an underlying price nothing is scored: `scored`
/// is what scoring with the price gave.
pub fn scan_naked_option_chain(
    input: &OptionChainCandidateInput,
    kind: NakedOptionKind,
    scored: ScoredSide,
    no_candidate_reason: &str,
) -> (result: ScanResult)
    requires
        scored.scoring_rejections.wf(),
        scored.build_rejections.wf(),
        counts_fit(scored.scoring_rejections, scored.build_rejections),
    ensures
        input.underlying_price is Some ==> reports_side(
            result,
            input.underlying@,
            input.side(kind is Put || kind is PutOneToThreeDte),
            scored,
            no_candidate_reason@,
        ),
        input.underlying_price is None ==> {
            let side = input.side(kind is Put || kind is PutOneToThreeDte);
            &&& result.underlying@ == input.underlying@
            &&& result.contract_count == side.contracts@.len()
            &&& result.snapshot_count == side.snapshots@.len()
            &&& result.scoreable_count == 0
            &&& result.rejection_counts.wf()
            &&& forall|k: Seq<char>|
                #[trigger] result.rejection_counts.at(k) == if k == "missing_underlying_price"@ {
                    Some(1usize)
                } else {
                    None
                }
            &&& result.candidates.request() == ScanRequest::Naked(kind)
            &&& result.candidates.count() == 0
            &&& result.no_candidate_reason@ == no_candidate_reason@
        },
{
    let side = input.side_for_naked(kind);
    if input.underlying_price.is_none() {
        let mut rejection_counts: TextMap<usize> = TextMap::new();
        let ghost empty = rejection_counts;
        rejection_counts.add_count("missing_underlying_price", 1);
        proof {
            assert forall|k: Seq<char>|
                #[trigger] rejection_counts.at(k) == if k == "missing_underlying_price"@ {
                    Some(1usize)
                } else {
                    None
                } by {
                assert(empty.at(k) is None);
            }
        }
        return ScanResult {
            underlying: input.underlying.clone(),
            contract_count: side.contract_count(),
            snapshot_count: side.snapshot_count(),
            scoreable_count: 0,
            rejection_counts,
            candidates: ScanCandidates::Naked(kind, Vec::new()),
            no_candidate_reason: no_candidate_reason.to_owned(),
        };
    }
    scan_option_chain_side(input.underlying.as_str(), side, scored, no_candidate_reason)
}

/// Reports the iron-condor scan of a slice from the credit scans of both sides: the counts add up, and
/// the rejections are those of both sides and of building the condors.
pub fn scan_iron_condor_option_chain(
    underlying: &str,
    put: &ScanResult,
    call: &ScanResult,
    build_rejections: &TextMap<usize>,
    candidates: Vec<IronCondorCandidate>,
    no_candidate_reason: &str,
) -> (result: ScanResult)
    requires
        put.contract_count + call.contract_count <= usize::MAX,
        put.snapshot_count + call.snapshot_count <= usize::MAX,
        put.scoreable_count + call.scoreable_count <= usize::MAX,
        put.rejection_counts.wf(),
        call.rejection_counts.wf(),
        build_rejections.wf(),
        forall|k: Seq<char>|
            #[trigger] count_at(put.rejection_counts, k) + count_at(call.rejection_counts, k)
                + count_at(*build_rejections, k) <= usize::MAX,
    ensures
        result.underlying@ == underlying@,
        result.contract_count == put.contract_count + call.contract_count,
        result.snapshot_count == put.snapshot_count + call.snapshot_count,
        result.scoreable_count == put.scoreable_count + call.scoreable_count,
        result.rejection_counts.wf(),
        forall|k: Seq<char>|
            #[trigger] count_at(result.rejection_counts, k) == count_at(put.rejection_counts, k)
                + count_at(call.rejection_counts, k) + count_at(*build_rejections, k),
        result.candidates == ScanCandidates::IronCondor(candidates),
        result.no_candidate_reason@ == no_candidate_reason@,
{
    let mut rejection_counts: TextMap<usize> = TextMap::new();
    proof {
        assert forall|k: Seq<char>| #[trigger] count_at(rejection_counts, k) + count_at(
            put.rejection_counts,
            k,
        ) <= usize::MAX by {}
    }
    merge_rejection_counts(&mut rejection_counts, &put.rejection_counts);
    proof {
        assert forall|k: Seq<char>| #[trigger] count_at(rejection_counts, k) + count_at(
            call.rejection_counts,
            k,
        ) <= usize::MAX by {
            assert(count_at(put.rejection_counts, k) + count_at(call.rejection_counts, k)
                + count_at(*build_rejections, k) <= usize::MAX);
        }
    }
    merge_rejection_counts(&mut rejection_counts, &call.rejection_counts);
    proof {
        assert forall|k: Seq<char>| #[trigger] count_at(rejection_counts, k) + count_at(
            *build_rejections,
            k,
        ) <= usize::MAX by {
            assert(count_at(put.rejection_counts, k) + count_at(call.rejection_counts, k)
                + count_at(*build_rejections, k) <= usize::MAX);
        }
    }
    merge_rejection_counts(&mut rejection_counts, build_rejections);
    ScanResult {
        underlying: underlying.to_owned(),
        contract_count: put.contract_count + call.contract_count,
        snapshot_count: put.snapshot_count + call.snapshot_count,
        scoreable_count: put.scoreable_count + call.scoreable_count,
        rejection_counts,
        candidates: ScanCandidates::IronCondor(candidates),
        no_candidate_reason: no_candidate_reason.to_owned(),
    }
}

// ---------------------------------------------------------------------------------------------
// Scan plans
// ---------------------------------------------------------------------------------------------

/// Which families are scanned on every slice.
#[derive(Clone, Debug)]
pub struct OptionChainOpportunityScanConfig {
    /// Enabled credit-spread kinds.
    pub spread_kinds: Vec<CreditSpreadKind>,
    /// Whether to scan iron-condor candidates.
    pub iron_condor_enabled: bool,
    /// Enabled debit-spread kinds.
    pub debit_kinds: Vec<DebitSpreadKind>,
    /// Enabled naked-option kinds.
    pub naked_kinds: Vec<NakedOptionKind>,
    /// Quantity used for buying-power estimates.
    pub quantity: u64,
}

impl Default for OptionChainOpportunityScanConfig {
    fn default() -> (config: OptionChainOpportunityScanConfig)
        ensures
            config.spread_kinds@ == seq![CreditSpreadKind::Put],
            !config.iron_condor_enabled,
            config.debit_kinds@.len() == 0,
            config.naked_kinds@.len() == 0,
            config.quantity == 1,
    {
        let spread_kinds = vec![CreditSpreadKind::Put];
        assert(spread_kinds@ =~= seq![CreditSpreadKind::Put]);
        OptionChainOpportunityScanConfig {
            spread_kinds,
            iron_condor_enabled: false,
            debit_kinds: Vec::new(),
            naked_kinds: Vec::new(),
            quantity: 1,
        }
    }
}

/// The scans of a slice in order: credit spreads, iron condors, debit spreads, naked options.
pub open spec fn slice_scans(config: OptionChainOpportunityScanConfig) -> Seq<ScanRequest> {
    Seq::new(config.spread_kinds@.len(), |i: int| ScanRequest::Credit(config.spread_kinds@[i]))
        + (if config.iron_condor_enabled {
        seq![ScanRequest::IronCondor]
    } else {
        Seq::empty()
    }) + Seq::new(config.debit_kinds@.len(), |i: int| ScanRequest::Debit(config.debit_kinds@[i]))
        + Seq::new(config.naked_kinds@.len(), |i: int| ScanRequest::Naked(config.naked_kinds@[i]))
}

/// Returns the scans of a slice in order.
pub fn option_chain_scans(config: &OptionChainOpportunityScanConfig) -> (scans: Vec<ScanRequest>)
    ensures
        scans@ == slice_scans(*config),
{
    let mut scans: Vec<ScanRequest> = Vec::new();
    for i in 0..config.spread_kinds.len()
        invariant
            scans@.len() == i,
            forall|k: int| 0 <= k < i ==> scans@[k] == ScanRequest::Credit(config.spread_kinds@[k]),
    {
        scans.push(ScanRequest::Credit(config.spread_kinds[i]));
    }
    if config.iron_condor_enabled {
        scans.push(ScanRequest::IronCondor);
    }
    let ghost credit = scans@;
    for i in 0..config.debit_kinds.len()
        invariant
            scans@ == credit + Seq::new(
                i as nat,
                |k: int| ScanRequest::Debit(config.debit_kinds@[k]),
            ),
    {
        scans.push(ScanRequest::Debit(config.debit_kinds[i]));
        assert(scans@ =~= credit + Seq::new(
            (i + 1) as nat,
            |k: int| ScanRequest::Debit(config.debit_kinds@[k]),
        ));
    }
    let ghost debit = scans@;
    for i in 0..config.naked_kinds.len()
        invariant
            scans@ == debit + Seq::new(
                i as nat,
                |k: int| ScanRequest::Naked(config.naked_kinds@[k]),
            ),
    {
        scans.push(ScanRequest::Naked(config.naked_kinds[i]));
        assert(scans@ =~= debit + Seq::new(
            (i + 1) as nat,
            |k: int| ScanRequest::Naked(config.naked_kinds@[k]),
        ));
    }
    assert(scans@ =~= slice_scans(*config));
    scans
}

/// Discovers ranked option opportunities from the scans of one option-chain slice, all under one
/// profile.
#[must_use]
pub fn scan_option_chain_opportunities(
    trade_date: &str,
    profile: &AlpacaOptionsCandidateProfile,
    results: Vec<ScanResult>,
) -> (set: OptionsCandidateSet)
    ensures
        set.wf(),
        set.trade_date@ == trade_date@,
        set.scans@.len() == results@.len(),
        exists|steps: Seq<OptionsCandidateSet>|
            recorded_in_turn(
                steps,
                Seq::new(results@.len(), |i: int| *profile),
                results@,
            ) && #[trigger] steps.last() == set,
{
    let mut profiles: Vec<AlpacaOptionsCandidateProfile> = Vec::new();
    for i in 0..results.len()
        invariant
            profiles@ == Seq::new(i as nat, |k: int| *profile),
    {
        profiles.push(profile.copy());
        assert(profiles@ =~= Seq::new((i + 1) as nat, |k: int| *profile));
    }
    record_scans(trade_date, &profiles, results)
}

/// Returns the scanner settings for a naked-option kind.
pub fn naked_scanner_for<'a, T>(kind: NakedOptionKind, one_to_three_dte: &'a T, other: &'a T) -> (scanner: &'a T)
    ensures
        *scanner == if kind is PutOneToThreeDte || kind is CallOneToThreeDte {
            *one_to_three_dte
        } else {
            *other
        },
{
    if kind.is_one_to_three_dte() {
        one_to_three_dte
    } else {
        other
    }
}

/// Returns the date of a scan: that of the slice, unless its clock stands before 2000, else today's.
pub fn scan_date_from_timestamp(ts_event: u64, now: UtcInstant) -> (date: CalendarDate)
    requires
        now.valid(),
    ensures
        date.valid(),
        exists|slice_date: CalendarDate|
            #![trigger slice_date.valid()]
            slice_date.valid() && slice_date.day_number() == ts_event as int / 86_400_000_000_000
                + EPOCH_DAY && if slice_date.year < 2000 {
                date.day_number() == now.utc_day()
            } else {
                date == slice_date
            },
{
    let slice_date = date_of_nanos(ts_event);
    assert(slice_date.valid());
    if slice_date.year < 2000 {
        utc_date(now)
    } else {
        slice_date
    }
}

// ---------------------------------------------------------------------------------------------
// Series
// ---------------------------------------------------------------------------------------------

/// An option series.
#[derive(Clone, Debug)]
pub struct OptionSeries {
    /// Text of the series ID.
    pub id: String,
    /// Venue.
    pub venue: String,
    /// Underlying symbol.
    pub underlying: String,
    /// Settlement currency.
    pub settlement_currency: String,
    /// Expiration in nanoseconds since 1970.
    pub expiration_ns: u64,
}

/// An instrument, as far as its series depends on it.
#[derive(Clone, Debug)]
pub struct SeriesInstrument {
    /// Venue.
    pub venue: String,
    /// Underlying symbol.
    pub underlying: Option<String>,
    /// Settlement currency.
    pub settlement_currency: String,
    /// Expiration in nanoseconds since 1970.
    pub expiration_ns: Option<u64>,
    /// Whether the instrument has a strike price.
    pub has_strike_price: bool,
    /// Whether the instrument is a put or a call.
    pub has_option_kind: bool,
}

/// Whether an instrument belongs to a series.
pub open spec fn in_series(instrument: SeriesInstrument, series: OptionSeries) -> bool {
    &&& instrument.venue@ == series.venue@
    &&& opt_text(instrument.underlying) == Some(series.underlying@)
    &&& instrument.expiration_ns == Some(series.expiration_ns)
    &&& instrument.settlement_currency@ == series.settlement_currency@
    &&& instrument.has_strike_price
    &&& instrument.has_option_kind
}

/// Returns whether an instrument belongs to a series.
pub fn instrument_belongs_to_series(instrument: &SeriesInstrument, series: &OptionSeries) -> (yes: bool)
    ensures
        yes == in_series(*instrument, *series),
{
    let expires: bool = match instrument.expiration_ns {
        Some(expiration_ns) => expiration_ns == series.expiration_ns,
        None => false,
    };
    same_text(instrument.venue.as_str(), series.venue.as_str()) && is_text(
        &instrument.underlying,
        series.underlying.as_str(),
    ) && expires && same_text(
        instrument.settlement_currency.as_str(),
        series.settlement_currency.as_str(),
    ) && instrument.has_strike_price && instrument.has_option_kind
}

/// Whether an instrument belongs to one of the first `n` series with an ID.
pub open spec fn named_before(
    series: Seq<OptionSeries>,
    instrument: SeriesInstrument,
    id: Seq<char>,
    n: int,
) -> bool {
    exists|k: int|
        0 <= k < n && k < series.len() && in_series(instrument, #[trigger] series[k]) && series[k].id@
            == id
}

/// The positions of the series among the first `n` that an instrument newly subscribes to: each ID
/// that was not subscribed, at its first position.
pub open spec fn fresh_positions(
    series: Seq<OptionSeries>,
    instrument: SeriesInstrument,
    subscribed: TextSet,
    n: nat,
) -> Seq<usize>
    decreases n,
{
    if n == 0 || n > series.len() {
        Seq::empty()
    } else {
        let earlier = fresh_positions(series, instrument, subscribed, (n - 1) as nat);
        let last = series[n - 1];
        if in_series(instrument, last) && !subscribed.has(last.id@) && !named_before(
            series,
            instrument,
            last.id@,
            n - 1,
        ) {
            earlier.push((n - 1) as usize)
        } else {
            earlier
        }
    }
}

/// Subscribes to each series that an instrument belongs to, once; returns the positions of those that
/// are new.
pub fn subscribe_for_instrument(
    series: &Vec<OptionSeries>,
    instrument: &SeriesInstrument,
    subscribed: &mut TextSet,
) -> (fresh: Vec<usize>)
    requires
        old(subscribed).wf(),
    ensures
        final(subscribed).wf(),
        forall|x: Seq<char>|
            #[trigger] final(subscribed).has(x) <==> old(subscribed).has(x) || named_before(
                series@,
                *instrument,
                x,
                series@.len() as int,
            ),
        fresh@ == fresh_positions(series@, *instrument, *old(subscribed), series@.len()),
{
    let mut fresh: Vec<usize> = Vec::new();
    let n: usize = series.len();
    for i in 0..n
        invariant
            n == series@.len(),
            subscribed.wf(),
            forall|x: Seq<char>|
                #[trigger] subscribed.has(x) <==> old(subscribed).has(x) || named_before(
                    series@,
                    *instrument,
                    x,
                    i as int,
                ),
            fresh@ == fresh_positions(series@, *instrument, *old(subscribed), i as nat),
    {
        let ghost before = *subscribed;
        if instrument_belongs_to_series(instrument, &series[i]) {
            if subscribed.insert(series[i].id.clone()) {
                fresh.push(i);
            }
        }
        proof {
            assert forall|x: Seq<char>|
                #[trigger] subscribed.has(x) <==> old(subscribed).has(x) || named_before(
                    series@,
                    *instrument,
                    x,
                    i + 1,
                ) by {
                assert(before.has(x) <==> old(subscribed).has(x) || named_before(
                    series@,
                    *instrument,
                    x,
                    i as int,
                ));
                if in_series(*instrument, series@[i as int]) && series@[i as int].id@ == x {
                    assert(in_series(*instrument, series@[i as int]));
                }
            }
        }
    }
    fresh
}

} // verus!
