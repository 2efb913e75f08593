//! Quote freshness and quote subscriptions.
use vstd::prelude::*;

use crate::admission::opt_block;
use crate::admission::plain_block;
use crate::admission::BlockView;
use crate::admission::SubmissionBlock;
use crate::calendar::UtcInstant;
use crate::candidate_set::OptionsCandidateSet;
use crate::candidate_set::ProfiledOptionsEntry;
use crate::entry::SelectedOptionsEntry;
use crate::state::StrategyState;
use crate::state::StrategyStateEntry;
use crate::symbol::alpaca_instrument_id;
use crate::symbol::instrument_chars;
use crate::symbol::is_visible;
use crate::text::slices;
use crate::text::texts;
use crate::text_map::TextMap;
use crate::text_set::filter_step;
use crate::text_set::lemma_take_contains;
use crate::text_set::without;
use crate::text_set::TextSet;

verus! {

/// The age in whole seconds of a quote with a timestamp in nanoseconds; none when the clock stands
/// before 1970 or past the range of signed nanoseconds.
pub open spec fn quote_age(ts_event: u64, now: UtcInstant) -> Option<int> {
    let clock = now.secs * 1_000_000_000 + now.nanos;
    if clock < 0 || clock > i64::MAX {
        None
    } else if clock < ts_event {
        Some(0)
    } else {
        Some((clock - ts_event) / 1_000_000_000)
    }
}

/// Returns the age in whole seconds of a quote.
pub fn quote_age_secs(ts_event: u64, now: UtcInstant) -> (age: Option<u64>)
    ensures
        match age {
            Some(secs) => quote_age(ts_event, now) == Some(secs as int),
            None => quote_age(ts_event, now) is None,
        },
{
    let clock: i128 = now.secs as i128 * 1_000_000_000 + now.nanos as i128;
    if clock < 0 || clock > i64::MAX as i128 {
        None
    } else {
        let clock: u64 = clock as u64;
        if clock < ts_event {
            Some(0)
        } else {
            Some((clock - ts_event) / 1_000_000_000)
        }
    }
}

/// Whether the quote of a symbol is older than a limit; a symbol without a quote has none that is.
pub open spec fn quote_stale(symbol: Seq<char>, quotes: TextMap<u64>, limit: u64, now: UtcInstant) -> bool {
    is_visible(symbol) && match quotes.at(symbol) {
        Some(ts_event) => match quote_age(ts_event, now) {
            Some(age) => age > limit,
            None => false,
        },
        None => false,
    }
}

/// The symbols whose quotes are older than a limit; a limit of zero is none.
pub open spec fn stale_ones(
    symbols: Seq<Seq<char>>,
    quotes: TextMap<u64>,
    limit: u64,
    now: UtcInstant,
) -> Seq<Seq<char>> {
    if limit == 0 {
        Seq::empty()
    } else {
        symbols.filter(|symbol: Seq<char>| quote_stale(symbol, quotes, limit, now))
    }
}

fn is_quote_stale(symbol: &str, quotes: &TextMap<u64>, limit: u64, now: UtcInstant) -> (stale: bool)
    ensures
        stale == quote_stale(symbol@, *quotes, limit, now),
{
    match alpaca_instrument_id(symbol) {
        Some(_id) => match quotes.get(symbol) {
            Some(ts_event) => match quote_age_secs(*ts_event, now) {
                Some(age) => age > limit,
                None => false,
            },
            None => false,
        },
        None => false,
    }
}

fn stale_symbols(symbols: &Vec<&str>, quotes: &TextMap<u64>, limit: u64, now: UtcInstant) -> (stale: Vec<
    String,
>)
    ensures
        texts(stale@) == stale_ones(slices(symbols@), *quotes, limit, now),
{
    let mut stale: Vec<String> = Vec::new();
    if limit == 0 {
        assert(texts(stale@) =~= Seq::<Seq<char>>::empty());
        return stale;
    }
    let n: usize = symbols.len();
    let ghost old_test = |symbol: Seq<char>| quote_stale(symbol, *quotes, limit, now);
    assert(texts(stale@) =~= slices(symbols@).take(0).filter(old_test)) by {
        reveal(Seq::filter);
    }
    for i in 0..n
        invariant
            n == symbols@.len(),
            limit > 0,
            old_test == (|symbol: Seq<char>| quote_stale(symbol, *quotes, limit, now)),
            texts(stale@) == slices(symbols@).take(i as int).filter(old_test),
    {
        proof {
            filter_step(slices(symbols@), i as int, old_test);
        }
        if is_quote_stale(symbols[i], quotes, limit, now) {
            let ghost before = stale@;
            stale.push(symbols[i].to_owned());
            assert(texts(stale@) =~= texts(before).push(symbols@[i as int]@));
        }
    }
    assert(slices(symbols@).take(n as int) =~= slices(symbols@));
    stale
}

/// A list of symbols as block details.
pub open spec fn symbol_details(symbols: Seq<Seq<char>>) -> Seq<Seq<char>> {
    Seq::new(symbols.len(), |i: int| "symbol="@ + symbols[i])
}

/// The block on an entry with stale quotes.
pub open spec fn freshness_block(
    entry: SelectedOptionsEntry,
    quotes: TextMap<u64>,
    limit: u64,
    now: UtcInstant,
) -> Option<BlockView> {
    let stale = stale_ones(entry.symbols(), quotes, limit, now);
    if stale.len() == 0 {
        None
    } else {
        Some(plain_block("active_risk_quote_stale"@, symbol_details(stale)))
    }
}

/// Returns the block on an entry with stale quotes. `quotes` holds the time of the last quote of each
/// symbol, in nanoseconds.
pub fn selected_entry_quote_freshness_block(
    entry: &SelectedOptionsEntry,
    quotes: &TextMap<u64>,
    limit: u64,
    now: UtcInstant,
) -> (made: Option<SubmissionBlock>)
    ensures
        opt_block(made) == freshness_block(*entry, *quotes, limit, now),
{
    let stale = stale_symbols(&entry.option_symbols(), quotes, limit, now);
    let n: usize = stale.len();
    if n == 0 {
        assert(texts(stale@).len() == 0);
        return None;
    }
    let mut details: Vec<String> = Vec::new();
    for i in 0..n
        invariant
            n == stale@.len(),
            details@.len() == i,
            forall|k: int| 0 <= k < i ==> (#[trigger] details@[k])@ == "symbol="@ + stale@[k]@,
    {
        details.push("symbol=".to_owned().concat(stale[i].as_str()));
    }
    assert(texts(details@) =~= symbol_details(texts(stale@)));
    assert(texts(stale@).len() == n);
    Some(
        SubmissionBlock {
            reason: "active_risk_quote_stale".to_owned(),
            current: None,
            limit: None,
            details,
        },
    )
}

/// Returns the leg symbols of a state entry whose quotes are stale.
pub fn stale_active_risk_quote_symbols(
    entry: &StrategyStateEntry,
    quotes: &TextMap<u64>,
    limit: u64,
    now: UtcInstant,
) -> (stale: Vec<String>)
    ensures
        texts(stale@) == stale_ones(entry.leg_symbols(), *quotes, limit, now),
{
    stale_symbols(&entry.symbols(), quotes, limit, now)
}

// ---------------------------------------------------------------------------------------------
// Subscriptions
// ---------------------------------------------------------------------------------------------

/// Whether every leg of an entry has an instrument ID.
pub open spec fn legs_visible(entry: StrategyStateEntry) -> bool {
    forall|i: int| 0 <= i < entry.leg_symbols().len() ==> is_visible(#[trigger] entry.leg_symbols()[i])
}

/// Whether a symbol is a leg of an active entry all of whose legs have instrument IDs.
pub open spec fn quoted_leg(entries: Seq<StrategyStateEntry>, symbol: Seq<char>) -> bool {
    exists|i: int|
        0 <= i < entries.len() && (#[trigger] entries[i]).active() && legs_visible(entries[i])
            && entries[i].leg_symbols().contains(symbol)
}

fn all_visible(symbols: &Vec<&str>) -> (yes: bool)
    ensures
        yes == (forall|i: int|
            0 <= i < symbols@.len() ==> is_visible(#[trigger] slices(symbols@)[i])),
{
    for i in 0..symbols.len()
        invariant
            forall|k: int| 0 <= k < i ==> is_visible(#[trigger] slices(symbols@)[k]),
    {
        if alpaca_instrument_id(symbols[i]).is_none() {
            assert(!is_visible(slices(symbols@)[i as int]));
            return false;
        }
    }
    true
}

fn insert_all(set: &mut TextSet, symbols: &Vec<&str>)
    requires
        old(set).wf(),
    ensures
        final(set).wf(),
        forall|x: Seq<char>|
            #[trigger] final(set).has(x) <==> old(set).has(x) || slices(symbols@).contains(x),
{
    let n: usize = symbols.len();
    for i in 0..n
        invariant
            n == symbols@.len(),
            set.wf(),
            forall|x: Seq<char>|
                #[trigger] set.has(x) <==> old(set).has(x) || slices(symbols@).take(
                    i as int,
                ).contains(x),
    {
        let ghost before = *set;
        set.insert(symbols[i].to_owned());
        proof {
            assert forall|x: Seq<char>|
                #[trigger] set.has(x) <==> old(set).has(x) || slices(symbols@).take(i + 1).contains(
                    x,
                ) by {
                lemma_take_contains(slices(symbols@), i as int, x);
                assert(before.has(x) <==> old(set).has(x) || slices(symbols@).take(
                    i as int,
                ).contains(x));
            }
        }
    }
    assert(slices(symbols@).take(n as int) =~= slices(symbols@));
}

/// Returns the leg symbols of active entries; an entry with a leg that has no instrument ID is left
/// out.
pub fn quoted_leg_symbols(state: &StrategyState) -> (symbols: TextSet)
    ensures
        symbols.wf(),
        forall|x: Seq<char>| #[trigger] symbols.has(x) <==> quoted_leg(state.entries@, x),
{
    let mut symbols = TextSet::new();
    let n: usize = state.entries.len();
    for i in 0..n
        invariant
            n == state.entries@.len(),
            symbols.wf(),
            forall|x: Seq<char>|
                #[trigger] symbols.has(x) <==> (exists|k: int|
                    0 <= k < i && (#[trigger] state.entries@[k]).active() && legs_visible(
                        state.entries@[k],
                    ) && state.entries@[k].leg_symbols().contains(x)),
    {
        let entry = &state.entries[i];
        let ghost before = symbols;
        let legs = entry.symbols();
        assert(slices(legs@).len() == legs@.len());
        if entry.is_active() && all_visible(&legs) {
            insert_all(&mut symbols, &legs);
        }
        proof {
            assert forall|x: Seq<char>|
                #[trigger] symbols.has(x) <==> (exists|k: int|
                    0 <= k < i + 1 && (#[trigger] state.entries@[k]).active() && legs_visible(
                        state.entries@[k],
                    ) && state.entries@[k].leg_symbols().contains(x)) by {
                assert(before.has(x) <==> (exists|k: int|
                    0 <= k < i && (#[trigger] state.entries@[k]).active() && legs_visible(
                        state.entries@[k],
                    ) && state.entries@[k].leg_symbols().contains(x)));
                if state.entries@[i as int].active() && legs_visible(state.entries@[i as int])
                    && state.entries@[i as int].leg_symbols().contains(x) {
                    assert(state.entries@[i as int].active());
                }
            }
        }
    }
    symbols
}

/// Whether a symbol belongs to one of the first `limit` ranked candidates and has an instrument ID.
pub open spec fn candidate_quoted(
    entries: Seq<ProfiledOptionsEntry>,
    limit: int,
    symbol: Seq<char>,
) -> bool {
    is_visible(symbol) && exists|i: int|
        0 <= i < entries.len() && i < limit && (#[trigger] entries[i]).entry.symbols().contains(symbol)
}

/// Returns the symbols of the first `limit` ranked candidates.
pub fn candidate_quote_instrument_ids(
    candidates: &OptionsCandidateSet,
    limit: usize,
) -> (symbols: TextSet)
    ensures
        symbols.wf(),
        forall|x: Seq<char>|
            #[trigger] symbols.has(x) <==> candidate_quoted(
                candidates.ranked_entries@,
                limit as int,
                x,
            ),
{
    let mut symbols = TextSet::new();
    let ghost entries = candidates.ranked_entries@;
    let total: usize = candidates.ranked_entries.len();
    let n: usize = if limit < total {
        limit
    } else {
        total
    };
    for i in 0..n
        invariant
            entries == candidates.ranked_entries@,
            n <= entries.len(),
            symbols.wf(),
            forall|x: Seq<char>|
                #[trigger] symbols.has(x) <==> is_visible(x) && (exists|k: int|
                    0 <= k < i && (#[trigger] entries[k]).entry.symbols().contains(x)),
    {
        let legs = candidates.ranked_entries[i].option_symbols();
        let ghost before = symbols;
        let m: usize = legs.len();
        for j in 0..m
            invariant
                m == legs@.len(),
                symbols.wf(),
                forall|x: Seq<char>|
                    #[trigger] symbols.has(x) <==> before.has(x) || (is_visible(x) && slices(
                        legs@,
                    ).take(j as int).contains(x)),
        {
            let ghost middle = symbols;
            if alpaca_instrument_id(legs[j]).is_some() {
                symbols.insert(legs[j].to_owned());
            }
            proof {
                assert forall|x: Seq<char>|
                    #[trigger] symbols.has(x) <==> before.has(x) || (is_visible(x) && slices(
                        legs@,
                    ).take(j + 1).contains(x)) by {
                    lemma_take_contains(slices(legs@), j as int, x);
                    assert(middle.has(x) <==> before.has(x) || (is_visible(x) && slices(
                        legs@,
                    ).take(j as int).contains(x)));
                }
            }
        }
        proof {
            assert(slices(legs@).take(m as int) =~= slices(legs@));
            assert forall|x: Seq<char>|
                #[trigger] symbols.has(x) <==> is_visible(x) && (exists|k: int|
                    0 <= k < i + 1 && (#[trigger] entries[k]).entry.symbols().contains(x)) by {
                assert(before.has(x) <==> is_visible(x) && (exists|k: int|
                    0 <= k < i && (#[trigger] entries[k]).entry.symbols().contains(x)));
                if entries[i as int].entry.symbols().contains(x) {
                    assert(entries[i as int].entry.symbols().contains(x));
                }
            }
        }
    }
    symbols
}

/// Changes to the quote subscriptions.
#[derive(Clone, Debug)]
pub struct SubscriptionChange {
    /// Symbols to subscribe to.
    pub subscribe: Vec<String>,
    /// Symbols to unsubscribe from.
    pub unsubscribe: Vec<String>,
    /// Whether the subscriptions change at all.
    pub changed: bool,
}

/// Quote subscriptions and the candidates and spreads that they follow, by symbol.
#[derive(Clone, Debug)]
pub struct QuoteSubscriptions {
    /// Current subscriptions.
    pub current: TextSet,
    /// Legs of high-rank candidates.
    pub candidate_quotes: TextSet,
    /// Spread instruments of high-rank candidates.
    pub candidate_spreads: TextSet,
    /// Spread instruments of active entries.
    pub active_spreads: TextSet,
}

impl QuoteSubscriptions {
    /// Whether every set is in order.
    pub open spec fn wf(self) -> bool {
        self.current.wf() && self.candidate_quotes.wf() && self.candidate_spreads.wf()
            && self.active_spreads.wf()
    }

    /// Whether quotes for a symbol are wanted.
    pub open spec fn wants(self, entries: Seq<StrategyStateEntry>, symbol: Seq<char>) -> bool {
        ||| quoted_leg(entries, symbol)
        ||| self.candidate_quotes.has(symbol)
        ||| self.candidate_spreads.has(symbol)
        ||| self.active_spreads.has(symbol)
    }

    /// Creates an empty book.
    pub fn new() -> (book: QuoteSubscriptions)
        ensures
            book.wf(),
            book.current@.len() == 0,
            book.candidate_quotes@.len() == 0,
            book.candidate_spreads@.len() == 0,
            book.active_spreads@.len() == 0,
    {
        QuoteSubscriptions {
            current: TextSet::new(),
            candidate_quotes: TextSet::new(),
            candidate_spreads: TextSet::new(),
            active_spreads: TextSet::new(),
        }
    }

    /// Brings the subscriptions in line with active entries, candidates and spreads.
    pub fn refresh(&mut self, state: &StrategyState, active_spreads: TextSet) -> (change: SubscriptionChange)
        requires
            old(self).wf(),
            active_spreads.wf(),
        ensures
            final(self).wf(),
            final(self).candidate_quotes == old(self).candidate_quotes,
            final(self).candidate_spreads == old(self).candidate_spreads,
            final(self).active_spreads == active_spreads,
            forall|x: Seq<char>|
                #[trigger] final(self).current.has(x) <==> final(self).wants(state.entries@, x),
            texts(change.subscribe@) == without(final(self).current@, old(self).current@),
            texts(change.unsubscribe@) == without(old(self).current@, final(self).current@),
            change.changed == (final(self).current@ != old(self).current@),
    {
        self.active_spreads = active_spreads;
        let mut desired = quoted_leg_symbols(state);
        desired.extend(&self.candidate_quotes);
        desired.extend(&self.candidate_spreads);
        desired.extend(&self.active_spreads);
        let subscribe = desired.difference(&self.current);
        let unsubscribe = self.current.difference(&desired);
        let changed: bool = !desired.same_as(&self.current);
        self.current = desired;
        SubscriptionChange { subscribe, unsubscribe, changed }
    }

    /// Follows the high-rank ones of new candidates and brings the subscriptions in line.
    pub fn update_candidates(
        &mut self,
        candidates: &OptionsCandidateSet,
        limit: usize,
        candidate_spreads: TextSet,
        state: &StrategyState,
        active_spreads: TextSet,
    ) -> (change: SubscriptionChange)
        requires
            old(self).wf(),
            candidate_spreads.wf(),
            active_spreads.wf(),
        ensures
            final(self).wf(),
            forall|x: Seq<char>|
                #[trigger] final(self).candidate_quotes.has(x) <==> candidate_quoted(
                    candidates.ranked_entries@,
                    limit as int,
                    x,
                ),
            final(self).candidate_spreads == candidate_spreads,
            final(self).active_spreads == active_spreads,
            forall|x: Seq<char>|
                #[trigger] final(self).current.has(x) <==> final(self).wants(state.entries@, x),
            texts(change.subscribe@) == without(final(self).current@, old(self).current@),
            texts(change.unsubscribe@) == without(old(self).current@, final(self).current@),
            change.changed == (final(self).current@ != old(self).current@),
    {
        self.candidate_quotes = candidate_quote_instrument_ids(candidates, limit);
        self.candidate_spreads = candidate_spreads;
        self.refresh(state, active_spreads)
    }

    /// Returns whether a symbol is that of a spread instrument.
    pub fn is_spread(&self, symbol: &str) -> (spread: bool)
        ensures
            spread == (self.candidate_spreads.has(symbol@) || self.active_spreads.has(symbol@)),
    {
        self.candidate_spreads.contains(symbol) || self.active_spreads.contains(symbol)
    }

    /// Drops everything; returns the symbols to unsubscribe from.
    pub fn clear(&mut self) -> (unsubscribe: Vec<String>)
        ensures
            final(self).wf(),
            final(self).current@.len() == 0,
            final(self).candidate_quotes@.len() == 0,
            final(self).candidate_spreads@.len() == 0,
            final(self).active_spreads@.len() == 0,
            texts(unsubscribe@) == old(self).current@,
    {
        let unsubscribe = self.current.to_texts();
        *self = QuoteSubscriptions::new();
        unsubscribe
    }
}

/// The changes are exactly the symbols that are newly wanted and those that no longer are.
pub proof fn changes_are_the_difference(
    before: TextSet,
    after: TextSet,
    subscribe: Seq<Seq<char>>,
    unsubscribe: Seq<Seq<char>>,
)
    requires
        before.wf(),
        after.wf(),
        subscribe == without(after@, before@),
        unsubscribe == without(before@, after@),
    ensures
        forall|x: Seq<char>| #[trigger] subscribe.contains(x) <==> after.has(x) && !before.has(x),
        forall|x: Seq<char>| #[trigger] unsubscribe.contains(x) <==> before.has(x) && !after.has(x),
        before@ == after@ ==> subscribe.len() == 0 && unsubscribe.len() == 0,
{
    crate::text_set::filter_keeps_ascending(
        after@,
        |item: Seq<char>| !before@.contains(item),
    );
    crate::text_set::filter_keeps_ascending(
        before@,
        |item: Seq<char>| !after@.contains(item),
    );
    if before@ == after@ {
        if subscribe.len() > 0 {
            assert(subscribe.contains(subscribe[0]));
        }
        if unsubscribe.len() > 0 {
            assert(unsubscribe.contains(unsubscribe[0]));
        }
    }
}

/// Returns the instrument IDs of the legs of active entries, in symbol order, unless there are none.
pub fn external_order_claims(state: &StrategyState) -> (claims: Option<Vec<String>>)
    ensures
        exists|legs: TextSet|
            #![trigger legs.wf()]
            legs.wf() && (forall|x: Seq<char>|
                #[trigger] legs.has(x) <==> quoted_leg(state.entries@, x)) && match claims {
                Some(ids) => legs@.len() > 0 && ids@.len() == legs@.len() && (forall|i: int|
                    0 <= i < legs@.len() ==> (#[trigger] ids@[i])@ == instrument_chars(legs@[i])),
                None => legs@.len() == 0,
            },
{
    let legs = quoted_leg_symbols(state);
    let symbols = legs.to_texts();
    let n: usize = symbols.len();
    assert(texts(symbols@).len() == n);
    if n == 0 {
        assert(legs.wf());
        return None;
    }
    let mut ids: Vec<String> = Vec::new();
    for i in 0..n
        invariant
            n == symbols@.len(),
            texts(symbols@) == legs@,
            forall|x: Seq<char>| #[trigger] legs.has(x) <==> quoted_leg(state.entries@, x),
            ids@.len() == i,
            forall|k: int| 0 <= k < i ==> (#[trigger] ids@[k])@ == instrument_chars(legs@[k]),
    {
        match alpaca_instrument_id(symbols[i].as_str()) {
            Some(id) => {
                assert(texts(symbols@)[i as int] == symbols@[i as int]@);
                ids.push(id);
            },
            None => {
                proof {
                    let x = legs@[i as int];
                    assert(texts(symbols@)[i as int] == x);
                    assert(legs.has(x));
                    let k = choose|k: int|
                        0 <= k < state.entries@.len() && (#[trigger] state.entries@[k]).active()
                            && legs_visible(state.entries@[k])
                            && state.entries@[k].leg_symbols().contains(x);
                    let j = state.entries@[k].leg_symbols().index_of(x);
                    assert(is_visible(state.entries@[k].leg_symbols()[j]));
                    assert(false);
                }
            },
        }
    }
    assert(legs.wf());
    Some(ids)
}

} // verus!
