//! Strategy state: the entries that the engine opened and what became of them.
use vstd::prelude::*;

use crate::amount::Amount;
use crate::orders::OptionSpreadLeg;
use crate::text::copy_opt;
use crate::text::is_text;
use crate::text::lower;
use crate::text::opt_text;
use crate::text::same_text;
use crate::text::slices;
use crate::text::to_lower;
use crate::text::to_upper;
use crate::text::upper;
use crate::text_map::TextMap;
use crate::text_set::filter_step;
use crate::text_set::TextSet;

verus! {

/// The spread that an entry is submitted as.
#[derive(Clone, Debug)]
pub struct SpreadRecord {
    /// Instrument ID.
    pub instrument_id: Option<String>,
    /// Symbol.
    pub raw_symbol: Option<String>,
    /// Legs.
    pub legs: Vec<OptionSpreadLeg>,
    /// Where the limit of the entry comes from.
    pub entry_pricing_source: Option<String>,
}

impl SpreadRecord {
    /// Whether two records tell of the same spread.
    pub open spec fn same_spread(self, other: SpreadRecord) -> bool {
        &&& self.instrument_id == other.instrument_id
        &&& self.raw_symbol == other.raw_symbol
        &&& self.legs@ == other.legs@
        &&& self.entry_pricing_source == other.entry_pricing_source
    }

    /// Returns the record of an entry that is no spread.
    pub fn none() -> (record: SpreadRecord)
        ensures
            record.instrument_id is None,
            record.raw_symbol is None,
            record.legs@.len() == 0,
            record.entry_pricing_source is None,
    {
        SpreadRecord {
            instrument_id: None,
            raw_symbol: None,
            legs: Vec::new(),
            entry_pricing_source: None,
        }
    }

    /// Returns a copy.
    pub fn copy(&self) -> (copy: SpreadRecord)
        ensures
            copy.same_spread(*self),
    {
        SpreadRecord {
            instrument_id: copy_opt(&self.instrument_id),
            raw_symbol: copy_opt(&self.raw_symbol),
            legs: copy_spread_legs(&self.legs),
            entry_pricing_source: copy_opt(&self.entry_pricing_source),
        }
    }
}

fn copy_spread_legs(legs: &Vec<OptionSpreadLeg>) -> (copy: Vec<OptionSpreadLeg>)
    ensures
        copy@ == legs@,
{
    let mut copy: Vec<OptionSpreadLeg> = Vec::new();
    let n: usize = legs.len();
    for i in 0..n
        invariant
            n == legs@.len(),
            copy@ == legs@.take(i as int),
    {
        copy.push(
            OptionSpreadLeg {
                symbol: legs[i].symbol.clone(),
                instrument_id: legs[i].instrument_id.clone(),
                ratio: legs[i].ratio,
            },
        );
        assert(copy@ =~= legs@.take(i + 1));
    }
    assert(legs@.take(n as int) =~= legs@);
    copy
}

/// A new entry, before it is recorded.
#[derive(Clone, Debug)]
pub struct StrategyStateEntryDraft {
    /// Market trade date.
    pub trade_date: String,
    /// Underlying symbol.
    pub underlying: String,
    /// Strategy name.
    pub strategy: String,
    /// Order-list ID of the opening orders.
    pub order_list_id: String,
    /// Symbol of the short leg, of the put side for an iron condor.
    pub short_symbol: String,
    /// Symbol of the long leg, of the put side for an iron condor; empty for a naked option.
    pub long_symbol: String,
    /// Symbol of the short call leg of an iron condor.
    pub short_call_symbol: Option<String>,
    /// Symbol of the long call leg of an iron condor.
    pub long_call_symbol: Option<String>,
    /// Contract quantity per leg.
    pub quantity: u64,
    /// Entry credit; a debit is a negative credit.
    pub credit: Amount,
    /// Entry debit of a debit spread.
    pub debit: Option<Amount>,
    /// Risk-capital estimate in USD.
    pub risk_capital_usd: Option<Amount>,
    /// Scanner score.
    pub score: Amount,
    /// Broker parent order ID.
    pub parent_order_id: Option<String>,
    /// Submission time.
    pub submitted_at_utc: Option<String>,
    /// Identifier of the spread instrument.
    pub spread_instrument_id: Option<String>,
    /// Symbol of the spread instrument.
    pub spread_raw_symbol: Option<String>,
    /// Legs of the spread instrument.
    pub spread_legs: Vec<OptionSpreadLeg>,
    /// Where the limit of the entry comes from.
    pub entry_pricing_source: Option<String>,
}

/// One recorded strategy entry.
#[derive(Clone, Debug)]
pub struct StrategyStateEntry {
    /// Market trade date.
    pub trade_date: String,
    /// Underlying symbol.
    pub underlying: String,
    /// Strategy name.
    pub strategy: String,
    /// Order-list ID of the opening orders.
    pub order_list_id: String,
    /// Symbol of the short leg, of the put side for an iron condor.
    pub short_symbol: String,
    /// Symbol of the long leg, of the put side for an iron condor; empty for a naked option.
    pub long_symbol: String,
    /// Symbol of the short call leg of an iron condor.
    pub short_call_symbol: Option<String>,
    /// Symbol of the long call leg of an iron condor.
    pub long_call_symbol: Option<String>,
    /// Contract quantity per leg.
    pub quantity: u64,
    /// Entry credit; a debit is a negative credit.
    pub credit: Amount,
    /// Entry debit of a debit spread.
    pub debit: Option<Amount>,
    /// Risk-capital estimate in USD.
    pub risk_capital_usd: Option<Amount>,
    /// Scanner score.
    pub score: Amount,
    /// Broker parent order ID.
    pub parent_order_id: Option<String>,
    /// Submission time.
    pub submitted_at_utc: Option<String>,
    /// Identifier of the spread instrument.
    pub spread_instrument_id: Option<String>,
    /// Symbol of the spread instrument.
    pub spread_raw_symbol: Option<String>,
    /// Legs of the spread instrument.
    pub spread_legs: Vec<OptionSpreadLeg>,
    /// Where the limit of the entry comes from.
    pub entry_pricing_source: Option<String>,
    /// Order-list ID of the working close.
    pub close_order_list_id: Option<String>,
    /// Broker parent order ID of the close.
    pub close_parent_order_id: Option<String>,
    /// Reason for the close.
    pub close_reason: Option<String>,
    /// Order path of the close.
    pub close_order_mode: Option<String>,
    /// Accepted close submissions.
    pub close_attempts: u32,
    /// Time of the last close submission.
    pub last_close_submitted_at_utc: Option<String>,
    /// Whether the broker took the opening orders.
    pub submitted: bool,
    /// Whether the entry was canceled.
    pub canceled: bool,
    /// Whether the entry was closed.
    pub closed: bool,
    /// Time of the record.
    pub recorded_at_utc: String,
    /// Time of the close.
    pub closed_at_utc: Option<String>,
}

/// One symbol as a list, nothing for an empty one.
pub open spec fn symbol_list(symbol: Seq<char>) -> Seq<Seq<char>> {
    if symbol.len() == 0 {
        Seq::empty()
    } else {
        seq![symbol]
    }
}

/// An optional symbol as a list.
pub open spec fn opt_symbol_list(symbol: Option<String>) -> Seq<Seq<char>> {
    match symbol {
        Some(text) => symbol_list(text@),
        None => Seq::empty(),
    }
}

/// Whether a strategy name is that of a naked short option.
pub open spec fn is_naked_strategy(name: Seq<char>) -> bool {
    ||| name == "naked_put"@
    ||| name == "naked_call"@
    ||| name == "naked_put_1_3dte"@
    ||| name == "naked_call_1_3dte"@
}

/// Whether a strategy name is that of a debit spread.
pub open spec fn is_debit_strategy(name: Seq<char>) -> bool {
    name == "put_debit"@ || name == "call_debit"@
}

fn push_symbol<'a>(symbols: &mut Vec<&'a str>, symbol: &'a str)
    ensures
        slices(final(symbols)@) == slices(old(symbols)@) + symbol_list(symbol@),
{
    if symbol.is_empty() {
        assert(slices(symbols@) =~= slices(symbols@) + symbol_list(symbol@));
    } else {
        symbols.push(symbol);
        assert(slices(symbols@) =~= slices(old(symbols)@) + symbol_list(symbol@));
    }
}

impl StrategyStateEntry {
    /// Whether the entry was submitted and neither closed nor canceled.
    pub open spec fn active(self) -> bool {
        self.submitted && !self.closed && !self.canceled
    }

    /// Whether the entry counts towards the submissions of its trade date.
    pub open spec fn risk_counted(self) -> bool {
        self.submitted && !self.canceled
    }

    /// Whether the entry is a naked short option.
    pub open spec fn naked(self) -> bool {
        is_naked_strategy(self.strategy@)
    }

    /// Whether the entry is a debit spread.
    pub open spec fn debit_spread(self) -> bool {
        is_debit_strategy(self.strategy@)
    }

    /// The option symbols of the legs.
    pub open spec fn leg_symbols(self) -> Seq<Seq<char>> {
        symbol_list(self.short_symbol@) + symbol_list(self.long_symbol@) + opt_symbol_list(
            self.short_call_symbol,
        ) + opt_symbol_list(self.long_call_symbol)
    }

    /// Returns whether the entry was submitted and neither closed nor canceled.
    pub fn is_active(&self) -> (active: bool)
        ensures
            active == self.active(),
    {
        self.submitted && !self.closed && !self.canceled
    }

    /// Returns whether the entry counts towards the submissions of its trade date.
    pub fn is_risk_counted(&self) -> (counted: bool)
        ensures
            counted == self.risk_counted(),
    {
        self.submitted && !self.canceled
    }

    /// Returns whether the entry is a naked short option.
    pub fn is_naked_option(&self) -> (naked: bool)
        ensures
            naked == self.naked(),
    {
        let name = self.strategy.as_str();
        same_text(name, "naked_put") || same_text(name, "naked_call") || same_text(
            name,
            "naked_put_1_3dte",
        ) || same_text(name, "naked_call_1_3dte")
    }

    /// Returns whether the entry is a debit spread.
    pub fn is_debit_spread(&self) -> (debit: bool)
        ensures
            debit == self.debit_spread(),
    {
        let name = self.strategy.as_str();
        same_text(name, "put_debit") || same_text(name, "call_debit")
    }

    /// Returns the entry debit.
    pub fn entry_debit(&self) -> (debit: Option<Amount>)
        ensures
            debit == self.debit,
    {
        self.debit
    }

    /// Returns the risk-capital estimate in USD, if one is known.
    pub fn risk_capital_usd_estimate(&self) -> (estimate: Option<Amount>)
        ensures
            estimate == self.risk_capital_usd,
    {
        self.risk_capital_usd
    }

    /// Returns the option symbols of the legs.
    pub fn symbols(&self) -> (symbols: Vec<&str>)
        ensures
            slices(symbols@) == self.leg_symbols(),
    {
        let mut symbols: Vec<&str> = Vec::new();
        assert(slices(symbols@) =~= Seq::<Seq<char>>::empty());
        push_symbol(&mut symbols, self.short_symbol.as_str());
        assert(slices(symbols@) =~= symbol_list(self.short_symbol@));
        push_symbol(&mut symbols, self.long_symbol.as_str());
        match &self.short_call_symbol {
            Some(symbol) => push_symbol(&mut symbols, symbol.as_str()),
            None => {},
        }
        assert(slices(symbols@) =~= symbol_list(self.short_symbol@) + symbol_list(self.long_symbol@)
            + opt_symbol_list(self.short_call_symbol));
        match &self.long_call_symbol {
            Some(symbol) => push_symbol(&mut symbols, symbol.as_str()),
            None => {},
        }
        assert(slices(symbols@) =~= self.leg_symbols());
        symbols
    }

    /// Returns a copy.
    pub fn copy(&self) -> (copy: StrategyStateEntry)
        ensures
            copy.spread_legs@ == self.spread_legs@,
            copy == (StrategyStateEntry { spread_legs: copy.spread_legs, ..*self }),
    {
        StrategyStateEntry {
            trade_date: self.trade_date.clone(),
            underlying: self.underlying.clone(),
            strategy: self.strategy.clone(),
            order_list_id: self.order_list_id.clone(),
            short_symbol: self.short_symbol.clone(),
            long_symbol: self.long_symbol.clone(),
            short_call_symbol: copy_opt(&self.short_call_symbol),
            long_call_symbol: copy_opt(&self.long_call_symbol),
            quantity: self.quantity,
            credit: self.credit,
            debit: self.debit,
            risk_capital_usd: self.risk_capital_usd,
            score: self.score,
            parent_order_id: copy_opt(&self.parent_order_id),
            submitted_at_utc: copy_opt(&self.submitted_at_utc),
            spread_instrument_id: copy_opt(&self.spread_instrument_id),
            spread_raw_symbol: copy_opt(&self.spread_raw_symbol),
            spread_legs: copy_spread_legs(&self.spread_legs),
            entry_pricing_source: copy_opt(&self.entry_pricing_source),
            close_order_list_id: copy_opt(&self.close_order_list_id),
            close_parent_order_id: copy_opt(&self.close_parent_order_id),
            close_reason: copy_opt(&self.close_reason),
            close_order_mode: copy_opt(&self.close_order_mode),
            close_attempts: self.close_attempts,
            last_close_submitted_at_utc: copy_opt(&self.last_close_submitted_at_utc),
            submitted: self.submitted,
            canceled: self.canceled,
            closed: self.closed,
            recorded_at_utc: self.recorded_at_utc.clone(),
            closed_at_utc: copy_opt(&self.closed_at_utc),
        }
    }

    /// The entry after its close was filled.
    pub open spec fn after_close(self, parent_order_id: Option<String>, now: String) -> StrategyStateEntry {
        StrategyStateEntry {
            closed: true,
            closed_at_utc: Some(now),
            close_parent_order_id: if parent_order_id is Some {
                parent_order_id
            } else {
                self.close_parent_order_id
            },
            ..self
        }
    }

    /// The entry after its opening orders ended without a position.
    pub open spec fn after_cancel(self) -> StrategyStateEntry {
        StrategyStateEntry { canceled: true, ..self }
    }

    /// The entry without its working close; the attempts stay counted.
    pub open spec fn after_clear(self) -> StrategyStateEntry {
        StrategyStateEntry {
            close_order_list_id: None,
            close_parent_order_id: None,
            close_reason: None,
            close_order_mode: None,
            ..self
        }
    }

    /// The entry after the broker took a close.
    pub open spec fn after_close_submission(
        self,
        close_order_list_id: String,
        parent_order_id: Option<String>,
        reason: String,
        mode: String,
        now: String,
    ) -> StrategyStateEntry {
        StrategyStateEntry {
            close_order_list_id: Some(close_order_list_id),
            close_parent_order_id: parent_order_id,
            close_reason: Some(reason),
            close_order_mode: Some(mode),
            close_attempts: if self.close_attempts == u32::MAX {
                u32::MAX
            } else {
                (self.close_attempts + 1) as u32
            },
            last_close_submitted_at_utc: Some(now),
            ..self
        }
    }

    /// Records that the close was filled.
    pub fn mark_closed(&mut self, parent_order_id: Option<String>, now: String)
        ensures
            *final(self) == old(self).after_close(parent_order_id, now),
    {
        self.closed = true;
        self.closed_at_utc = Some(now);
        if parent_order_id.is_some() {
            self.close_parent_order_id = parent_order_id;
        }
    }

    /// Records that the opening orders ended without a position.
    pub fn mark_canceled(&mut self)
        ensures
            *final(self) == old(self).after_cancel(),
    {
        self.canceled = true;
    }

    /// Forgets the working close.
    pub fn clear_close_submission(&mut self)
        ensures
            *final(self) == old(self).after_clear(),
    {
        self.close_order_list_id = None;
        self.close_parent_order_id = None;
        self.close_reason = None;
        self.close_order_mode = None;
    }

    /// Records that the broker took a close.
    pub fn record_close_submission(
        &mut self,
        close_order_list_id: String,
        parent_order_id: Option<String>,
        reason: String,
        mode: String,
        now: String,
    )
        ensures
            *final(self) == old(self).after_close_submission(
                close_order_list_id,
                parent_order_id,
                reason,
                mode,
                now,
            ),
    {
        self.close_order_list_id = Some(close_order_list_id);
        self.close_parent_order_id = parent_order_id;
        self.close_reason = Some(reason);
        self.close_order_mode = Some(mode);
        if self.close_attempts < u32::MAX {
            self.close_attempts = self.close_attempts + 1;
        }
        self.last_close_submitted_at_utc = Some(now);
    }
}

/// The entry that recording a draft makes.
pub open spec fn recorded_entry(draft: StrategyStateEntryDraft, now: String) -> StrategyStateEntry {
    StrategyStateEntry {
        trade_date: draft.trade_date,
        underlying: draft.underlying,
        strategy: draft.strategy,
        order_list_id: draft.order_list_id,
        short_symbol: draft.short_symbol,
        long_symbol: draft.long_symbol,
        short_call_symbol: draft.short_call_symbol,
        long_call_symbol: draft.long_call_symbol,
        quantity: draft.quantity,
        credit: draft.credit,
        debit: draft.debit,
        risk_capital_usd: draft.risk_capital_usd,
        score: draft.score,
        parent_order_id: draft.parent_order_id,
        submitted_at_utc: draft.submitted_at_utc,
        spread_instrument_id: draft.spread_instrument_id,
        spread_raw_symbol: draft.spread_raw_symbol,
        spread_legs: draft.spread_legs,
        entry_pricing_source: draft.entry_pricing_source,
        close_order_list_id: None,
        close_parent_order_id: None,
        close_reason: None,
        close_order_mode: None,
        close_attempts: 0,
        last_close_submitted_at_utc: None,
        submitted: true,
        canceled: false,
        closed: false,
        recorded_at_utc: now,
        closed_at_utc: None,
    }
}

/// All strategy entries of an account.
#[derive(Clone, Debug)]
pub struct StrategyState {
    /// Entries in the order in which they were recorded.
    pub entries: Vec<StrategyStateEntry>,
}

/// The active ones of some entries, in order.
pub open spec fn active_entries(entries: Seq<StrategyStateEntry>) -> Seq<StrategyStateEntry> {
    entries.filter(|entry: StrategyStateEntry| entry.active())
}

/// The entries that count towards the submissions of a trade date.
pub open spec fn counted_on(
    entries: Seq<StrategyStateEntry>,
    trade_date: Seq<char>,
) -> Seq<StrategyStateEntry> {
    entries.filter(
        |entry: StrategyStateEntry| entry.risk_counted() && entry.trade_date@ == trade_date,
    )
}

/// The active entries on an underlying, whatever the case of its letters.
pub open spec fn active_on(
    entries: Seq<StrategyStateEntry>,
    underlying: Seq<char>,
) -> Seq<StrategyStateEntry> {
    entries.filter(
        |entry: StrategyStateEntry|
            entry.active() && lower(entry.underlying@) == lower(underlying),
    )
}

/// The sector of an underlying.
pub open spec fn sector_of(sectors: TextMap<String>, underlying: Seq<char>) -> Option<Seq<char>> {
    opt_text(sectors.at(upper(underlying)))
}

/// The active entries whose underlying belongs to a sector.
pub open spec fn active_in_sector(
    entries: Seq<StrategyStateEntry>,
    sectors: TextMap<String>,
    sector: Seq<char>,
) -> Seq<StrategyStateEntry> {
    entries.filter(
        |entry: StrategyStateEntry|
            entry.active() && sector_of(sectors, entry.underlying@) == Some(sector),
    )
}

/// The position of the first entry with an order-list ID, the number of entries when there is none.
pub open spec fn entry_position(entries: Seq<StrategyStateEntry>, order_list_id: Seq<char>) -> int
    decreases entries.len(),
{
    if entries.len() == 0 || entries[0].order_list_id@ == order_list_id {
        0
    } else {
        1 + entry_position(entries.drop_first(), order_list_id)
    }
}

/// The position of the first entry with a working close under an order-list ID, the number of
/// entries when there is none.
pub open spec fn close_position(entries: Seq<StrategyStateEntry>, close_id: Seq<char>) -> int
    decreases entries.len(),
{
    if entries.len() == 0 || opt_text(entries[0].close_order_list_id) == Some(close_id) {
        0
    } else {
        1 + close_position(entries.drop_first(), close_id)
    }
}

/// The position of a close lies within the entries or just past them.
pub proof fn close_position_bounds(entries: Seq<StrategyStateEntry>, close_id: Seq<char>)
    ensures
        0 <= close_position(entries, close_id) <= entries.len(),
        close_position(entries, close_id) < entries.len() ==> opt_text(
            entries[close_position(entries, close_id)].close_order_list_id,
        ) == Some(close_id),
    decreases entries.len(),
{
    if entries.len() > 0 && opt_text(entries[0].close_order_list_id) != Some(close_id) {
        close_position_bounds(entries.drop_first(), close_id);
    }
}

impl Default for StrategyState {
    fn default() -> (state: StrategyState)
        ensures
            state.entries@.len() == 0,
    {
        StrategyState { entries: Vec::new() }
    }
}

impl StrategyState {
    /// Returns the number of active entries.
    pub fn active_count(&self) -> (count: usize)
        ensures
            count == active_entries(self.entries@).len(),
    {
        let mut count: usize = 0;
        let n: usize = self.entries.len();
        for i in 0..n
            invariant
                n == self.entries@.len(),
                count <= i,
                count == active_entries(self.entries@.take(i as int)).len(),
        {
            proof {
                filter_step(self.entries@, i as int, |entry: StrategyStateEntry| entry.active());
            }
            if self.entries[i].is_active() {
                count += 1;
            }
        }
        assert(self.entries@.take(n as int) =~= self.entries@);
        count
    }

    /// Returns the number of entries that count towards the submissions of a trade date.
    pub fn risk_counted_daily_submits(&self, trade_date: &str) -> (count: usize)
        ensures
            count == counted_on(self.entries@, trade_date@).len(),
    {
        let mut count: usize = 0;
        let n: usize = self.entries.len();
        for i in 0..n
            invariant
                n == self.entries@.len(),
                count <= i,
                count == counted_on(self.entries@.take(i as int), trade_date@).len(),
        {
            proof {
                filter_step(
                    self.entries@,
                    i as int,
                    |entry: StrategyStateEntry|
                        entry.risk_counted() && entry.trade_date@ == trade_date@,
                );
            }
            if self.entries[i].is_risk_counted() && same_text(
                self.entries[i].trade_date.as_str(),
                trade_date,
            ) {
                count += 1;
            }
        }
        assert(self.entries@.take(n as int) =~= self.entries@);
        count
    }

    /// Returns whether an entry on an underlying counts towards the submissions of a trade date.
    pub fn has_risk_counted_submitted_underlying_today(
        &self,
        trade_date: &str,
        underlying: &str,
    ) -> (found: bool)
        ensures
            found == (exists|i: int|
                0 <= i < self.entries@.len() && (#[trigger] self.entries@[i]).risk_counted()
                    && self.entries@[i].trade_date@ == trade_date@ && lower(
                    self.entries@[i].underlying@,
                ) == lower(underlying@)),
    {
        let wanted = to_lower(underlying);
        for i in 0..self.entries.len()
            invariant
                wanted@ == lower(underlying@),
                forall|k: int|
                    0 <= k < i ==> !((#[trigger] self.entries@[k]).risk_counted()
                        && self.entries@[k].trade_date@ == trade_date@ && lower(
                        self.entries@[k].underlying@,
                    ) == lower(underlying@)),
        {
            let entry = &self.entries[i];
            if entry.is_risk_counted() && same_text(entry.trade_date.as_str(), trade_date)
                && same_text(to_lower(entry.underlying.as_str()).as_str(), wanted.as_str()) {
                assert(self.entries@[i as int].risk_counted());
                return true;
            }
        }
        false
    }

    /// Returns whether a naked entry was canceled for a reason.
    pub fn has_canceled_naked_entry_with_close_reason(&self, reason: &str) -> (found: bool)
        ensures
            found == (exists|i: int|
                0 <= i < self.entries@.len() && (#[trigger] self.entries@[i]).canceled
                    && self.entries@[i].naked() && opt_text(self.entries@[i].close_reason) == Some(
                    reason@,
                )),
    {
        for i in 0..self.entries.len()
            invariant
                forall|k: int|
                    0 <= k < i ==> !((#[trigger] self.entries@[k]).canceled
                        && self.entries@[k].naked() && opt_text(self.entries@[k].close_reason)
                        == Some(reason@)),
        {
            let entry = &self.entries[i];
            if entry.canceled && entry.is_naked_option() && is_text(&entry.close_reason, reason) {
                assert(self.entries@[i as int].canceled);
                return true;
            }
        }
        false
    }

    /// Returns the position of the first entry with an order-list ID.
    pub fn find_entry(&self, order_list_id: &str) -> (position: Option<usize>)
        ensures
            match position {
                Some(at) => at < self.entries@.len() && at == entry_position(
                    self.entries@,
                    order_list_id@,
                ),
                None => entry_position(self.entries@, order_list_id@) == self.entries@.len(),
            },
    {
        let n: usize = self.entries.len();
        let ghost all = self.entries@;
        assert(all.skip(0) =~= all);
        for i in 0..n
            invariant
                n == self.entries@.len(),
                all == self.entries@,
                entry_position(all, order_list_id@) == i + entry_position(
                    all.skip(i as int),
                    order_list_id@,
                ),
        {
            if same_text(self.entries[i].order_list_id.as_str(), order_list_id) {
                return Some(i);
            }
            assert(all.skip(i as int).drop_first() =~= all.skip(i + 1));
        }
        None
    }

    /// Returns the position of the first entry whose working close has an order-list ID.
    pub fn find_close(&self, close_order_list_id: &str) -> (position: Option<usize>)
        ensures
            match position {
                Some(at) => at < self.entries@.len() && at == close_position(
                    self.entries@,
                    close_order_list_id@,
                ),
                None => close_position(self.entries@, close_order_list_id@) == self.entries@.len(),
            },
    {
        let n: usize = self.entries.len();
        let ghost all = self.entries@;
        assert(all.skip(0) =~= all);
        for i in 0..n
            invariant
                n == self.entries@.len(),
                all == self.entries@,
                close_position(all, close_order_list_id@) == i + close_position(
                    all.skip(i as int),
                    close_order_list_id@,
                ),
        {
            if is_text(&self.entries[i].close_order_list_id, close_order_list_id) {
                return Some(i);
            }
            assert(all.skip(i as int).drop_first() =~= all.skip(i + 1));
        }
        None
    }

    /// Records a new entry.
    pub fn record_entry_submission(&mut self, draft: StrategyStateEntryDraft, now: String)
        ensures
            final(self).entries@ == old(self).entries@.push(recorded_entry(draft, now)),
    {
        self.entries.push(
            StrategyStateEntry {
                trade_date: draft.trade_date,
                underlying: draft.underlying,
                strategy: draft.strategy,
                order_list_id: draft.order_list_id,
                short_symbol: draft.short_symbol,
                long_symbol: draft.long_symbol,
                short_call_symbol: draft.short_call_symbol,
                long_call_symbol: draft.long_call_symbol,
                quantity: draft.quantity,
                credit: draft.credit,
                debit: draft.debit,
                risk_capital_usd: draft.risk_capital_usd,
                score: draft.score,
                parent_order_id: draft.parent_order_id,
                submitted_at_utc: draft.submitted_at_utc,
                spread_instrument_id: draft.spread_instrument_id,
                spread_raw_symbol: draft.spread_raw_symbol,
                spread_legs: draft.spread_legs,
                entry_pricing_source: draft.entry_pricing_source,
                close_order_list_id: None,
                close_parent_order_id: None,
                close_reason: None,
                close_order_mode: None,
                close_attempts: 0,
                last_close_submitted_at_utc: None,
                submitted: true,
                canceled: false,
                closed: false,
                recorded_at_utc: now,
                closed_at_utc: None,
            },
        );
    }

    /// Whether a symbol is a leg of an active entry.
    pub open spec fn has_active_symbol(self, symbol: Seq<char>) -> bool {
        exists|i: int|
            0 <= i < self.entries@.len() && (#[trigger] self.entries@[i]).active()
                && self.entries@[i].leg_symbols().contains(symbol)
    }

    /// Returns the option symbols of the legs of all active entries.
    pub fn active_symbols(&self) -> (symbols: TextSet)
        ensures
            symbols.wf(),
            forall|x: Seq<char>| #[trigger] symbols.has(x) <==> self.has_active_symbol(x),
    {
        let mut symbols = TextSet::new();
        let n: usize = self.entries.len();
        for i in 0..n
            invariant
                n == self.entries@.len(),
                symbols.wf(),
                forall|x: Seq<char>|
                    #[trigger] symbols.has(x) <==> (exists|k: int|
                        0 <= k < i && (#[trigger] self.entries@[k]).active()
                            && self.entries@[k].leg_symbols().contains(x)),
        {
            let entry = &self.entries[i];
            if entry.is_active() {
                let legs = entry.symbols();
                let m: usize = legs.len();
                let ghost before = symbols;
                for j in 0..m
                    invariant
                        m == legs@.len(),
                        symbols.wf(),
                        slices(legs@) == entry.leg_symbols(),
                        forall|x: Seq<char>|
                            #[trigger] symbols.has(x) <==> before.has(x) || slices(legs@).take(
                                j as int,
                            ).contains(x),
                {
                    let ghost middle = symbols;
                    symbols.insert(legs[j].to_owned());
                    proof {
                        assert forall|x: Seq<char>|
                            #[trigger] symbols.has(x) <==> before.has(x) || slices(legs@).take(
                                j + 1,
                            ).contains(x) by {
                            crate::text_set::lemma_take_contains(slices(legs@), j as int, x);
                            assert(middle.has(x) <==> before.has(x) || slices(legs@).take(
                                j as int,
                            ).contains(x));
                        }
                    }
                }
                proof {
                    assert(slices(legs@).take(m as int) =~= slices(legs@));
                    assert forall|x: Seq<char>|
                        #[trigger] symbols.has(x) <==> (exists|k: int|
                            0 <= k < i + 1 && (#[trigger] self.entries@[k]).active()
                                && self.entries@[k].leg_symbols().contains(x)) by {
                        assert(symbols.has(x) <==> before.has(x) || entry.leg_symbols().contains(x));
                        if entry.leg_symbols().contains(x) {
                            assert(self.entries@[i as int].active());
                        }
                        assert(before.has(x) <==> (exists|k: int|
                            0 <= k < i && (#[trigger] self.entries@[k]).active()
                                && self.entries@[k].leg_symbols().contains(x)));
                    }
                }
            }
        }
        symbols
    }
}

/// Returns the number of active entries on an underlying.
pub fn active_underlying_count(state: &StrategyState, underlying: &str) -> (count: usize)
    ensures
        count == active_on(state.entries@, underlying@).len(),
{
    let wanted = to_lower(underlying);
    let mut count: usize = 0;
    let n: usize = state.entries.len();
    for i in 0..n
        invariant
            n == state.entries@.len(),
            wanted@ == lower(underlying@),
            count <= i,
            count == active_on(state.entries@.take(i as int), underlying@).len(),
    {
        proof {
            filter_step(
                state.entries@,
                i as int,
                |entry: StrategyStateEntry|
                    entry.active() && lower(entry.underlying@) == lower(underlying@),
            );
        }
        if state.entries[i].is_active() && same_text(
            to_lower(state.entries[i].underlying.as_str()).as_str(),
            wanted.as_str(),
        ) {
            count += 1;
        }
    }
    assert(state.entries@.take(n as int) =~= state.entries@);
    count
}

/// Returns the sector of an underlying.
pub fn sector_for<'a>(sectors: &'a TextMap<String>, underlying: &str) -> (sector: Option<&'a str>)
    ensures
        match sector {
            Some(found) => sector_of(*sectors, underlying@) == Some(found@),
            None => sector_of(*sectors, underlying@) is None,
        },
{
    match sectors.get(to_upper(underlying).as_str()) {
        Some(sector) => Some(sector.as_str()),
        None => None,
    }
}

/// Returns the number of active entries whose underlying belongs to a sector.
pub fn active_sector_count(
    state: &StrategyState,
    sectors: &TextMap<String>,
    sector: &str,
) -> (count: usize)
    ensures
        count == active_in_sector(state.entries@, *sectors, sector@).len(),
{
    let mut count: usize = 0;
    let n: usize = state.entries.len();
    for i in 0..n
        invariant
            n == state.entries@.len(),
            count <= i,
            count == active_in_sector(state.entries@.take(i as int), *sectors, sector@).len(),
    {
        proof {
            filter_step(
                state.entries@,
                i as int,
                |entry: StrategyStateEntry|
                    entry.active() && sector_of(*sectors, entry.underlying@) == Some(sector@),
            );
        }
        if state.entries[i].is_active() {
            match sector_for(sectors, state.entries[i].underlying.as_str()) {
                Some(found) => {
                    if same_text(found, sector) {
                        count += 1;
                    }
                },
                None => {},
            }
        }
    }
    assert(state.entries@.take(n as int) =~= state.entries@);
    count
}

} // verus!
