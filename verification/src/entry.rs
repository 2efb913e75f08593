//! Selected entries: the candidates that an engine may submit.
use vstd::prelude::*;

use crate::amount::Amount;
use crate::candidates::credit_name;
use crate::candidates::credit_spread_strategy_name;
use crate::candidates::debit_name;
use crate::candidates::debit_spread_strategy_name;
use crate::candidates::naked_name;
use crate::candidates::naked_option_strategy_name;
use crate::candidates::CreditSpreadKind;
use crate::candidates::DebitSpreadCandidate;
use crate::candidates::DebitSpreadKind;
use crate::candidates::IronCondorCandidate;
use crate::candidates::NakedOptionCandidate;
use crate::candidates::NakedOptionKind;
use crate::candidates::SpreadCandidate;
use crate::state::StrategyStateEntryDraft;
use crate::text::slices;
use crate::text::texts;

verus! {

/// Selected credit-spread candidate.
#[derive(Clone, Debug)]
pub struct SelectedEntry {
    /// Underlying symbol.
    pub underlying: String,
    /// Credit-spread kind.
    pub kind: CreditSpreadKind,
    /// Scored spread candidate.
    pub candidate: SpreadCandidate,
}

/// Selected iron-condor candidate.
#[derive(Clone, Debug)]
pub struct SelectedIronCondorEntry {
    /// Underlying symbol.
    pub underlying: String,
    /// Scored iron-condor candidate.
    pub candidate: IronCondorCandidate,
}

/// Selected long-premium debit-spread candidate.
#[derive(Clone, Debug)]
pub struct SelectedDebitEntry {
    /// Underlying symbol.
    pub underlying: String,
    /// Debit-spread kind.
    pub kind: DebitSpreadKind,
    /// Scored debit-spread candidate.
    pub candidate: DebitSpreadCandidate,
}

/// Selected naked short option candidate.
#[derive(Clone, Debug)]
pub struct SelectedNakedOptionEntry {
    /// Underlying symbol.
    pub underlying: String,
    /// Naked option kind.
    pub kind: NakedOptionKind,
    /// Scored naked-option candidate.
    pub candidate: NakedOptionCandidate,
}

/// Selected options strategy candidate.
#[derive(Clone, Debug)]
pub enum SelectedOptionsEntry {
    /// Two-leg credit spread.
    Credit(SelectedEntry),
    /// Four-leg iron condor.
    IronCondor(SelectedIronCondorEntry),
    /// Two-leg debit spread.
    Debit(SelectedDebitEntry),
    /// Single-leg naked short option.
    NakedOption(SelectedNakedOptionEntry),
}

/// Stable metadata shared by selection, submission, ledgers, and outcome tracking.
#[derive(Clone, Debug)]
pub struct OptionEntryDescriptor {
    /// Stable strategy name.
    pub strategy: &'static str,
    /// Underlying symbol.
    pub underlying: String,
    /// Candidate type written to analytical ledgers.
    pub candidate_type: &'static str,
    /// Candidate option symbols in canonical identity order.
    pub symbols: Vec<String>,
    /// Scanner score.
    pub score: Amount,
    /// Entry premium kind.
    pub premium_kind: EntryPremiumKind,
    /// Entry premium per spread or option.
    pub premium: Amount,
}

/// Premium direction for a selected entry.
#[derive(Clone, Copy, Debug, PartialEq, Eq, Structural)]
pub enum EntryPremiumKind {
    /// Credit received at entry.
    Credit,
    /// Debit paid at entry.
    Debit,
}

impl EntryPremiumKind {
    /// The ledger label.
    pub open spec fn label(self) -> Seq<char> {
        match self {
            EntryPremiumKind::Credit => "credit"@,
            EntryPremiumKind::Debit => "debit"@,
        }
    }

    /// Returns the stable ledger label.
    #[must_use]
    pub fn as_str(self) -> (label: &'static str)
        ensures
            label@ == self.label(),
    {
        match self {
            EntryPremiumKind::Credit => "credit",
            EntryPremiumKind::Debit => "debit",
        }
    }
}

impl OptionEntryDescriptor {
    /// Whether this is the metadata of an entry.
    pub open spec fn describes(self, entry: SelectedOptionsEntry) -> bool {
        &&& self.strategy@ == entry.strategy()
        &&& self.underlying@ == entry.underlying_chars()
        &&& self.candidate_type@ == entry.candidate_type()
        &&& texts(self.symbols@) == entry.symbols()
        &&& self.score == entry.score_amount()
        &&& self.premium_kind == entry.premium_kind()
        &&& self.premium == entry.premium_amount()
    }
}

impl SelectedOptionsEntry {
    /// The underlying symbol.
    pub open spec fn underlying_chars(self) -> Seq<char> {
        match self {
            SelectedOptionsEntry::Credit(entry) => entry.underlying@,
            SelectedOptionsEntry::IronCondor(entry) => entry.underlying@,
            SelectedOptionsEntry::Debit(entry) => entry.underlying@,
            SelectedOptionsEntry::NakedOption(entry) => entry.underlying@,
        }
    }

    /// The strategy name.
    pub open spec fn strategy(self) -> Seq<char> {
        match self {
            SelectedOptionsEntry::Credit(entry) => credit_name(entry.kind),
            SelectedOptionsEntry::IronCondor(entry) => "iron_condor"@,
            SelectedOptionsEntry::Debit(entry) => debit_name(entry.kind),
            SelectedOptionsEntry::NakedOption(entry) => naked_name(entry.kind),
        }
    }

    /// The candidate type.
    pub open spec fn candidate_type(self) -> Seq<char> {
        match self {
            SelectedOptionsEntry::Credit(entry) => "credit_spread"@,
            SelectedOptionsEntry::IronCondor(entry) => "iron_condor"@,
            SelectedOptionsEntry::Debit(entry) => "debit_spread"@,
            SelectedOptionsEntry::NakedOption(entry) => "naked_option"@,
        }
    }

    /// The option symbols in identity order: the leg that sets the premium's direction first.
    pub open spec fn symbols(self) -> Seq<Seq<char>> {
        match self {
            SelectedOptionsEntry::Credit(entry) => seq![
                entry.candidate.short.symbol@,
                entry.candidate.long.symbol@,
            ],
            SelectedOptionsEntry::IronCondor(entry) => seq![
                entry.candidate.put.short.symbol@,
                entry.candidate.put.long.symbol@,
                entry.candidate.call.short.symbol@,
                entry.candidate.call.long.symbol@,
            ],
            SelectedOptionsEntry::Debit(entry) => seq![
                entry.candidate.long.symbol@,
                entry.candidate.short.symbol@,
            ],
            SelectedOptionsEntry::NakedOption(entry) => seq![entry.candidate.short.symbol@],
        }
    }

    /// The scanner score.
    pub open spec fn score_amount(self) -> Amount {
        match self {
            SelectedOptionsEntry::Credit(entry) => entry.candidate.score,
            SelectedOptionsEntry::IronCondor(entry) => entry.candidate.score,
            SelectedOptionsEntry::Debit(entry) => entry.candidate.score,
            SelectedOptionsEntry::NakedOption(entry) => entry.candidate.score,
        }
    }

    /// The direction of the entry premium.
    pub open spec fn premium_kind(self) -> EntryPremiumKind {
        if self is Debit {
            EntryPremiumKind::Debit
        } else {
            EntryPremiumKind::Credit
        }
    }

    /// The entry premium.
    pub open spec fn premium_amount(self) -> Amount {
        match self {
            SelectedOptionsEntry::Credit(entry) => entry.candidate.credit,
            SelectedOptionsEntry::IronCondor(entry) => entry.candidate.credit,
            SelectedOptionsEntry::Debit(entry) => entry.candidate.debit,
            SelectedOptionsEntry::NakedOption(entry) => entry.candidate.credit,
        }
    }

    /// The symbol that a state entry keeps as its short leg.
    pub open spec fn state_short(self) -> Seq<char> {
        match self {
            SelectedOptionsEntry::Credit(entry) => entry.candidate.short.symbol@,
            SelectedOptionsEntry::IronCondor(entry) => entry.candidate.put.short.symbol@,
            SelectedOptionsEntry::Debit(entry) => entry.candidate.short.symbol@,
            SelectedOptionsEntry::NakedOption(entry) => entry.candidate.short.symbol@,
        }
    }

    /// The symbol that a state entry keeps as its long leg.
    pub open spec fn state_long(self) -> Seq<char> {
        match self {
            SelectedOptionsEntry::Credit(entry) => entry.candidate.long.symbol@,
            SelectedOptionsEntry::IronCondor(entry) => entry.candidate.put.long.symbol@,
            SelectedOptionsEntry::Debit(entry) => entry.candidate.long.symbol@,
            SelectedOptionsEntry::NakedOption(entry) => Seq::empty(),
        }
    }

    /// The credit that a state entry keeps; a debit is a negative credit.
    pub open spec fn state_credit(self) -> Amount {
        if self is Debit {
            self.premium_amount().negated_spec()
        } else {
            self.premium_amount()
        }
    }

    /// Whether a draft records this entry.
    pub open spec fn drafted_as(self, draft: StrategyStateEntryDraft) -> bool {
        &&& draft.underlying@ == self.underlying_chars()
        &&& draft.strategy@ == self.strategy()
        &&& draft.short_symbol@ == self.state_short()
        &&& draft.long_symbol@ == self.state_long()
        &&& match self {
            SelectedOptionsEntry::IronCondor(entry) => {
                &&& draft.short_call_symbol == Some(entry.candidate.call.short.symbol)
                &&& draft.long_call_symbol == Some(entry.candidate.call.long.symbol)
            },
            _ => draft.short_call_symbol is None && draft.long_call_symbol is None,
        }
        &&& draft.credit == self.state_credit()
        &&& draft.debit == if self is Debit {
            Some(self.premium_amount())
        } else {
            None
        }
        &&& draft.score == self.score_amount()
    }

    /// Returns shared selected-entry metadata.
    #[must_use]
    pub fn descriptor(&self) -> (descriptor: OptionEntryDescriptor)
        ensures
            descriptor.describes(*self),
    {
        match self {
            SelectedOptionsEntry::Credit(entry) => {
                let symbols = vec![
                    entry.candidate.short.symbol.clone(),
                    entry.candidate.long.symbol.clone(),
                ];
                assert(texts(symbols@) =~= self.symbols());
                OptionEntryDescriptor {
                    strategy: credit_spread_strategy_name(entry.kind),
                    underlying: entry.underlying.clone(),
                    candidate_type: "credit_spread",
                    symbols,
                    score: entry.candidate.score,
                    premium_kind: EntryPremiumKind::Credit,
                    premium: entry.candidate.credit,
                }
            },
            SelectedOptionsEntry::IronCondor(entry) => {
                let symbols = vec![
                    entry.candidate.put.short.symbol.clone(),
                    entry.candidate.put.long.symbol.clone(),
                    entry.candidate.call.short.symbol.clone(),
                    entry.candidate.call.long.symbol.clone(),
                ];
                assert(texts(symbols@) =~= self.symbols());
                OptionEntryDescriptor {
                    strategy: "iron_condor",
                    underlying: entry.underlying.clone(),
                    candidate_type: "iron_condor",
                    symbols,
                    score: entry.candidate.score,
                    premium_kind: EntryPremiumKind::Credit,
                    premium: entry.candidate.credit,
                }
            },
            SelectedOptionsEntry::Debit(entry) => {
                let symbols = vec![
                    entry.candidate.long.symbol.clone(),
                    entry.candidate.short.symbol.clone(),
                ];
                assert(texts(symbols@) =~= self.symbols());
                OptionEntryDescriptor {
                    strategy: debit_spread_strategy_name(entry.kind),
                    underlying: entry.underlying.clone(),
                    candidate_type: "debit_spread",
                    symbols,
                    score: entry.candidate.score,
                    premium_kind: EntryPremiumKind::Debit,
                    premium: entry.candidate.debit,
                }
            },
            SelectedOptionsEntry::NakedOption(entry) => {
                let symbols = vec![entry.candidate.short.symbol.clone()];
                assert(texts(symbols@) =~= self.symbols());
                OptionEntryDescriptor {
                    strategy: naked_option_strategy_name(entry.kind),
                    underlying: entry.underlying.clone(),
                    candidate_type: "naked_option",
                    symbols,
                    score: entry.candidate.score,
                    premium_kind: EntryPremiumKind::Credit,
                    premium: entry.candidate.credit,
                }
            },
        }
    }

    /// Returns the scanner score.
    #[must_use]
    pub fn score(&self) -> (score: Amount)
        ensures
            score == self.score_amount(),
    {
        match self {
            SelectedOptionsEntry::Credit(entry) => entry.candidate.score,
            SelectedOptionsEntry::IronCondor(entry) => entry.candidate.score,
            SelectedOptionsEntry::Debit(entry) => entry.candidate.score,
            SelectedOptionsEntry::NakedOption(entry) => entry.candidate.score,
        }
    }

    /// Returns the underlying symbol.
    #[must_use]
    pub fn underlying(&self) -> (underlying: &str)
        ensures
            underlying@ == self.underlying_chars(),
    {
        match self {
            SelectedOptionsEntry::Credit(entry) => entry.underlying.as_str(),
            SelectedOptionsEntry::IronCondor(entry) => entry.underlying.as_str(),
            SelectedOptionsEntry::Debit(entry) => entry.underlying.as_str(),
            SelectedOptionsEntry::NakedOption(entry) => entry.underlying.as_str(),
        }
    }

    /// Returns the stable strategy name.
    #[must_use]
    pub fn strategy_name(&self) -> (name: &'static str)
        ensures
            name@ == self.strategy(),
    {
        match self {
            SelectedOptionsEntry::Credit(entry) => credit_spread_strategy_name(entry.kind),
            SelectedOptionsEntry::IronCondor(entry) => "iron_condor",
            SelectedOptionsEntry::Debit(entry) => debit_spread_strategy_name(entry.kind),
            SelectedOptionsEntry::NakedOption(entry) => naked_option_strategy_name(entry.kind),
        }
    }

    /// Returns whether the selected entry is a single-leg naked option.
    #[must_use]
    pub fn is_naked_option(&self) -> (naked: bool)
        ensures
            naked == (self is NakedOption),
    {
        matches!(self, SelectedOptionsEntry::NakedOption(_))
    }

    /// Returns the entry premium kind.
    #[must_use]
    pub fn entry_premium_kind(&self) -> (label: &'static str)
        ensures
            label@ == self.premium_kind().label(),
    {
        self.descriptor().premium_kind.as_str()
    }

    /// Returns the entry premium per spread or option.
    #[must_use]
    pub fn entry_premium(&self) -> (premium: Amount)
        ensures
            premium == self.premium_amount(),
    {
        self.descriptor().premium
    }

    /// Returns the candidate option symbols.
    #[must_use]
    pub fn option_symbols(&self) -> (symbols: Vec<&str>)
        ensures
            slices(symbols@) == self.symbols(),
    {
        let symbols = match self {
            SelectedOptionsEntry::Credit(entry) => vec![
                entry.candidate.short.symbol.as_str(),
                entry.candidate.long.symbol.as_str(),
            ],
            SelectedOptionsEntry::IronCondor(entry) => vec![
                entry.candidate.put.short.symbol.as_str(),
                entry.candidate.put.long.symbol.as_str(),
                entry.candidate.call.short.symbol.as_str(),
                entry.candidate.call.long.symbol.as_str(),
            ],
            SelectedOptionsEntry::Debit(entry) => vec![
                entry.candidate.long.symbol.as_str(),
                entry.candidate.short.symbol.as_str(),
            ],
            SelectedOptionsEntry::NakedOption(entry) => vec![entry.candidate.short.symbol.as_str()],
        };
        assert(slices(symbols@) =~= self.symbols());
        symbols
    }

    /// Builds a strategy-state draft for accepted broker submissions.
    #[must_use]
    pub fn state_entry_draft(
        &self,
        trade_date: &str,
        order_list_id: &str,
        quantity: u64,
        submitted_at_utc: Option<String>,
        parent_order_id: Option<String>,
    ) -> (draft: StrategyStateEntryDraft)
        ensures
            self.drafted_as(draft),
            draft.trade_date@ == trade_date@,
            draft.order_list_id@ == order_list_id@,
            draft.quantity == quantity,
            draft.risk_capital_usd is None,
            draft.parent_order_id == parent_order_id,
            draft.submitted_at_utc == submitted_at_utc,
            draft.spread_instrument_id is None,
            draft.spread_raw_symbol is None,
            draft.spread_legs@.len() == 0,
            draft.entry_pricing_source is None,
    {
        match self {
            SelectedOptionsEntry::Credit(entry) => StrategyStateEntryDraft {
                trade_date: trade_date.to_owned(),
                underlying: entry.underlying.clone(),
                strategy: credit_spread_strategy_name(entry.kind).to_owned(),
                order_list_id: order_list_id.to_owned(),
                short_symbol: entry.candidate.short.symbol.clone(),
                long_symbol: entry.candidate.long.symbol.clone(),
                short_call_symbol: None,
                long_call_symbol: None,
                quantity,
                credit: entry.candidate.credit,
                debit: None,
                risk_capital_usd: None,
                score: entry.candidate.score,
                parent_order_id,
                submitted_at_utc,
                spread_instrument_id: None,
                spread_raw_symbol: None,
                spread_legs: Vec::new(),
                entry_pricing_source: None,
            },
            SelectedOptionsEntry::IronCondor(entry) => StrategyStateEntryDraft {
                trade_date: trade_date.to_owned(),
                underlying: entry.underlying.clone(),
                strategy: "iron_condor".to_owned(),
                order_list_id: order_list_id.to_owned(),
                short_symbol: entry.candidate.put.short.symbol.clone(),
                long_symbol: entry.candidate.put.long.symbol.clone(),
                short_call_symbol: Some(entry.candidate.call.short.symbol.clone()),
                long_call_symbol: Some(entry.candidate.call.long.symbol.clone()),
                quantity,
                credit: entry.candidate.credit,
                debit: None,
                risk_capital_usd: None,
                score: entry.candidate.score,
                parent_order_id,
                submitted_at_utc,
                spread_instrument_id: None,
                spread_raw_symbol: None,
                spread_legs: Vec::new(),
                entry_pricing_source: None,
            },
            SelectedOptionsEntry::Debit(entry) => StrategyStateEntryDraft {
                trade_date: trade_date.to_owned(),
                underlying: entry.underlying.clone(),
                strategy: debit_spread_strategy_name(entry.kind).to_owned(),
                order_list_id: order_list_id.to_owned(),
                short_symbol: entry.candidate.short.symbol.clone(),
                long_symbol: entry.candidate.long.symbol.clone(),
                short_call_symbol: None,
                long_call_symbol: None,
                quantity,
                credit: entry.candidate.debit.negated(),
                debit: Some(entry.candidate.debit),
                risk_capital_usd: None,
                score: entry.candidate.score,
                parent_order_id,
                submitted_at_utc,
                spread_instrument_id: None,
                spread_raw_symbol: None,
                spread_legs: Vec::new(),
                entry_pricing_source: None,
            },
            SelectedOptionsEntry::NakedOption(entry) => StrategyStateEntryDraft {
                trade_date: trade_date.to_owned(),
                underlying: entry.underlying.clone(),
                strategy: naked_option_strategy_name(entry.kind).to_owned(),
                order_list_id: order_list_id.to_owned(),
                short_symbol: entry.candidate.short.symbol.clone(),
                long_symbol: String::new(),
                short_call_symbol: None,
                long_call_symbol: None,
                quantity,
                credit: entry.candidate.credit,
                debit: None,
                risk_capital_usd: None,
                score: entry.candidate.score,
                parent_order_id,
                submitted_at_utc,
                spread_instrument_id: None,
                spread_raw_symbol: None,
                spread_legs: Vec::new(),
                entry_pricing_source: None,
            },
        }
    }

    /// Returns a copy.
    pub fn copy(&self) -> (copy: SelectedOptionsEntry)
        ensures
            copy == *self,
    {
        match self {
            SelectedOptionsEntry::Credit(entry) => SelectedOptionsEntry::Credit(
                SelectedEntry {
                    underlying: entry.underlying.clone(),
                    kind: entry.kind,
                    candidate: entry.candidate.copy(),
                },
            ),
            SelectedOptionsEntry::IronCondor(entry) => SelectedOptionsEntry::IronCondor(
                SelectedIronCondorEntry {
                    underlying: entry.underlying.clone(),
                    candidate: entry.candidate.copy(),
                },
            ),
            SelectedOptionsEntry::Debit(entry) => SelectedOptionsEntry::Debit(
                SelectedDebitEntry {
                    underlying: entry.underlying.clone(),
                    kind: entry.kind,
                    candidate: entry.candidate.copy(),
                },
            ),
            SelectedOptionsEntry::NakedOption(entry) => SelectedOptionsEntry::NakedOption(
                SelectedNakedOptionEntry {
                    underlying: entry.underlying.clone(),
                    kind: entry.kind,
                    candidate: entry.candidate.copy(),
                },
            ),
        }
    }
}

/// A recorded entry has the legs of the candidate that it was drafted from: the same symbols when
/// every leg has one, and it is naked or a debit spread exactly when the candidate is.
pub proof fn draft_keeps_the_candidate(
    entry: SelectedOptionsEntry,
    draft: StrategyStateEntryDraft,
    now: String,
)
    requires
        entry.drafted_as(draft),
        forall|i: int| 0 <= i < entry.symbols().len() ==> (#[trigger] entry.symbols()[i]).len() > 0,
    ensures
        crate::state::recorded_entry(draft, now).active(),
        crate::state::recorded_entry(draft, now).naked() == (entry is NakedOption),
        crate::state::recorded_entry(draft, now).debit_spread() == (entry is Debit),
        crate::state::recorded_entry(draft, now).leg_symbols().to_multiset()
            == entry.symbols().to_multiset(),
{
    let recorded = crate::state::recorded_entry(draft, now);
    reveal_strlit("put_credit");
    reveal_strlit("call_credit");
    reveal_strlit("put_debit");
    reveal_strlit("call_debit");
    reveal_strlit("iron_condor");
    reveal_strlit("naked_put");
    reveal_strlit("naked_call");
    reveal_strlit("naked_put_1_3dte");
    reveal_strlit("naked_call_1_3dte");
    let name = entry.strategy();
    assert(name[0] == 'n' <==> entry is NakedOption);
    if entry is Credit {
        assert(name.len() == 10 || name.len() == 11);
        assert(name[4] == 'c' || name[5] == 'c');
        assert("put_debit"@.len() == 9);
        assert("call_debit"@.len() == 10);
        assert("call_debit"@[0] == 'c');
        assert(entry->Credit_0.kind is Put ==> name[0] == 'p');
    }
    let symbols = entry.symbols();
    assert(symbols[0].len() > 0);
    match entry {
        SelectedOptionsEntry::Credit(_) => {
            assert(symbols[1].len() > 0);
            assert(recorded.leg_symbols() =~= symbols);
        },
        SelectedOptionsEntry::IronCondor(_) => {
            assert(symbols[1].len() > 0 && symbols[2].len() > 0 && symbols[3].len() > 0);
            assert(recorded.leg_symbols() =~= symbols);
        },
        SelectedOptionsEntry::Debit(_) => {
            assert(symbols[1].len() > 0);
            let swapped = seq![symbols[1], symbols[0]];
            assert(recorded.leg_symbols() =~= swapped);
            broadcast use vstd::seq_lib::group_to_multiset_ensures;
            assert(symbols =~= Seq::<Seq<char>>::empty().push(symbols[0]).push(symbols[1]));
            assert(swapped =~= Seq::<Seq<char>>::empty().push(symbols[1]).push(symbols[0]));
            assert(swapped.to_multiset() =~= symbols.to_multiset());
        },
        SelectedOptionsEntry::NakedOption(_) => {
            assert(recorded.leg_symbols() =~= symbols);
        },
    }
}

} // verus!
