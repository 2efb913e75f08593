//! Entry planning: what a selected candidate would trade, before any gate is asked.
use vstd::prelude::*;

use crate::amount::Amount;
use crate::candidate_set::AlpacaOptionsCandidateProfile;
use crate::candidate_set::OptionsCandidateSet;
use crate::candidate_set::ProfiledOptionsEntry;
use crate::candidates::CreditSpreadKind;
use crate::candidates::DebitSpreadKind;
use crate::candidates::NakedOptionKind;
use crate::entry::EntryPremiumKind;
use crate::entry::OptionEntryDescriptor;
use crate::entry::SelectedOptionsEntry;
use crate::text::texts;

pub mod call_credit;
pub mod call_debit;
pub mod iron_condor;
pub mod naked_option;
pub mod put_credit;
pub mod put_debit;

verus! {

/// Account-strategy entry plan produced from scanner-selected candidates.
#[derive(Clone, Debug)]
pub struct AlpacaOptionsEntryPlan {
    /// Originating scanner profile, when the plan came from scanner candidate data.
    pub profile: Option<AlpacaOptionsCandidateProfile>,
    /// Selected strategy-family candidate.
    pub entry: SelectedOptionsEntry,
    /// Stable family metadata.
    pub family: AlpacaOptionsEntryFamily,
    /// Underlying symbol.
    pub underlying: String,
    /// Stable strategy name.
    pub strategy: &'static str,
    /// Candidate symbols in canonical identity order.
    pub symbols: Vec<String>,
    /// Scanner score.
    pub score: Amount,
    /// Entry premium direction.
    pub premium_kind: EntryPremiumKind,
    /// Entry premium per spread or option.
    pub premium: Amount,
    /// Planned order legs. The account strategy owns converting these into orders.
    pub order_legs: Vec<AlpacaOptionsEntryPlanLeg>,
}

/// Stable strategy family for a planned selected entry.
#[derive(Clone, Copy, Debug, PartialEq, Eq, Structural)]
pub enum AlpacaOptionsEntryFamily {
    /// Put credit spread.
    PutCredit,
    /// Call credit spread.
    CallCredit,
    /// Iron condor.
    IronCondor,
    /// Put debit spread.
    PutDebit,
    /// Call debit spread.
    CallDebit,
    /// Naked short put.
    NakedPut,
    /// Naked short call.
    NakedCall,
    /// 1-3 DTE naked short put.
    NakedPutOneToThreeDte,
    /// 1-3 DTE naked short call.
    NakedCallOneToThreeDte,
}

impl AlpacaOptionsEntryFamily {
    /// The runtime family label.
    pub open spec fn label(self) -> Seq<char> {
        match self {
            AlpacaOptionsEntryFamily::PutCredit => "put_credit"@,
            AlpacaOptionsEntryFamily::CallCredit => "call_credit"@,
            AlpacaOptionsEntryFamily::IronCondor => "iron_condor"@,
            AlpacaOptionsEntryFamily::PutDebit => "put_debit"@,
            AlpacaOptionsEntryFamily::CallDebit => "call_debit"@,
            AlpacaOptionsEntryFamily::NakedPut => "naked_put"@,
            AlpacaOptionsEntryFamily::NakedCall => "naked_call"@,
            AlpacaOptionsEntryFamily::NakedPutOneToThreeDte => "naked_put_1_3dte"@,
            AlpacaOptionsEntryFamily::NakedCallOneToThreeDte => "naked_call_1_3dte"@,
        }
    }

    /// Returns the stable runtime family label.
    #[must_use]
    pub fn as_str(self) -> (label: &'static str)
        ensures
            label@ == self.label(),
    {
        match self {
            AlpacaOptionsEntryFamily::PutCredit => "put_credit",
            AlpacaOptionsEntryFamily::CallCredit => "call_credit",
            AlpacaOptionsEntryFamily::IronCondor => "iron_condor",
            AlpacaOptionsEntryFamily::PutDebit => "put_debit",
            AlpacaOptionsEntryFamily::CallDebit => "call_debit",
            AlpacaOptionsEntryFamily::NakedPut => "naked_put",
            AlpacaOptionsEntryFamily::NakedCall => "naked_call",
            AlpacaOptionsEntryFamily::NakedPutOneToThreeDte => "naked_put_1_3dte",
            AlpacaOptionsEntryFamily::NakedCallOneToThreeDte => "naked_call_1_3dte",
        }
    }
}

/// Planned order-leg action. The account strategy owns actual order construction and submission.
#[derive(Clone, Copy, Debug, PartialEq, Eq, Structural)]
pub enum AlpacaOptionsPlanSide {
    /// Buy the leg.
    Buy,
    /// Sell the leg.
    Sell,
}

impl AlpacaOptionsPlanSide {
    /// The diagnostic label.
    pub open spec fn label(self) -> Seq<char> {
        match self {
            AlpacaOptionsPlanSide::Buy => "buy"@,
            AlpacaOptionsPlanSide::Sell => "sell"@,
        }
    }

    /// The side that undoes this one.
    pub open spec fn opposite(self) -> AlpacaOptionsPlanSide {
        match self {
            AlpacaOptionsPlanSide::Buy => AlpacaOptionsPlanSide::Sell,
            AlpacaOptionsPlanSide::Sell => AlpacaOptionsPlanSide::Buy,
        }
    }

    /// Returns the stable diagnostic label.
    #[must_use]
    pub fn as_str(self) -> (label: &'static str)
        ensures
            label@ == self.label(),
    {
        match self {
            AlpacaOptionsPlanSide::Buy => "buy",
            AlpacaOptionsPlanSide::Sell => "sell",
        }
    }
}

/// Planned leg metadata for an entry plan.
#[derive(Clone, Debug)]
pub struct AlpacaOptionsEntryPlanLeg {
    /// Option symbol.
    pub symbol: String,
    /// Planned side.
    pub side: AlpacaOptionsPlanSide,
}

/// The symbols and sides of some legs.
pub open spec fn leg_views(legs: Seq<AlpacaOptionsEntryPlanLeg>) -> Seq<(
    Seq<char>,
    AlpacaOptionsPlanSide,
)> {
    Seq::new(legs.len(), |i: int| (legs[i].symbol@, legs[i].side))
}

/// The legs that open an entry: short legs are sold and long legs are bought.
pub open spec fn opening_legs(entry: SelectedOptionsEntry) -> Seq<(
    Seq<char>,
    AlpacaOptionsPlanSide,
)> {
    match entry {
        SelectedOptionsEntry::Credit(entry) => seq![
            (entry.candidate.short.symbol@, AlpacaOptionsPlanSide::Sell),
            (entry.candidate.long.symbol@, AlpacaOptionsPlanSide::Buy),
        ],
        SelectedOptionsEntry::IronCondor(entry) => seq![
            (entry.candidate.put.short.symbol@, AlpacaOptionsPlanSide::Sell),
            (entry.candidate.put.long.symbol@, AlpacaOptionsPlanSide::Buy),
            (entry.candidate.call.short.symbol@, AlpacaOptionsPlanSide::Sell),
            (entry.candidate.call.long.symbol@, AlpacaOptionsPlanSide::Buy),
        ],
        SelectedOptionsEntry::Debit(entry) => seq![
            (entry.candidate.long.symbol@, AlpacaOptionsPlanSide::Buy),
            (entry.candidate.short.symbol@, AlpacaOptionsPlanSide::Sell),
        ],
        SelectedOptionsEntry::NakedOption(entry) => seq![
            (entry.candidate.short.symbol@, AlpacaOptionsPlanSide::Sell),
        ],
    }
}

/// The family of an entry.
pub open spec fn family_of(entry: SelectedOptionsEntry) -> AlpacaOptionsEntryFamily {
    match entry {
        SelectedOptionsEntry::Credit(entry) => match entry.kind {
            CreditSpreadKind::Put => AlpacaOptionsEntryFamily::PutCredit,
            CreditSpreadKind::Call => AlpacaOptionsEntryFamily::CallCredit,
        },
        SelectedOptionsEntry::IronCondor(_) => AlpacaOptionsEntryFamily::IronCondor,
        SelectedOptionsEntry::Debit(entry) => match entry.kind {
            DebitSpreadKind::Put => AlpacaOptionsEntryFamily::PutDebit,
            DebitSpreadKind::Call => AlpacaOptionsEntryFamily::CallDebit,
        },
        SelectedOptionsEntry::NakedOption(entry) => match entry.kind {
            NakedOptionKind::Put => AlpacaOptionsEntryFamily::NakedPut,
            NakedOptionKind::Call => AlpacaOptionsEntryFamily::NakedCall,
            NakedOptionKind::PutOneToThreeDte => AlpacaOptionsEntryFamily::NakedPutOneToThreeDte,
            NakedOptionKind::CallOneToThreeDte => AlpacaOptionsEntryFamily::NakedCallOneToThreeDte,
        },
    }
}

impl AlpacaOptionsEntryPlan {
    /// Whether this plan is that of an entry, filed under a family and a profile.
    pub open spec fn plans(
        self,
        profile: Option<AlpacaOptionsCandidateProfile>,
        entry: SelectedOptionsEntry,
        family: AlpacaOptionsEntryFamily,
    ) -> bool {
        &&& self.profile == profile
        &&& self.entry == entry
        &&& self.family == family
        &&& self.underlying@ == entry.underlying_chars()
        &&& self.strategy@ == entry.strategy()
        &&& texts(self.symbols@) == entry.symbols()
        &&& self.score == entry.score_amount()
        &&& self.premium_kind == entry.premium_kind()
        &&& self.premium == entry.premium_amount()
        &&& leg_views(self.order_legs@) == opening_legs(entry)
    }

    /// Whether the plan is a two-leg vertical spread.
    pub open spec fn vertical(self) -> bool {
        ||| self.family is PutCredit
        ||| self.family is CallCredit
        ||| self.family is PutDebit
        ||| self.family is CallDebit
    }

    /// Plans an entry under a family.
    pub fn from_entry(entry: SelectedOptionsEntry, family: AlpacaOptionsEntryFamily) -> (plan: AlpacaOptionsEntryPlan)
        ensures
            plan.plans(None, entry, family),
    {
        let descriptor = entry.descriptor();
        let order_legs = planned_order_legs(&entry);
        AlpacaOptionsEntryPlan::from_parts(None, entry, family, descriptor, order_legs)
    }

    /// Plans a profiled entry under a family.
    pub fn from_profiled_entry(entry: ProfiledOptionsEntry, family: AlpacaOptionsEntryFamily) -> (plan: AlpacaOptionsEntryPlan)
        ensures
            plan.plans(Some(entry.profile), entry.entry, family),
    {
        let descriptor = entry.descriptor();
        let order_legs = planned_order_legs(entry.selected_entry());
        AlpacaOptionsEntryPlan::from_parts(
            Some(entry.profile),
            entry.entry,
            family,
            descriptor,
            order_legs,
        )
    }

    fn from_parts(
        profile: Option<AlpacaOptionsCandidateProfile>,
        entry: SelectedOptionsEntry,
        family: AlpacaOptionsEntryFamily,
        descriptor: OptionEntryDescriptor,
        order_legs: Vec<AlpacaOptionsEntryPlanLeg>,
    ) -> (plan: AlpacaOptionsEntryPlan)
        requires
            descriptor.describes(entry),
            leg_views(order_legs@) == opening_legs(entry),
        ensures
            plan.plans(profile, entry, family),
    {
        AlpacaOptionsEntryPlan {
            profile,
            entry,
            family,
            underlying: descriptor.underlying,
            strategy: descriptor.strategy,
            symbols: descriptor.symbols,
            score: descriptor.score,
            premium_kind: descriptor.premium_kind,
            premium: descriptor.premium,
            order_legs,
        }
    }

    /// Returns `true` when the entry plan represents a two-leg vertical spread.
    #[must_use]
    pub fn is_vertical_spread(&self) -> (vertical: bool)
        ensures
            vertical == self.vertical(),
    {
        matches!(
            self.family,
            AlpacaOptionsEntryFamily::PutCredit | AlpacaOptionsEntryFamily::CallCredit
            | AlpacaOptionsEntryFamily::PutDebit | AlpacaOptionsEntryFamily::CallDebit
        )
    }
}

/// Plans the selected candidate from a scanner candidate set.
#[must_use]
pub fn plan_selected_candidate(candidates: &OptionsCandidateSet) -> (plan: Option<
    AlpacaOptionsEntryPlan,
>)
    ensures
        match plan {
            Some(made) => candidates.selected() is Some && made.plans(
                Some(candidates.selected()->0.profile),
                candidates.selected()->0.entry,
                family_of(candidates.selected()->0.entry),
            ),
            None => candidates.selected() is None,
        },
{
    match candidates.selected_entry() {
        Some(entry) => plan_profiled_selected_entry(entry.copy()),
        None => None,
    }
}

/// Plans one selected entry without reading account state or submitting orders.
#[must_use]
pub fn plan_selected_entry(entry: SelectedOptionsEntry) -> (plan: Option<AlpacaOptionsEntryPlan>)
    ensures
        plan matches Some(made) && made.plans(None, entry, family_of(entry)),
{
    match entry {
        SelectedOptionsEntry::Credit(entry) => match entry.kind {
            CreditSpreadKind::Put => Some(put_credit::plan(entry)),
            CreditSpreadKind::Call => Some(call_credit::plan(entry)),
        },
        SelectedOptionsEntry::IronCondor(entry) => Some(iron_condor::plan(entry)),
        SelectedOptionsEntry::Debit(entry) => match entry.kind {
            DebitSpreadKind::Put => Some(put_debit::plan(entry)),
            DebitSpreadKind::Call => Some(call_debit::plan(entry)),
        },
        SelectedOptionsEntry::NakedOption(entry) => match entry.kind {
            NakedOptionKind::Put => Some(naked_option::plan_put(entry)),
            NakedOptionKind::Call => Some(naked_option::plan_call(entry)),
            NakedOptionKind::PutOneToThreeDte => Some(naked_option::plan_put_1_3dte(entry)),
            NakedOptionKind::CallOneToThreeDte => Some(naked_option::plan_call_1_3dte(entry)),
        },
    }
}

/// Plans one profiled selected entry without reading account state or submitting orders.
#[must_use]
pub fn plan_profiled_selected_entry(entry: ProfiledOptionsEntry) -> (plan: Option<
    AlpacaOptionsEntryPlan,
>)
    ensures
        plan matches Some(made) && made.plans(
            Some(entry.profile),
            entry.entry,
            family_of(entry.entry),
        ),
{
    match entry.selected_entry() {
        SelectedOptionsEntry::Credit(selected) => match selected.kind {
            CreditSpreadKind::Put => Some(put_credit::plan_profiled(entry)),
            CreditSpreadKind::Call => Some(call_credit::plan_profiled(entry)),
        },
        SelectedOptionsEntry::IronCondor(_) => Some(iron_condor::plan_profiled(entry)),
        SelectedOptionsEntry::Debit(selected) => match selected.kind {
            DebitSpreadKind::Put => Some(put_debit::plan_profiled(entry)),
            DebitSpreadKind::Call => Some(call_debit::plan_profiled(entry)),
        },
        SelectedOptionsEntry::NakedOption(selected) => match selected.kind {
            NakedOptionKind::Put => Some(naked_option::plan_put_profiled(entry)),
            NakedOptionKind::Call => Some(naked_option::plan_call_profiled(entry)),
            NakedOptionKind::PutOneToThreeDte => Some(
                naked_option::plan_put_1_3dte_profiled(entry),
            ),
            NakedOptionKind::CallOneToThreeDte => Some(
                naked_option::plan_call_1_3dte_profiled(entry),
            ),
        },
    }
}

fn plan_leg(symbol: &String, side: AlpacaOptionsPlanSide) -> (leg: AlpacaOptionsEntryPlanLeg)
    ensures
        leg.symbol == *symbol,
        leg.side == side,
{
    AlpacaOptionsEntryPlanLeg { symbol: symbol.clone(), side }
}

/// Returns the legs that open an entry.
pub fn planned_order_legs(entry: &SelectedOptionsEntry) -> (legs: Vec<AlpacaOptionsEntryPlanLeg>)
    ensures
        leg_views(legs@) == opening_legs(*entry),
{
    let legs = match entry {
        SelectedOptionsEntry::Credit(entry) => vec![
            plan_leg(&entry.candidate.short.symbol, AlpacaOptionsPlanSide::Sell),
            plan_leg(&entry.candidate.long.symbol, AlpacaOptionsPlanSide::Buy),
        ],
        SelectedOptionsEntry::IronCondor(entry) => vec![
            plan_leg(&entry.candidate.put.short.symbol, AlpacaOptionsPlanSide::Sell),
            plan_leg(&entry.candidate.put.long.symbol, AlpacaOptionsPlanSide::Buy),
            plan_leg(&entry.candidate.call.short.symbol, AlpacaOptionsPlanSide::Sell),
            plan_leg(&entry.candidate.call.long.symbol, AlpacaOptionsPlanSide::Buy),
        ],
        SelectedOptionsEntry::Debit(entry) => vec![
            plan_leg(&entry.candidate.long.symbol, AlpacaOptionsPlanSide::Buy),
            plan_leg(&entry.candidate.short.symbol, AlpacaOptionsPlanSide::Sell),
        ],
        SelectedOptionsEntry::NakedOption(entry) => vec![
            plan_leg(&entry.candidate.short.symbol, AlpacaOptionsPlanSide::Sell),
        ],
    };
    assert(leg_views(legs@) =~= opening_legs(*entry));
    legs
}

/// The planned legs carry the symbols of the entry in identity order.
pub proof fn planned_legs_follow_the_symbols(entry: SelectedOptionsEntry)
    ensures
        opening_legs(entry).len() == entry.symbols().len(),
        forall|i: int|
            0 <= i < entry.symbols().len() ==> (#[trigger] opening_legs(entry)[i]).0 == entry.symbols()[i],
{
}

/// The label of a planned family is the strategy name of its entry.
pub proof fn family_label_is_the_strategy_name(entry: SelectedOptionsEntry)
    ensures
        family_of(entry).label() == entry.strategy(),
{
}

} // verus!
