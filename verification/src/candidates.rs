//! Scanner candidates.
use vstd::prelude::*;

use crate::amount::Amount;
use crate::text::copy_opt;

verus! {

/// Side of a credit spread.
#[derive(Clone, Copy, Debug, PartialEq, Eq, Structural)]
pub enum CreditSpreadKind {
    /// Put credit spread.
    Put,
    /// Call credit spread.
    Call,
}

/// Side of a debit spread.
#[derive(Clone, Copy, Debug, PartialEq, Eq, Structural)]
pub enum DebitSpreadKind {
    /// Put debit spread.
    Put,
    /// Call debit spread.
    Call,
}

/// Side and expiration profile of a naked short option.
#[derive(Clone, Copy, Debug, PartialEq, Eq, Structural)]
pub enum NakedOptionKind {
    /// Naked short put.
    Put,
    /// Naked short call.
    Call,
    /// Naked short put with one to three days to expiration.
    PutOneToThreeDte,
    /// Naked short call with one to three days to expiration.
    CallOneToThreeDte,
}

impl NakedOptionKind {
    /// Returns whether the profile is limited to one to three days to expiration.
    pub fn is_one_to_three_dte(self) -> (yes: bool)
        ensures
            yes == (self is PutOneToThreeDte || self is CallOneToThreeDte),
    {
        matches!(self, NakedOptionKind::PutOneToThreeDte | NakedOptionKind::CallOneToThreeDte)
    }
}

/// The strategy name of a credit spread.
pub open spec fn credit_name(kind: CreditSpreadKind) -> Seq<char> {
    match kind {
        CreditSpreadKind::Put => "put_credit"@,
        CreditSpreadKind::Call => "call_credit"@,
    }
}

/// The strategy name of a debit spread.
pub open spec fn debit_name(kind: DebitSpreadKind) -> Seq<char> {
    match kind {
        DebitSpreadKind::Put => "put_debit"@,
        DebitSpreadKind::Call => "call_debit"@,
    }
}

/// The strategy name of a naked short option.
pub open spec fn naked_name(kind: NakedOptionKind) -> Seq<char> {
    match kind {
        NakedOptionKind::Put => "naked_put"@,
        NakedOptionKind::Call => "naked_call"@,
        NakedOptionKind::PutOneToThreeDte => "naked_put_1_3dte"@,
        NakedOptionKind::CallOneToThreeDte => "naked_call_1_3dte"@,
    }
}

/// Returns the strategy name of a credit spread.
pub fn credit_spread_strategy_name(kind: CreditSpreadKind) -> (name: &'static str)
    ensures
        name@ == credit_name(kind),
{
    match kind {
        CreditSpreadKind::Put => "put_credit",
        CreditSpreadKind::Call => "call_credit",
    }
}

/// Returns the strategy name of a debit spread.
pub fn debit_spread_strategy_name(kind: DebitSpreadKind) -> (name: &'static str)
    ensures
        name@ == debit_name(kind),
{
    match kind {
        DebitSpreadKind::Put => "put_debit",
        DebitSpreadKind::Call => "call_debit",
    }
}

/// Returns the strategy name of a naked short option.
pub fn naked_option_strategy_name(kind: NakedOptionKind) -> (name: &'static str)
    ensures
        name@ == naked_name(kind),
{
    match kind {
        NakedOptionKind::Put => "naked_put",
        NakedOptionKind::Call => "naked_call",
        NakedOptionKind::PutOneToThreeDte => "naked_put_1_3dte",
        NakedOptionKind::CallOneToThreeDte => "naked_call_1_3dte",
    }
}

/// One scored option contract.
#[derive(Clone, Debug)]
pub struct ScoredContract {
    /// Option symbol.
    pub symbol: String,
    /// Expiration date.
    pub expiration_date: String,
    /// Calendar days to expiration.
    pub dte: i64,
    /// Strike price.
    pub strike: Amount,
    /// Bid price.
    pub bid: Amount,
    /// Ask price.
    pub ask: Amount,
    /// Absolute delta.
    pub delta_abs: Amount,
    /// Bid-ask spread relative to the mid price.
    pub spread_pct: Amount,
    /// Bid size.
    pub bid_size: u64,
    /// Ask size.
    pub ask_size: u64,
    /// Daily volume.
    pub volume: u64,
    /// Open interest.
    pub open_interest: u64,
    /// Implied volatility.
    pub implied_volatility: Option<Amount>,
}

impl ScoredContract {
    /// Returns a copy.
    pub fn copy(&self) -> (copy: ScoredContract)
        ensures
            copy == *self,
    {
        ScoredContract {
            symbol: self.symbol.clone(),
            expiration_date: self.expiration_date.clone(),
            dte: self.dte,
            strike: self.strike,
            bid: self.bid,
            ask: self.ask,
            delta_abs: self.delta_abs,
            spread_pct: self.spread_pct,
            bid_size: self.bid_size,
            ask_size: self.ask_size,
            volume: self.volume,
            open_interest: self.open_interest,
            implied_volatility: self.implied_volatility,
        }
    }
}

/// A two-leg credit spread.
#[derive(Clone, Debug)]
pub struct SpreadCandidate {
    /// Leg to sell.
    pub short: ScoredContract,
    /// Leg to buy.
    pub long: ScoredContract,
    /// Distance between the strikes.
    pub width: Amount,
    /// Net credit.
    pub credit: Amount,
    /// Maximum loss.
    pub max_loss: Amount,
    /// Credit relative to maximum loss.
    pub return_on_risk: Amount,
    /// Scanner score.
    pub score: Amount,
}

impl SpreadCandidate {
    /// Returns a copy.
    pub fn copy(&self) -> (copy: SpreadCandidate)
        ensures
            copy == *self,
    {
        SpreadCandidate {
            short: self.short.copy(),
            long: self.long.copy(),
            width: self.width,
            credit: self.credit,
            max_loss: self.max_loss,
            return_on_risk: self.return_on_risk,
            score: self.score,
        }
    }
}

/// A four-leg iron condor.
#[derive(Clone, Debug)]
pub struct IronCondorCandidate {
    /// Put side.
    pub put: SpreadCandidate,
    /// Call side.
    pub call: SpreadCandidate,
    /// Net credit of both sides.
    pub credit: Amount,
    /// Credit relative to maximum loss.
    pub return_on_risk: Amount,
    /// Scanner score.
    pub score: Amount,
}

impl IronCondorCandidate {
    /// Returns a copy.
    pub fn copy(&self) -> (copy: IronCondorCandidate)
        ensures
            copy == *self,
    {
        IronCondorCandidate {
            put: self.put.copy(),
            call: self.call.copy(),
            credit: self.credit,
            return_on_risk: self.return_on_risk,
            score: self.score,
        }
    }
}

/// A two-leg debit spread.
#[derive(Clone, Debug)]
pub struct DebitSpreadCandidate {
    /// Leg to buy.
    pub long: ScoredContract,
    /// Leg to sell.
    pub short: ScoredContract,
    /// Net debit.
    pub debit: Amount,
    /// Maximum gain relative to the debit.
    pub reward_to_risk: Amount,
    /// Scanner score.
    pub score: Amount,
}

impl DebitSpreadCandidate {
    /// Returns a copy.
    pub fn copy(&self) -> (copy: DebitSpreadCandidate)
        ensures
            copy == *self,
    {
        DebitSpreadCandidate {
            long: self.long.copy(),
            short: self.short.copy(),
            debit: self.debit,
            reward_to_risk: self.reward_to_risk,
            score: self.score,
        }
    }
}

/// A naked short option.
#[derive(Clone, Debug)]
pub struct NakedOptionCandidate {
    /// Leg to sell.
    pub short: ScoredContract,
    /// Credit received.
    pub credit: Amount,
    /// Label of the capital model.
    pub capital_requirement_model: Option<String>,
    /// Estimated buying power that the position binds.
    pub estimated_buying_power_requirement: Amount,
    /// Share of the account's buying power.
    pub buying_power_usage_pct: Option<Amount>,
    /// Credit relative to the buying power.
    pub return_on_buying_power: Amount,
    /// Scanner score.
    pub score: Amount,
}

impl NakedOptionCandidate {
    /// Returns a copy.
    pub fn copy(&self) -> (copy: NakedOptionCandidate)
        ensures
            copy == *self,
    {
        NakedOptionCandidate {
            short: self.short.copy(),
            credit: self.credit,
            capital_requirement_model: copy_opt(&self.capital_requirement_model),
            estimated_buying_power_requirement: self.estimated_buying_power_requirement,
            buying_power_usage_pct: self.buying_power_usage_pct,
            return_on_buying_power: self.return_on_buying_power,
            score: self.score,
        }
    }
}

} // verus!
