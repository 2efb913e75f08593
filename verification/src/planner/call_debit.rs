//! Planner for call-debit entries.
use vstd::prelude::*;

use super::AlpacaOptionsEntryFamily;
use super::AlpacaOptionsEntryPlan;
use crate::candidate_set::ProfiledOptionsEntry;
use crate::entry::SelectedDebitEntry;
use crate::entry::SelectedOptionsEntry;

verus! {

/// Plans a call-debit selected entry.
#[must_use]
pub fn plan(entry: SelectedDebitEntry) -> (plan: AlpacaOptionsEntryPlan)
    ensures
        plan.plans(None, SelectedOptionsEntry::Debit(entry), AlpacaOptionsEntryFamily::CallDebit),
{
    AlpacaOptionsEntryPlan::from_entry(
        SelectedOptionsEntry::Debit(entry),
        AlpacaOptionsEntryFamily::CallDebit,
    )
}

/// Plans a profiled call-debit selected entry.
#[must_use]
pub fn plan_profiled(entry: ProfiledOptionsEntry) -> (plan: AlpacaOptionsEntryPlan)
    ensures
        plan.plans(Some(entry.profile), entry.entry, AlpacaOptionsEntryFamily::CallDebit),
{
    AlpacaOptionsEntryPlan::from_profiled_entry(entry, AlpacaOptionsEntryFamily::CallDebit)
}

} // verus!
