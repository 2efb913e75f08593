//! Planner for iron-condor entries.
use vstd::prelude::*;

use super::AlpacaOptionsEntryFamily;
use super::AlpacaOptionsEntryPlan;
use crate::candidate_set::ProfiledOptionsEntry;
use crate::entry::SelectedIronCondorEntry;
use crate::entry::SelectedOptionsEntry;

verus! {

/// Plans a iron-condor selected entry.
#[must_use]
pub fn plan(entry: SelectedIronCondorEntry) -> (plan: AlpacaOptionsEntryPlan)
    ensures
        plan.plans(None, SelectedOptionsEntry::IronCondor(entry), AlpacaOptionsEntryFamily::IronCondor),
{
    AlpacaOptionsEntryPlan::from_entry(
        SelectedOptionsEntry::IronCondor(entry),
        AlpacaOptionsEntryFamily::IronCondor,
    )
}

/// Plans a profiled iron-condor selected entry.
#[must_use]
pub fn plan_profiled(entry: ProfiledOptionsEntry) -> (plan: AlpacaOptionsEntryPlan)
    ensures
        plan.plans(Some(entry.profile), entry.entry, AlpacaOptionsEntryFamily::IronCondor),
{
    AlpacaOptionsEntryPlan::from_profiled_entry(entry, AlpacaOptionsEntryFamily::IronCondor)
}

} // verus!
