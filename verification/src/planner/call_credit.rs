//! Planner for call-credit entries.
use vstd::prelude::*;

use super::AlpacaOptionsEntryFamily;
use super::AlpacaOptionsEntryPlan;
use crate::candidate_set::ProfiledOptionsEntry;
use crate::entry::SelectedEntry;
use crate::entry::SelectedOptionsEntry;

verus! {

/// Plans a call-credit selected entry.
#[must_use]
pub fn plan(entry: SelectedEntry) -> (plan: AlpacaOptionsEntryPlan)
    ensures
        plan.plans(None, SelectedOptionsEntry::Credit(entry), AlpacaOptionsEntryFamily::CallCredit),
{
    AlpacaOptionsEntryPlan::from_entry(
        SelectedOptionsEntry::Credit(entry),
        AlpacaOptionsEntryFamily::CallCredit,
    )
}

/// Plans a profiled call-credit selected entry.
#[must_use]
pub fn plan_profiled(entry: ProfiledOptionsEntry) -> (plan: AlpacaOptionsEntryPlan)
    ensures
        plan.plans(Some(entry.profile), entry.entry, AlpacaOptionsEntryFamily::CallCredit),
{
    AlpacaOptionsEntryPlan::from_profiled_entry(entry, AlpacaOptionsEntryFamily::CallCredit)
}

} // verus!
