//! Planner for put-credit entries.
use vstd::prelude::*;

use super::AlpacaOptionsEntryFamily;
use super::AlpacaOptionsEntryPlan;
use crate::candidate_set::ProfiledOptionsEntry;
use crate::entry::SelectedEntry;
use crate::entry::SelectedOptionsEntry;

verus! {

/// Plans a put-credit selected entry.
#[must_use]
pub fn plan(entry: SelectedEntry) -> (plan: AlpacaOptionsEntryPlan)
    ensures
        plan.plans(None, SelectedOptionsEntry::Credit(entry), AlpacaOptionsEntryFamily::PutCredit),
{
    AlpacaOptionsEntryPlan::from_entry(
        SelectedOptionsEntry::Credit(entry),
        AlpacaOptionsEntryFamily::PutCredit,
    )
}

/// Plans a profiled put-credit selected entry.
#[must_use]
pub fn plan_profiled(entry: ProfiledOptionsEntry) -> (plan: AlpacaOptionsEntryPlan)
    ensures
        plan.plans(Some(entry.profile), entry.entry, AlpacaOptionsEntryFamily::PutCredit),
{
    AlpacaOptionsEntryPlan::from_profiled_entry(entry, AlpacaOptionsEntryFamily::PutCredit)
}

} // verus!
