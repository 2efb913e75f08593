//! Planners for naked short options.
use vstd::prelude::*;

use super::AlpacaOptionsEntryFamily;
use super::AlpacaOptionsEntryPlan;
use crate::candidate_set::ProfiledOptionsEntry;
use crate::entry::SelectedNakedOptionEntry;
use crate::entry::SelectedOptionsEntry;

verus! {

/// Plans a naked short-put selected entry.
#[must_use]
pub fn plan_put(entry: SelectedNakedOptionEntry) -> (plan: AlpacaOptionsEntryPlan)
    ensures
        plan.plans(
            None,
            SelectedOptionsEntry::NakedOption(entry),
            AlpacaOptionsEntryFamily::NakedPut,
        ),
{
    AlpacaOptionsEntryPlan::from_entry(
        SelectedOptionsEntry::NakedOption(entry),
        AlpacaOptionsEntryFamily::NakedPut,
    )
}

/// Plans a profiled naked short-put selected entry.
#[must_use]
pub fn plan_put_profiled(entry: ProfiledOptionsEntry) -> (plan: AlpacaOptionsEntryPlan)
    ensures
        plan.plans(
            Some(entry.profile),
            entry.entry,
            AlpacaOptionsEntryFamily::NakedPut,
        ),
{
    AlpacaOptionsEntryPlan::from_profiled_entry(
        entry,
        AlpacaOptionsEntryFamily::NakedPut,
    )
}

/// Plans a naked short-call selected entry.
#[must_use]
pub fn plan_call(entry: SelectedNakedOptionEntry) -> (plan: AlpacaOptionsEntryPlan)
    ensures
        plan.plans(
            None,
            SelectedOptionsEntry::NakedOption(entry),
            AlpacaOptionsEntryFamily::NakedCall,
        ),
{
    AlpacaOptionsEntryPlan::from_entry(
        SelectedOptionsEntry::NakedOption(entry),
        AlpacaOptionsEntryFamily::NakedCall,
    )
}

/// Plans a profiled naked short-call selected entry.
#[must_use]
pub fn plan_call_profiled(entry: ProfiledOptionsEntry) -> (plan: AlpacaOptionsEntryPlan)
    ensures
        plan.plans(
            Some(entry.profile),
            entry.entry,
            AlpacaOptionsEntryFamily::NakedCall,
        ),
{
    AlpacaOptionsEntryPlan::from_profiled_entry(
        entry,
        AlpacaOptionsEntryFamily::NakedCall,
    )
}

/// Plans a 1-3 DTE naked short-put selected entry.
#[must_use]
pub fn plan_put_1_3dte(entry: SelectedNakedOptionEntry) -> (plan: AlpacaOptionsEntryPlan)
    ensures
        plan.plans(
            None,
            SelectedOptionsEntry::NakedOption(entry),
            AlpacaOptionsEntryFamily::NakedPutOneToThreeDte,
        ),
{
    AlpacaOptionsEntryPlan::from_entry(
        SelectedOptionsEntry::NakedOption(entry),
        AlpacaOptionsEntryFamily::NakedPutOneToThreeDte,
    )
}

/// Plans a profiled 1-3 DTE naked short-put selected entry.
#[must_use]
pub fn plan_put_1_3dte_profiled(entry: ProfiledOptionsEntry) -> (plan: AlpacaOptionsEntryPlan)
    ensures
        plan.plans(
            Some(entry.profile),
            entry.entry,
            AlpacaOptionsEntryFamily::NakedPutOneToThreeDte,
        ),
{
    AlpacaOptionsEntryPlan::from_profiled_entry(
        entry,
        AlpacaOptionsEntryFamily::NakedPutOneToThreeDte,
    )
}

/// Plans a 1-3 DTE naked short-call selected entry.
#[must_use]
pub fn plan_call_1_3dte(entry: SelectedNakedOptionEntry) -> (plan: AlpacaOptionsEntryPlan)
    ensures
        plan.plans(
            None,
            SelectedOptionsEntry::NakedOption(entry),
            AlpacaOptionsEntryFamily::NakedCallOneToThreeDte,
        ),
{
    AlpacaOptionsEntryPlan::from_entry(
        SelectedOptionsEntry::NakedOption(entry),
        AlpacaOptionsEntryFamily::NakedCallOneToThreeDte,
    )
}

/// Plans a profiled 1-3 DTE naked short-call selected entry.
#[must_use]
pub fn plan_call_1_3dte_profiled(entry: ProfiledOptionsEntry) -> (plan: AlpacaOptionsEntryPlan)
    ensures
        plan.plans(
            Some(entry.profile),
            entry.entry,
            AlpacaOptionsEntryFamily::NakedCallOneToThreeDte,
        ),
{
    AlpacaOptionsEntryPlan::from_profiled_entry(
        entry,
        AlpacaOptionsEntryFamily::NakedCallOneToThreeDte,
    )
}

} // verus!
