//! Candidates on their way from scanner actors to strategies.
use vstd::prelude::*;

use crate::candidate_set::OptionsCandidateSet;
use crate::events::scans_payload;
use crate::events::scans_tree;
use crate::events::selected_payload;
use crate::events::selected_tree;
use crate::fields::natural;
use crate::fields::FieldTree;
use crate::fields::Fields;
use crate::json::Json;
use crate::json::JsonTree;
use crate::strategy_events::regime_field;
use crate::text::same_text;

verus! {

/// What is told of candidates on their way to a strategy.
pub open spec fn candidate_data_fields(
    candidates: OptionsCandidateSet,
    ts_event: u64,
    ts_init: u64,
) -> Seq<FieldTree> {
    seq![
        ("trade_date"@, JsonTree::Text(candidates.trade_date@)),
        ("ts_event"@, natural(ts_event)),
        ("ts_init"@, natural(ts_init)),
        ("scans"@, scans_tree(candidates.scans@)),
        ("ranked_entries"@, natural(candidates.ranked_entries@.len() as u64)),
        ("selected"@, selected_tree(candidates)),
    ]
}

fn candidate_fields(candidates: &OptionsCandidateSet, ts_event: u64, ts_init: u64) -> (fields: Fields)
    ensures
        fields@ == candidate_data_fields(*candidates, ts_event, ts_init),
{
    let fields = Fields::new().text("trade_date", candidates.trade_date.as_str()).natural(
        "ts_event",
        ts_event,
    ).natural("ts_init", ts_init).json("scans", scans_payload(&candidates.scans)).count(
        "ranked_entries",
        candidates.ranked_entries.len(),
    ).json("selected", selected_payload(candidates));
    assert(fields@ =~= candidate_data_fields(*candidates, ts_event, ts_init));
    fields
}

/// Whether two candidate sets count as the same: they are of one day and have as many entries.
pub open spec fn alike(left: OptionsCandidateSet, right: OptionsCandidateSet) -> bool {
    left.trade_date@ == right.trade_date@ && left.ranked_entries@.len()
        == right.ranked_entries@.len()
}

fn are_alike(left: &OptionsCandidateSet, right: &OptionsCandidateSet) -> (same: bool)
    ensures
        same == alike(*left, *right),
{
    same_text(left.trade_date.as_str(), right.trade_date.as_str()) && left.ranked_entries.len()
        == right.ranked_entries.len()
}

/// Custom data type published by option-chain scanner actors for entry strategies.
#[derive(Debug)]
pub struct OptionsCandidateData {
    /// Ranked option candidates discovered by the scanner.
    pub candidates: OptionsCandidateSet,
    /// Regime context applied before candidate selection.
    pub regime_context: Option<Json>,
    /// Time of the event in nanoseconds.
    pub ts_event: u64,
    /// Time of creation in nanoseconds.
    pub ts_init: u64,
}

/// What a regime context holds.
pub open spec fn context_tree(context: Option<Json>) -> Option<JsonTree> {
    match context {
        Some(value) => Some(value@),
        None => None,
    }
}

impl OptionsCandidateData {
    /// Creates a new custom data payload from a candidate set.
    #[must_use]
    pub fn new(
        candidates: OptionsCandidateSet,
        regime_context: Option<Json>,
        ts_event: u64,
        ts_init: u64,
    ) -> (data: OptionsCandidateData)
        ensures
            data == (OptionsCandidateData { candidates, regime_context, ts_event, ts_init }),
    {
        OptionsCandidateData { candidates, regime_context, ts_event, ts_init }
    }

    /// Returns the name that the data is routed by.
    #[must_use]
    pub fn data_name() -> (name: &'static str)
        ensures
            name@ == "OptionsCandidateData"@,
    {
        "OptionsCandidateData"
    }

    /// Returns the JSON form.
    pub fn to_json(&self) -> (payload: Json)
        ensures
            payload@ == JsonTree::Object(
                candidate_data_fields(self.candidates, self.ts_event, self.ts_init) + regime_field(
                    self.regime_context,
                ),
            ),
    {
        let fields = candidate_fields(&self.candidates, self.ts_event, self.ts_init);
        let ghost before = fields@;
        let fields = match &self.regime_context {
            Some(context) => fields.json("regime_context", context.copy()),
            None => fields,
        };
        assert(fields@ =~= before + regime_field(self.regime_context));
        fields.into_json()
    }

    /// Returns whether two payloads count as the same.
    pub fn same_data(&self, other: &OptionsCandidateData) -> (same: bool)
        ensures
            same == (self.ts_event == other.ts_event && self.ts_init == other.ts_init && alike(
                self.candidates,
                other.candidates,
            ) && context_tree(self.regime_context) == context_tree(other.regime_context)),
    {
        let same_context: bool = match (&self.regime_context, &other.regime_context) {
            (Some(left), Some(right)) => left.same_as(right),
            (None, None) => true,
            _ => false,
        };
        self.ts_event == other.ts_event && self.ts_init == other.ts_init && are_alike(
            &self.candidates,
            &other.candidates,
        ) && same_context
    }
}

/// Custom data type published by opportunity scan actors for entry strategies.
#[derive(Clone, Debug)]
pub struct OptionsOpportunityData {
    /// Ranked option opportunities discovered by the scanner.
    pub opportunities: OptionsCandidateSet,
    /// Time of the event in nanoseconds.
    pub ts_event: u64,
    /// Time of creation in nanoseconds.
    pub ts_init: u64,
}

impl OptionsOpportunityData {
    /// Creates a new custom data payload from an opportunity set.
    #[must_use]
    pub fn new(opportunities: OptionsCandidateSet, ts_event: u64, ts_init: u64) -> (data: OptionsOpportunityData)
        ensures
            data == (OptionsOpportunityData { opportunities, ts_event, ts_init }),
    {
        OptionsOpportunityData { opportunities, ts_event, ts_init }
    }

    /// Returns the name that the data is routed by.
    #[must_use]
    pub fn data_name() -> (name: &'static str)
        ensures
            name@ == "AlpacaOptionsOpportunityData"@,
    {
        "AlpacaOptionsOpportunityData"
    }

    /// Returns the JSON form.
    pub fn to_json(&self) -> (payload: Json)
        ensures
            payload@ == JsonTree::Object(
                candidate_data_fields(self.opportunities, self.ts_event, self.ts_init),
            ),
    {
        candidate_fields(&self.opportunities, self.ts_event, self.ts_init).into_json()
    }

    /// Returns whether two payloads count as the same.
    pub fn same_data(&self, other: &OptionsOpportunityData) -> (same: bool)
        ensures
            same == (self.ts_event == other.ts_event && self.ts_init == other.ts_init && alike(
                self.opportunities,
                other.opportunities,
            )),
    {
        self.ts_event == other.ts_event && self.ts_init == other.ts_init && are_alike(
            &self.opportunities,
            &other.opportunities,
        )
    }
}

} // verus!
