//! Ranked candidate sets and the scans that they come from.
use vstd::prelude::*;

use crate::amount::Amount;
use crate::candidates::credit_name;
use crate::candidates::credit_spread_strategy_name;
use crate::candidates::debit_name;
use crate::candidates::debit_spread_strategy_name;
use crate::candidates::naked_name;
use crate::candidates::naked_option_strategy_name;
use crate::candidates::CreditSpreadKind;
use crate::candidates::DebitSpreadCandidate;
use crate::candidates::DebitSpreadKind;
use crate::candidates::IronCondorCandidate;
use crate::candidates::NakedOptionCandidate;
use crate::candidates::NakedOptionKind;
use crate::candidates::SpreadCandidate;
use crate::entry::OptionEntryDescriptor;
use crate::entry::SelectedDebitEntry;
use crate::entry::SelectedEntry;
use crate::entry::SelectedIronCondorEntry;
use crate::entry::SelectedNakedOptionEntry;
use crate::entry::SelectedOptionsEntry;
use crate::profile::credit_kind;
use crate::profile::credit_kind_from_family;
use crate::profile::debit_kind;
use crate::profile::debit_kind_from_family;
use crate::profile::naked_kind;
use crate::profile::naked_kind_from_family;
use crate::profile::AlpacaOptionsStrategyFamily;
use crate::profile::AlpacaOptionsStrategyMode;
use crate::profile::AlpacaOptionsStrategyProfile;
use crate::profile::AlpacaOptionsStrategyRiskOverrides;
use crate::profile::AlpacaOptionsStrategyScannerConfig;
use crate::text::slices;
use crate::text_map::TextMap;

verus! {

/// Profile context carried with scanner-selected candidates.
#[derive(Clone, Debug)]
pub struct AlpacaOptionsCandidateProfile {
    /// Stable profile identifier.
    pub id: String,
    /// Strategy family scanned by this profile.
    pub family: AlpacaOptionsStrategyFamily,
    /// Opening-order mode for this profile.
    pub mode: AlpacaOptionsStrategyMode,
    /// Contract quantity configured for this profile.
    pub quantity: u64,
    /// Profile-local risk overrides.
    pub risk: AlpacaOptionsStrategyRiskOverrides,
}

impl AlpacaOptionsCandidateProfile {
    /// The context of a resolved strategy profile.
    pub open spec fn of_profile(profile: AlpacaOptionsStrategyProfile) -> AlpacaOptionsCandidateProfile {
        AlpacaOptionsCandidateProfile {
            id: profile.id,
            family: profile.family,
            mode: profile.mode,
            quantity: profile.quantity,
            risk: profile.risk,
        }
    }

    /// Builds candidate profile metadata from a resolved strategy profile.
    #[must_use]
    pub fn from_strategy_profile(profile: &AlpacaOptionsStrategyProfile) -> (context: AlpacaOptionsCandidateProfile)
        ensures
            context == AlpacaOptionsCandidateProfile::of_profile(*profile),
    {
        AlpacaOptionsCandidateProfile {
            id: profile.id.clone(),
            family: profile.family,
            mode: profile.mode,
            quantity: profile.quantity,
            risk: profile.risk.copy(),
        }
    }

    /// Builds profile metadata for diagnostic paths that have no resolved profile.
    #[must_use]
    pub fn synthetic(id: String, family: AlpacaOptionsStrategyFamily, quantity: u64) -> (context: AlpacaOptionsCandidateProfile)
        ensures
            context.id == id,
            context.family == family,
            context.mode is Live,
            context.quantity == if quantity == 0 {
                1
            } else {
                quantity
            },
            context.risk.has_none(),
    {
        AlpacaOptionsCandidateProfile {
            id,
            family,
            mode: AlpacaOptionsStrategyMode::Live,
            quantity: if quantity == 0 {
                1
            } else {
                quantity
            },
            risk: AlpacaOptionsStrategyRiskOverrides {
                max_active_entries: None,
                max_daily_submits: None,
                max_active_entries_per_underlying: None,
                max_single_entry_risk_capital_usd: None,
            },
        }
    }

    /// Returns a copy.
    pub fn copy(&self) -> (copy: AlpacaOptionsCandidateProfile)
        ensures
            copy == *self,
    {
        AlpacaOptionsCandidateProfile {
            id: self.id.clone(),
            family: self.family,
            mode: self.mode,
            quantity: self.quantity,
            risk: self.risk.copy(),
        }
    }
}

/// A selected option entry and its originating profile.
#[derive(Clone, Debug)]
pub struct ProfiledOptionsEntry {
    /// Profile that produced this candidate.
    pub profile: AlpacaOptionsCandidateProfile,
    /// Source-neutral selected option entry.
    pub entry: SelectedOptionsEntry,
}

impl ProfiledOptionsEntry {
    /// Creates a profiled selected entry.
    #[must_use]
    pub fn new(profile: AlpacaOptionsCandidateProfile, entry: SelectedOptionsEntry) -> (made: ProfiledOptionsEntry)
        ensures
            made == (ProfiledOptionsEntry { profile, entry }),
    {
        ProfiledOptionsEntry { profile, entry }
    }

    /// Returns the source-neutral selected entry.
    #[must_use]
    pub fn selected_entry(&self) -> (entry: &SelectedOptionsEntry)
        ensures
            *entry == self.entry,
    {
        &self.entry
    }

    /// Consumes the wrapper and returns the source-neutral selected entry.
    #[must_use]
    pub fn into_selected_entry(self) -> (entry: SelectedOptionsEntry)
        ensures
            entry == self.entry,
    {
        self.entry
    }

    /// Returns shared selected-entry metadata.
    #[must_use]
    pub fn descriptor(&self) -> (descriptor: OptionEntryDescriptor)
        ensures
            descriptor.describes(self.entry),
    {
        self.entry.descriptor()
    }

    /// Returns the scanner score.
    #[must_use]
    pub fn score(&self) -> (score: Amount)
        ensures
            score == self.entry.score_amount(),
    {
        self.entry.score()
    }

    /// Returns the underlying symbol.
    #[must_use]
    pub fn underlying(&self) -> (underlying: &str)
        ensures
            underlying@ == self.entry.underlying_chars(),
    {
        self.entry.underlying()
    }

    /// Returns the stable strategy family name.
    #[must_use]
    pub fn strategy_name(&self) -> (name: &'static str)
        ensures
            name@ == self.entry.strategy(),
    {
        self.entry.strategy_name()
    }

    /// Returns the candidate option symbols.
    #[must_use]
    pub fn option_symbols(&self) -> (symbols: Vec<&str>)
        ensures
            slices(symbols@) == self.entry.symbols(),
    {
        self.entry.option_symbols()
    }

    /// Returns whether the selected entry is a single-leg naked option.
    #[must_use]
    pub fn is_naked_option(&self) -> (naked: bool)
        ensures
            naked == (self.entry is NakedOption),
    {
        self.entry.is_naked_option()
    }

    /// Returns the entry premium kind.
    #[must_use]
    pub fn entry_premium_kind(&self) -> (label: &'static str)
        ensures
            label@ == self.entry.premium_kind().label(),
    {
        self.entry.entry_premium_kind()
    }

    /// Returns the entry premium per spread or option.
    #[must_use]
    pub fn entry_premium(&self) -> (premium: Amount)
        ensures
            premium == self.entry.premium_amount(),
    {
        self.entry.entry_premium()
    }

    /// Returns a copy.
    pub fn copy(&self) -> (copy: ProfiledOptionsEntry)
        ensures
            copy == *self,
    {
        ProfiledOptionsEntry { profile: self.profile.copy(), entry: self.entry.copy() }
    }
}

/// Outcome for one scanner pass.
#[derive(Clone, Copy, Debug, PartialEq, Eq, Structural)]
pub enum OptionsScanOutcome {
    /// At least one candidate passed the scanner thresholds.
    Candidate,
    /// No candidate passed the scanner thresholds.
    NoCandidate,
}

impl OptionsScanOutcome {
    /// The label in operator evidence.
    pub open spec fn label(self) -> Seq<char> {
        match self {
            OptionsScanOutcome::Candidate => "candidate"@,
            OptionsScanOutcome::NoCandidate => "no_candidate"@,
        }
    }

    /// Returns the label in operator evidence.
    pub fn as_str(self) -> (label: &'static str)
        ensures
            label@ == self.label(),
    {
        match self {
            OptionsScanOutcome::Candidate => "candidate",
            OptionsScanOutcome::NoCandidate => "no_candidate",
        }
    }
}

/// Result of one configured options family scan for one underlying.
#[derive(Clone, Debug)]
pub struct OptionsScanReport {
    /// Profile that produced this scan report.
    pub profile: AlpacaOptionsCandidateProfile,
    /// Underlying symbol.
    pub underlying: String,
    /// Stable strategy name.
    pub strategy: &'static str,
    /// Whether the scan produced at least one ranked candidate.
    pub outcome: OptionsScanOutcome,
    /// Number of ranked candidates produced by the scanner.
    pub candidate_count: usize,
    /// Stable no-candidate reason when no candidate was produced.
    pub reason: Option<String>,
    /// Number of contracts loaded.
    pub contract_count: usize,
    /// Number of snapshots loaded.
    pub snapshot_count: usize,
    /// Number of scoreable contracts.
    pub scoreable_count: usize,
    /// Counts of scanner rejection reasons.
    pub rejection_counts: TextMap<usize>,
}

impl OptionsScanReport {
    /// Builds the report of one scan; `no_candidate_reason` is kept when no candidate was found.
    pub fn new(
        profile: AlpacaOptionsCandidateProfile,
        underlying: &str,
        strategy: &'static str,
        candidate_count: usize,
        contract_count: usize,
        snapshot_count: usize,
        scoreable_count: usize,
        rejection_counts: TextMap<usize>,
        no_candidate_reason: &str,
    ) -> (report: OptionsScanReport)
        ensures
            report.profile == profile,
            report.underlying@ == underlying@,
            report.strategy@ == strategy@,
            report.outcome == if candidate_count == 0 {
                OptionsScanOutcome::NoCandidate
            } else {
                OptionsScanOutcome::Candidate
            },
            report.candidate_count == candidate_count,
            crate::text::opt_text(report.reason) == if candidate_count == 0 {
                Some(no_candidate_reason@)
            } else {
                None
            },
            report.contract_count == contract_count,
            report.snapshot_count == snapshot_count,
            report.scoreable_count == scoreable_count,
            report.rejection_counts == rejection_counts,
    {
        let outcome = if candidate_count == 0 {
            OptionsScanOutcome::NoCandidate
        } else {
            OptionsScanOutcome::Candidate
        };
        let reason = if outcome == OptionsScanOutcome::NoCandidate {
            Some(no_candidate_reason.to_owned())
        } else {
            None
        };
        OptionsScanReport {
            profile,
            underlying: underlying.to_owned(),
            strategy,
            outcome,
            candidate_count,
            reason,
            contract_count,
            snapshot_count,
            scoreable_count,
            rejection_counts,
        }
    }
}

/// Whether candidates stand in order of falling score.
pub open spec fn ranked(entries: Seq<ProfiledOptionsEntry>) -> bool {
    forall|i: int, j: int|
        0 <= i < j < entries.len() ==> (#[trigger] entries[i]).entry.score_amount().total_rank()
            >= (#[trigger] entries[j]).entry.score_amount().total_rank()
}

/// The number of leading candidates whose score is at least `score`.
pub open spec fn rank_position(entries: Seq<ProfiledOptionsEntry>, score: Amount) -> int
    decreases entries.len(),
{
    if entries.len() == 0 || entries[0].entry.score_amount().total_rank() < score.total_rank() {
        0
    } else {
        1 + rank_position(entries.drop_first(), score)
    }
}

/// Ranked candidates with one more, which stands behind those of the same score.
pub open spec fn with_candidate(
    entries: Seq<ProfiledOptionsEntry>,
    candidate: ProfiledOptionsEntry,
) -> Seq<ProfiledOptionsEntry> {
    entries.insert(rank_position(entries, candidate.entry.score_amount()), candidate)
}

/// The candidates before the rank of a score have at least that score.
pub proof fn rank_position_splits(entries: Seq<ProfiledOptionsEntry>, score: Amount)
    ensures
        0 <= rank_position(entries, score) <= entries.len(),
        forall|i: int|
            0 <= i < rank_position(entries, score) ==> (#[trigger] entries[i]).entry.score_amount().total_rank()
                >= score.total_rank(),
        rank_position(entries, score) < entries.len() ==> entries[rank_position(
            entries,
            score,
        )].entry.score_amount().total_rank() < score.total_rank(),
    decreases entries.len(),
{
    if entries.len() > 0 && entries[0].entry.score_amount().total_rank() >= score.total_rank() {
        let rest = entries.drop_first();
        rank_position_splits(rest, score);
        assert forall|i: int| 0 <= i < rank_position(entries, score) implies (
        #[trigger] entries[i]).entry.score_amount().total_rank() >= score.total_rank() by {
            if i > 0 {
                assert(rest[i - 1].entry.score_amount().total_rank() >= score.total_rank());
            }
        }
    }
}

/// Considering a candidate keeps the ranking, loses no candidate, and leads to a selection that no
/// considered candidate outscores; an earlier candidate keeps its lead over a later one of the same
/// score.
pub proof fn considering_keeps_the_ranking(
    entries: Seq<ProfiledOptionsEntry>,
    candidate: ProfiledOptionsEntry,
)
    requires
        ranked(entries),
    ensures
        ranked(with_candidate(entries, candidate)),
        with_candidate(entries, candidate).to_multiset() == entries.to_multiset().insert(candidate),
        with_candidate(entries, candidate).len() == entries.len() + 1,
        with_candidate(entries, candidate)[0].entry.score_amount().total_rank()
            >= candidate.entry.score_amount().total_rank(),
        entries.len() > 0 ==> with_candidate(entries, candidate)[0] == if candidate.entry.score_amount().total_rank()
            > entries[0].entry.score_amount().total_rank() {
            candidate
        } else {
            entries[0]
        },
{
    let score = candidate.entry.score_amount();
    rank_position_splits(entries, score);
    let at = rank_position(entries, score);
    let after = with_candidate(entries, candidate);
    assert forall|i: int, j: int| 0 <= i < j < after.len() implies (
    #[trigger] after[i]).entry.score_amount().total_rank() >= (
    #[trigger] after[j]).entry.score_amount().total_rank() by {
        if j == at {
            assert(after[i] == entries[i]);
        } else if i == at {
            assert(after[j] == entries[j - 1]);
            if at < j - 1 {
                assert(entries[at].entry.score_amount().total_rank() >= entries[j - 1].entry.score_amount().total_rank());
            }
        } else {
            let p = if i < at { i } else { i - 1 };
            let q = if j < at { j } else { j - 1 };
            assert(after[i] == entries[p] && after[j] == entries[q]);
        }
    }
    vstd::seq_lib::to_multiset_insert(entries, at, candidate);
}

/// Candidate set produced by scanner discovery for one strategy iteration.
#[derive(Clone, Debug)]
pub struct OptionsCandidateSet {
    /// Market trade date for the candidate set.
    pub trade_date: String,
    /// Per-underlying, per-strategy scanner diagnostics.
    pub scans: Vec<OptionsScanReport>,
    /// Ranked candidate entries across all enabled strategy profiles.
    pub ranked_entries: Vec<ProfiledOptionsEntry>,
}

impl OptionsCandidateSet {
    /// Whether the candidates are ranked.
    pub open spec fn wf(self) -> bool {
        ranked(self.ranked_entries@)
    }

    /// The candidate with the highest score.
    pub open spec fn selected(self) -> Option<ProfiledOptionsEntry> {
        if self.ranked_entries@.len() == 0 {
            None
        } else {
            Some(self.ranked_entries@[0])
        }
    }

    /// Creates an empty candidate set.
    pub fn new(trade_date: &str) -> (set: OptionsCandidateSet)
        ensures
            set.wf(),
            set.trade_date@ == trade_date@,
            set.scans@.len() == 0,
            set.ranked_entries@.len() == 0,
    {
        OptionsCandidateSet {
            trade_date: trade_date.to_owned(),
            scans: Vec::new(),
            ranked_entries: Vec::new(),
        }
    }

    /// Adds a scan report.
    pub fn push_scan(&mut self, report: OptionsScanReport)
        ensures
            final(self).scans@ == old(self).scans@.push(report),
            final(self).trade_date == old(self).trade_date,
            final(self).ranked_entries@ == old(self).ranked_entries@,
    {
        self.scans.push(report);
    }

    /// Ranks one more candidate.
    pub fn consider_candidate(&mut self, candidate: ProfiledOptionsEntry)
        requires
            old(self).wf(),
        ensures
            final(self).wf(),
            final(self).ranked_entries@ == with_candidate(old(self).ranked_entries@, candidate),
            final(self).trade_date == old(self).trade_date,
            final(self).scans@ == old(self).scans@,
    {
        let score = candidate.score();
        let key: i128 = score.total_key();
        let n: usize = self.ranked_entries.len();
        let mut at: usize = 0;
        let ghost all = self.ranked_entries@;
        assert(all.skip(0) =~= all);
        while at < n && self.ranked_entries[at].score().total_key() >= key
            invariant
                *self == *old(self),
                all == self.ranked_entries@,
                n == all.len(),
                at <= n,
                key == score.total_rank(),
                rank_position(all, score) == at + rank_position(all.skip(at as int), score),
            decreases n - at,
        {
            assert(all.skip(at as int).drop_first() =~= all.skip(at + 1));
            at += 1;
        }
        proof {
            considering_keeps_the_ranking(all, candidate);
        }
        self.ranked_entries.insert(at, candidate);
    }

    /// Returns the ranked entry candidates across all enabled strategy profiles.
    #[must_use]
    pub fn ranked_entries(&self) -> (entries: &[ProfiledOptionsEntry])
        ensures
            entries@ == self.ranked_entries@,
    {
        self.ranked_entries.as_slice()
    }

    /// Returns the highest-scoring selected entry candidate, if any.
    #[must_use]
    pub fn selected_entry(&self) -> (entry: Option<&ProfiledOptionsEntry>)
        ensures
            match entry {
                Some(found) => self.selected() == Some(*found),
                None => self.selected() is None,
            },
    {
        if self.ranked_entries.len() == 0 {
            None
        } else {
            Some(&self.ranked_entries[0])
        }
    }

    /// Consumes the candidate set and returns the selected entry candidate.
    #[must_use]
    pub fn into_selected_entry(self) -> (entry: Option<ProfiledOptionsEntry>)
        ensures
            entry == self.selected(),
    {
        let mut set = self;
        if set.ranked_entries.len() == 0 {
            None
        } else {
            Some(set.ranked_entries.remove(0))
        }
    }
}

// ---------------------------------------------------------------------------------------------
// Scans
// ---------------------------------------------------------------------------------------------

/// One scan to run for an underlying.
#[derive(Clone, Copy, Debug, PartialEq, Eq, Structural)]
pub enum ScanRequest {
    /// Scan for credit spreads.
    Credit(CreditSpreadKind),
    /// Scan for iron condors.
    IronCondor,
    /// Scan for debit spreads.
    Debit(DebitSpreadKind),
    /// Scan for naked short options.
    Naked(NakedOptionKind),
}

impl ScanRequest {
    /// The strategy name that the scan reports.
    pub open spec fn strategy(self) -> Seq<char> {
        match self {
            ScanRequest::Credit(kind) => credit_name(kind),
            ScanRequest::IronCondor => "iron_condor"@,
            ScanRequest::Debit(kind) => debit_name(kind),
            ScanRequest::Naked(kind) => naked_name(kind),
        }
    }

    /// Returns the strategy name that the scan reports.
    pub fn strategy_name(self) -> (name: &'static str)
        ensures
            name@ == self.strategy(),
    {
        match self {
            ScanRequest::Credit(kind) => credit_spread_strategy_name(kind),
            ScanRequest::IronCondor => "iron_condor",
            ScanRequest::Debit(kind) => debit_spread_strategy_name(kind),
            ScanRequest::Naked(kind) => naked_option_strategy_name(kind),
        }
    }
}

/// The scan that a profile asks for: that of its family, when its scanner is configured for it.
pub open spec fn requested_scan(profile: AlpacaOptionsStrategyProfile) -> Option<ScanRequest> {
    match profile.scanner {
        AlpacaOptionsStrategyScannerConfig::Credit => match credit_kind(profile.family) {
            Some(kind) => Some(ScanRequest::Credit(kind)),
            None => None,
        },
        AlpacaOptionsStrategyScannerConfig::IronCondor => if profile.family is IronCondor {
            Some(ScanRequest::IronCondor)
        } else {
            None
        },
        AlpacaOptionsStrategyScannerConfig::Debit => match debit_kind(profile.family) {
            Some(kind) => Some(ScanRequest::Debit(kind)),
            None => None,
        },
        AlpacaOptionsStrategyScannerConfig::Naked => match naked_kind(profile.family) {
            Some(kind) => Some(ScanRequest::Naked(kind)),
            None => None,
        },
    }
}

/// Returns the scan that a profile asks for.
pub fn scan_request(profile: &AlpacaOptionsStrategyProfile) -> (request: Option<ScanRequest>)
    ensures
        request == requested_scan(*profile),
{
    match profile.scanner {
        AlpacaOptionsStrategyScannerConfig::Credit => match credit_kind_from_family(
            profile.family,
        ) {
            Some(kind) => Some(ScanRequest::Credit(kind)),
            None => None,
        },
        AlpacaOptionsStrategyScannerConfig::IronCondor => {
            if matches!(profile.family, AlpacaOptionsStrategyFamily::IronCondor) {
                Some(ScanRequest::IronCondor)
            } else {
                None
            }
        },
        AlpacaOptionsStrategyScannerConfig::Debit => match debit_kind_from_family(
            profile.family,
        ) {
            Some(kind) => Some(ScanRequest::Debit(kind)),
            None => None,
        },
        AlpacaOptionsStrategyScannerConfig::Naked => match naked_kind_from_family(
            profile.family,
        ) {
            Some(kind) => Some(ScanRequest::Naked(kind)),
            None => None,
        },
    }
}

/// Ranked candidates of one scan.
#[derive(Clone, Debug)]
pub enum ScanCandidates {
    /// Credit spreads.
    Credit(CreditSpreadKind, Vec<SpreadCandidate>),
    /// Iron condors.
    IronCondor(Vec<IronCondorCandidate>),
    /// Debit spreads.
    Debit(DebitSpreadKind, Vec<DebitSpreadCandidate>),
    /// Naked short options.
    Naked(NakedOptionKind, Vec<NakedOptionCandidate>),
}

impl ScanCandidates {
    /// The scan that these candidates come from.
    pub open spec fn request(self) -> ScanRequest {
        match self {
            ScanCandidates::Credit(kind, _) => ScanRequest::Credit(kind),
            ScanCandidates::IronCondor(_) => ScanRequest::IronCondor,
            ScanCandidates::Debit(kind, _) => ScanRequest::Debit(kind),
            ScanCandidates::Naked(kind, _) => ScanRequest::Naked(kind),
        }
    }

    /// The number of candidates.
    pub open spec fn count(self) -> int {
        match self {
            ScanCandidates::Credit(_, list) => list@.len() as int,
            ScanCandidates::IronCondor(list) => list@.len() as int,
            ScanCandidates::Debit(_, list) => list@.len() as int,
            ScanCandidates::Naked(_, list) => list@.len() as int,
        }
    }

    /// Whether an entry is the first candidate, on an underlying.
    pub open spec fn first_is(self, underlying: Seq<char>, entry: SelectedOptionsEntry) -> bool {
        &&& self.count() > 0
        &&& match (self, entry) {
            (ScanCandidates::Credit(kind, list), SelectedOptionsEntry::Credit(e)) => {
                e.underlying@ == underlying && e.kind == kind && e.candidate == list@[0]
            },
            (ScanCandidates::IronCondor(list), SelectedOptionsEntry::IronCondor(e)) => {
                e.underlying@ == underlying && e.candidate == list@[0]
            },
            (ScanCandidates::Debit(kind, list), SelectedOptionsEntry::Debit(e)) => {
                e.underlying@ == underlying && e.kind == kind && e.candidate == list@[0]
            },
            (ScanCandidates::Naked(kind, list), SelectedOptionsEntry::NakedOption(e)) => {
                e.underlying@ == underlying && e.kind == kind && e.candidate == list@[0]
            },
            _ => false,
        }
    }

    /// Returns the scan that these candidates come from.
    pub fn scan(&self) -> (request: ScanRequest)
        ensures
            request == self.request(),
    {
        match self {
            ScanCandidates::Credit(kind, _) => ScanRequest::Credit(*kind),
            ScanCandidates::IronCondor(_) => ScanRequest::IronCondor,
            ScanCandidates::Debit(kind, _) => ScanRequest::Debit(*kind),
            ScanCandidates::Naked(kind, _) => ScanRequest::Naked(*kind),
        }
    }

    /// Returns the number of candidates.
    pub fn len(&self) -> (n: usize)
        ensures
            n == self.count(),
    {
        match self {
            ScanCandidates::Credit(_, list) => list.len(),
            ScanCandidates::IronCondor(list) => list.len(),
            ScanCandidates::Debit(_, list) => list.len(),
            ScanCandidates::Naked(_, list) => list.len(),
        }
    }

    /// Returns the first candidate as an entry on an underlying.
    pub fn best(&self, underlying: &str) -> (entry: Option<SelectedOptionsEntry>)
        ensures
            entry is Some <==> self.count() > 0,
            entry matches Some(found) ==> self.first_is(underlying@, found),
    {
        match self {
            ScanCandidates::Credit(kind, list) => {
                if list.len() == 0 {
                    None
                } else {
                    Some(
                        SelectedOptionsEntry::Credit(
                            SelectedEntry {
                                underlying: underlying.to_owned(),
                                kind: *kind,
                                candidate: list[0].copy(),
                            },
                        ),
                    )
                }
            },
            ScanCandidates::IronCondor(list) => {
                if list.len() == 0 {
                    None
                } else {
                    Some(
                        SelectedOptionsEntry::IronCondor(
                            SelectedIronCondorEntry {
                                underlying: underlying.to_owned(),
                                candidate: list[0].copy(),
                            },
                        ),
                    )
                }
            },
            ScanCandidates::Debit(kind, list) => {
                if list.len() == 0 {
                    None
                } else {
                    Some(
                        SelectedOptionsEntry::Debit(
                            SelectedDebitEntry {
                                underlying: underlying.to_owned(),
                                kind: *kind,
                                candidate: list[0].copy(),
                            },
                        ),
                    )
                }
            },
            ScanCandidates::Naked(kind, list) => {
                if list.len() == 0 {
                    None
                } else {
                    Some(
                        SelectedOptionsEntry::NakedOption(
                            SelectedNakedOptionEntry {
                                underlying: underlying.to_owned(),
                                kind: *kind,
                                candidate: list[0].copy(),
                            },
                        ),
                    )
                }
            },
        }
    }
}

/// What one scan of an underlying gave.
#[derive(Clone, Debug)]
pub struct ScanResult {
    /// Underlying symbol.
    pub underlying: String,
    /// Number of contracts loaded.
    pub contract_count: usize,
    /// Number of snapshots loaded.
    pub snapshot_count: usize,
    /// Number of scoreable contracts.
    pub scoreable_count: usize,
    /// Counts of scanner rejection reasons.
    pub rejection_counts: TextMap<usize>,
    /// Ranked candidates.
    pub candidates: ScanCandidates,
    /// Reason to report when there is no candidate.
    pub no_candidate_reason: String,
}

/// Whether a report tells what a scan gave.
pub open spec fn reports(
    report: OptionsScanReport,
    profile: AlpacaOptionsCandidateProfile,
    result: ScanResult,
) -> bool {
    &&& report.profile == profile
    &&& report.underlying@ == result.underlying@
    &&& report.strategy@ == result.candidates.request().strategy()
    &&& report.outcome == if result.candidates.count() == 0 {
        OptionsScanOutcome::NoCandidate
    } else {
        OptionsScanOutcome::Candidate
    }
    &&& report.candidate_count == result.candidates.count()
    &&& crate::text::opt_text(report.reason) == if result.candidates.count() == 0 {
        Some(result.no_candidate_reason@)
    } else {
        None
    }
    &&& report.contract_count == result.contract_count
    &&& report.snapshot_count == result.snapshot_count
    &&& report.scoreable_count == result.scoreable_count
    &&& report.rejection_counts == result.rejection_counts
}

/// Whether `after` is `before` with one scan recorded: one report more, and the first candidate
/// ranked when there is one.
pub open spec fn scan_recorded(
    before: OptionsCandidateSet,
    after: OptionsCandidateSet,
    profile: AlpacaOptionsCandidateProfile,
    result: ScanResult,
) -> bool {
    &&& after.trade_date == before.trade_date
    &&& after.scans@.len() == before.scans@.len() + 1
    &&& after.scans@.drop_last() == before.scans@
    &&& reports(after.scans@.last(), profile, result)
    &&& if result.candidates.count() == 0 {
        after.ranked_entries@ == before.ranked_entries@
    } else {
        exists|best: SelectedOptionsEntry|
            #![trigger result.candidates.first_is(result.underlying@, best)]
            result.candidates.first_is(result.underlying@, best) && after.ranked_entries@
                == with_candidate(
                before.ranked_entries@,
                ProfiledOptionsEntry { profile, entry: best },
            )
    }
}

impl OptionsCandidateSet {
    /// Records what one scan gave.
    pub fn record_scan(&mut self, profile: &AlpacaOptionsCandidateProfile, result: ScanResult)
        requires
            old(self).wf(),
        ensures
            final(self).wf(),
            scan_recorded(*old(self), *final(self), *profile, result),
    {
        let best = result.candidates.best(result.underlying.as_str());
        let ghost given = result;
        let count: usize = result.candidates.len();
        let name = result.candidates.scan().strategy_name();
        self.push_scan(
            OptionsScanReport::new(
                profile.copy(),
                result.underlying.as_str(),
                name,
                count,
                result.contract_count,
                result.snapshot_count,
                result.scoreable_count,
                result.rejection_counts,
                result.no_candidate_reason.as_str(),
            ),
        );
        assert(self.scans@.drop_last() =~= old(self).scans@);
        match best {
            Some(entry) => {
                assert(given.candidates.first_is(given.underlying@, entry));
                self.consider_candidate(ProfiledOptionsEntry::new(profile.copy(), entry));
            },
            None => {},
        }
    }
}

/// A scan to run: a profile, one of its underlyings, and what to look for.
#[derive(Clone, Copy, Debug, PartialEq, Eq, Structural)]
pub struct ScanTask {
    /// Position of the profile.
    pub profile: usize,
    /// Position of the underlying in the profile.
    pub underlying: usize,
    /// Scan to run.
    pub request: ScanRequest,
}

/// The scans of one profile from a position of its underlyings on.
pub open spec fn profile_tasks(
    profile: AlpacaOptionsStrategyProfile,
    index: int,
) -> Seq<ScanTask> {
    match requested_scan(profile) {
        Some(request) => Seq::new(
            profile.underlyings@.len(),
            |u: int| ScanTask { profile: index as usize, underlying: u as usize, request },
        ),
        None => Seq::empty(),
    }
}

/// The scans of the first `n` profiles, profile by profile and underlying by underlying.
pub open spec fn tasks_of(profiles: Seq<AlpacaOptionsStrategyProfile>, n: int) -> Seq<ScanTask>
    decreases n,
{
    if n <= 0 {
        Seq::empty()
    } else {
        tasks_of(profiles, n - 1) + profile_tasks(profiles[n - 1], n - 1)
    }
}

/// Returns the scans to run, profile by profile and underlying by underlying.
pub fn scan_tasks(profiles: &Vec<AlpacaOptionsStrategyProfile>) -> (tasks: Vec<ScanTask>)
    ensures
        tasks@ == tasks_of(profiles@, profiles@.len() as int),
{
    let mut tasks: Vec<ScanTask> = Vec::new();
    let n: usize = profiles.len();
    for p in 0..n
        invariant
            n == profiles@.len(),
            tasks@ == tasks_of(profiles@, p as int),
    {
        match scan_request(&profiles[p]) {
            Some(request) => {
                let ghost before = tasks@;
                let m: usize = profiles[p].underlyings.len();
                for u in 0..m
                    invariant
                        p < n == profiles@.len(),
                        m == profiles@[p as int].underlyings@.len(),
                        requested_scan(profiles@[p as int]) == Some(request),
                        tasks@ == before + profile_tasks(profiles@[p as int], p as int).take(
                            u as int,
                        ),
                {
                    tasks.push(ScanTask { profile: p, underlying: u, request });
                    assert(tasks@ =~= before + profile_tasks(profiles@[p as int], p as int).take(
                        u + 1,
                    ));
                }
                assert(tasks@ =~= before + profile_tasks(profiles@[p as int], p as int));
            },
            None => {
                assert(tasks@ =~= tasks@ + profile_tasks(profiles@[p as int], p as int));
            },
        }
    }
    tasks
}

/// Whether a set is what recording results one after the other makes of an empty set. The sets in
/// between are `steps`, the empty set first.
pub open spec fn recorded_in_turn(
    steps: Seq<OptionsCandidateSet>,
    profiles: Seq<AlpacaOptionsCandidateProfile>,
    results: Seq<ScanResult>,
) -> bool {
    &&& steps.len() == results.len() + 1
    &&& steps[0].scans@.len() == 0
    &&& steps[0].ranked_entries@.len() == 0
    &&& forall|k: int|
        0 <= k < results.len() ==> scan_recorded(
            #[trigger] steps[k],
            steps[k + 1],
            profiles[k],
            results[k],
        )
}

/// Records results one after the other, each under its profile.
pub fn record_scans(
    trade_date: &str,
    profiles: &Vec<AlpacaOptionsCandidateProfile>,
    results: Vec<ScanResult>,
) -> (set: OptionsCandidateSet)
    requires
        results@.len() == profiles@.len(),
    ensures
        set.wf(),
        set.trade_date@ == trade_date@,
        set.scans@.len() == results@.len(),
        exists|steps: Seq<OptionsCandidateSet>|
            recorded_in_turn(steps, profiles@, results@) && #[trigger] steps.last() == set,
{
    let mut set = OptionsCandidateSet::new(trade_date);
    let ghost mut steps: Seq<OptionsCandidateSet> = seq![set];
    let mut rest = results;
    let n: usize = rest.len();
    let mut i: usize = 0;
    assert(results@.skip(0) =~= results@);
    while i < n
        invariant
            i <= n == results@.len() == profiles@.len(),
            rest@ == results@.skip(i as int),
            set.wf(),
            set.trade_date@ == trade_date@,
            set.scans@.len() == i,
            steps.last() == set,
            recorded_in_turn(steps, profiles@, results@.take(i as int)),
        decreases n - i,
    {
        let result = rest.remove(0);
        set.record_scan(&profiles[i], result);
        proof {
            assert(result == results@[i as int]);
            let longer = steps.push(set);
            let done = results@.take(i + 1);
            assert forall|k: int| 0 <= k < done.len() implies scan_recorded(
                #[trigger] longer[k],
                longer[k + 1],
                profiles@[k],
                done[k],
            ) by {
                if k < i {
                    assert(longer[k] == steps[k] && longer[k + 1] == steps[k + 1]);
                    assert(done[k] == results@.take(i as int)[k]);
                }
            }
            steps = longer;
            assert(results@.skip(i as int).remove(0) =~= results@.skip(i + 1));
        }
        i += 1;
    }
    assert(results@.take(n as int) =~= results@);
    set
}

/// The contexts of the profiles that some scans belong to.
pub open spec fn task_profiles(
    profiles: Seq<AlpacaOptionsStrategyProfile>,
    tasks: Seq<ScanTask>,
) -> Seq<AlpacaOptionsCandidateProfile> {
    Seq::new(
        tasks.len(),
        |k: int| AlpacaOptionsCandidateProfile::of_profile(profiles[tasks[k].profile as int]),
    )
}

/// Discovers ranked option candidates for one strategy iteration from the results of its scans,
/// one result for each scan to run.
pub fn scan_options_candidates(
    trade_date: &str,
    profiles: &Vec<AlpacaOptionsStrategyProfile>,
    tasks: &Vec<ScanTask>,
    results: Vec<ScanResult>,
) -> (set: OptionsCandidateSet)
    requires
        results@.len() == tasks@.len(),
        forall|k: int| 0 <= k < tasks@.len() ==> (#[trigger] tasks@[k]).profile < profiles@.len(),
    ensures
        set.wf(),
        set.trade_date@ == trade_date@,
        set.scans@.len() == results@.len(),
        exists|steps: Seq<OptionsCandidateSet>|
            recorded_in_turn(steps, task_profiles(profiles@, tasks@), results@)
                && #[trigger] steps.last() == set,
{
    let mut contexts: Vec<AlpacaOptionsCandidateProfile> = Vec::new();
    for i in 0..tasks.len()
        invariant
            forall|k: int|
                0 <= k < tasks@.len() ==> (#[trigger] tasks@[k]).profile < profiles@.len(),
            contexts@.len() == i,
            forall|k: int|
                0 <= k < i ==> #[trigger] contexts@[k]
                    == AlpacaOptionsCandidateProfile::of_profile(
                    profiles@[tasks@[k].profile as int],
                ),
    {
        contexts.push(
            AlpacaOptionsCandidateProfile::from_strategy_profile(&profiles[tasks[i].profile]),
        );
    }
    assert(contexts@ =~= task_profiles(profiles@, tasks@));
    record_scans(trade_date, &contexts, results)
}

/// The tasks of some profiles name only those profiles and their underlyings.
pub proof fn tasks_stay_within_the_profiles(profiles: Seq<AlpacaOptionsStrategyProfile>, n: int)
    requires
        0 <= n <= profiles.len() <= usize::MAX,
        forall|p: int|
            0 <= p < profiles.len() ==> (#[trigger] profiles[p]).underlyings@.len() <= usize::MAX,
    ensures
        forall|k: int|
            0 <= k < tasks_of(profiles, n).len() ==> {
                let task = #[trigger] tasks_of(profiles, n)[k];
                &&& task.profile < n
                &&& task.underlying < profiles[task.profile as int].underlyings@.len()
                &&& requested_scan(profiles[task.profile as int]) == Some(task.request)
            },
    decreases n,
{
    if n > 0 {
        tasks_stay_within_the_profiles(profiles, n - 1);
        let earlier = tasks_of(profiles, n - 1);
        let added = profile_tasks(profiles[n - 1], n - 1);
        assert forall|k: int| 0 <= k < tasks_of(profiles, n).len() implies {
            let task = #[trigger] tasks_of(profiles, n)[k];
            &&& task.profile < n
            &&& task.underlying < profiles[task.profile as int].underlyings@.len()
            &&& requested_scan(profiles[task.profile as int]) == Some(task.request)
        } by {
            if k < earlier.len() {
                assert(tasks_of(profiles, n)[k] == earlier[k]);
            } else {
                assert(tasks_of(profiles, n)[k] == added[k - earlier.len()]);
            }
        }
    }
}

} // verus!
