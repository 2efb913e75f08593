//! Scanner-quality report.
use vstd::prelude::*;

use crate::calendar::date_before;
use crate::calendar::elapsed_nanos;
use crate::calendar::instant_in;
use crate::calendar::instant_text;
use crate::calendar::nanos_since;
use crate::calendar::parse_instant;
use crate::calendar::rfc3339_writing;
use crate::calendar::utc_date;
use crate::calendar::CalendarDate;
use crate::calendar::NANOS_PER_SEC;
use crate::calendar::UtcInstant;
use crate::evidence::chars_or;
use crate::evidence::first_text;
use crate::evidence::Evidence;
use crate::evidence::EvidenceRef;
use crate::json::Json;
use crate::json::JsonNumber;
use crate::text::opt_slice;
use crate::text::opt_text;
use crate::text::text_lt_irreflexive;
use crate::text_map::count_at;
use crate::text_map::keys_of;
use crate::text_map::lookup_own_key;
use crate::text_map::TextMap;
use crate::text_set::ascending;
use crate::text_set::TextSet;

verus! {

/// Sums over some scans.
#[derive(Clone, Debug)]
pub struct ScanTally {
    /// Scans.
    pub scans: usize,
    /// Scans with a candidate.
    pub candidate_scans: usize,
    /// Scans without a candidate.
    pub no_candidate_scans: usize,
    /// Candidates.
    pub candidate_count: usize,
    /// Scoreable contracts.
    pub scoreable_count: usize,
    /// Contracts.
    pub contract_count: usize,
    /// Snapshots.
    pub snapshot_count: usize,
    /// Rejections by reason.
    pub rejection_counts: TextMap<usize>,
    /// Scans without a candidate by reason.
    pub reason_counts: TextMap<usize>,
    /// Time of the latest scan.
    pub latest_ts_utc: Option<String>,
}

/// Sums over the scans of one profile or one underlying.
#[derive(Clone, Debug)]
pub struct ScannerAggregate {
    /// Sums.
    pub tally: ScanTally,
    /// Underlyings of the scans.
    pub underlyings: TextSet,
    /// Profiles of the scans.
    pub profiles: TextSet,
    /// Family of the profile.
    pub profile_family: Option<String>,
    /// Mode of the profile.
    pub profile_mode: Option<String>,
}

/// Sums over the scans of one profile.
#[derive(Clone, Debug)]
pub struct ScannerProfileSummary {
    /// Profile ID.
    pub profile_id: String,
    /// Profile family.
    pub profile_family: String,
    /// Profile mode.
    pub profile_mode: String,
    /// Number of underlyings.
    pub underlyings: usize,
    /// Sums.
    pub tally: ScanTally,
}

/// Sums over the scans of one underlying.
#[derive(Clone, Debug)]
pub struct ScannerUnderlyingSummary {
    /// Underlying symbol.
    pub underlying: String,
    /// Number of profiles.
    pub profile_count: usize,
    /// Sums.
    pub tally: ScanTally,
}

/// The report.
#[derive(Clone, Debug)]
pub struct ScannerQualityReport {
    /// Time of the report, where it has a text.
    pub checked_at_utc: Option<String>,
    /// Lookback in seconds, zero for all evidence.
    pub since_secs: i64,
    /// Path of the log.
    pub log_file: String,
    /// Whether the log exists.
    pub log_file_exists: bool,
    /// Pieces of evidence that were counted.
    pub scan_events: usize,
    /// Events of the log among them.
    pub operator_event_scan_events: usize,
    /// Ledger records among them.
    pub candidate_ledger_scan_records: usize,
    /// Why the ledger could not be read.
    pub candidate_ledger_error: Option<String>,
    /// Ranked entries.
    pub ranked_entries: usize,
    /// Sums over all scans.
    pub total: ScanTally,
    /// Sums by profile.
    pub profile_summaries: Vec<ScannerProfileSummary>,
    /// Sums by underlying.
    pub underlying_summaries: Vec<ScannerUnderlyingSummary>,
    /// The last piece of evidence that was counted.
    pub latest_scan: Option<EvidenceRef>,
}

// ---------------------------------------------------------------------------------------------
// One scan
// ---------------------------------------------------------------------------------------------

/// A scan and the time of its evidence.
pub struct ScanItem {
    /// Time.
    pub ts: Option<Seq<char>>,
    /// Scan.
    pub scan: Json,
}

/// A natural number of a value, zero when there is none that fits.
pub open spec fn number_of(value: Json, key: Seq<char>) -> nat {
    match value.number_field(key) {
        Some(n) => if n <= usize::MAX {
            n as nat
        } else {
            0
        },
        None => 0,
    }
}

/// A name in a value, `unknown` when there is none.
pub open spec fn name_of(value: Json, key: Seq<char>) -> Seq<char> {
    chars_or(value.text_field(key), "unknown"@)
}

/// Whether a scan found a candidate.
pub open spec fn found(scan: Json) -> bool {
    scan.text_field("outcome"@) == Some("candidate"@) || number_of(scan, "candidate_count"@) > 0
}

/// Why a scan found no candidate.
pub open spec fn reason_of(scan: Json) -> Seq<char> {
    chars_or(scan.text_field("reason"@), "no_candidate"@)
}

/// The rejections of a scan.
pub open spec fn rejections_of(scan: Json) -> Seq<(String, Json)> {
    match scan.field("rejections"@) {
        Some(Json::Object(fields)) => fields@,
        _ => Seq::empty(),
    }
}

/// The count of a rejection.
pub open spec fn rejection_number(value: Json) -> nat {
    match value {
        Json::Number(JsonNumber::Natural(n)) => (n as usize) as nat,
        _ => 0,
    }
}

/// How often some rejections name a reason.
pub open spec fn rejection_total(fields: Seq<(String, Json)>, reason: Seq<char>) -> nat
    decreases fields.len(),
{
    if fields.len() == 0 {
        0
    } else {
        rejection_total(fields.drop_last(), reason) + if fields.last().0@ == reason {
            rejection_number(fields.last().1)
        } else {
            0
        }
    }
}

/// Whether some rejections name a reason.
pub open spec fn rejects(fields: Seq<(String, Json)>, reason: Seq<char>) -> bool {
    exists|i: int| 0 <= i < fields.len() && (#[trigger] fields[i]).0@ == reason
}

/// The family that a scan gives its profile.
pub open spec fn family_of(scan: Json) -> Option<Seq<char>> {
    first_text(scan.text_field("profile_family"@), scan.text_field("strategy"@))
}

// ---------------------------------------------------------------------------------------------
// Several scans
// ---------------------------------------------------------------------------------------------

/// A sum over some scans.
pub open spec fn sum_over(items: Seq<ScanItem>, f: spec_fn(Json) -> nat) -> nat
    decreases items.len(),
{
    if items.len() == 0 {
        0
    } else {
        sum_over(items.drop_last(), f) + f(items.last().scan)
    }
}

/// The sum of a number over some scans.
pub open spec fn number_total(items: Seq<ScanItem>, key: Seq<char>) -> nat {
    sum_over(items, |scan: Json| number_of(scan, key))
}

/// How often some scans reject for a reason.
pub open spec fn rejected_for(items: Seq<ScanItem>, reason: Seq<char>) -> nat {
    sum_over(items, |scan: Json| rejection_total(rejections_of(scan), reason))
}

/// Whether some scan rejects for a reason.
pub open spec fn some_rejects(items: Seq<ScanItem>, reason: Seq<char>) -> bool {
    exists|i: int| 0 <= i < items.len() && rejects(rejections_of((#[trigger] items[i]).scan), reason)
}

/// The scans that found a candidate, or those that did not.
pub open spec fn scans_with(items: Seq<ScanItem>, outcome: bool) -> Seq<ScanItem> {
    items.filter(|item: ScanItem| found(item.scan) == outcome)
}

/// The scans that found no candidate for a reason.
pub open spec fn missed_for(items: Seq<ScanItem>, reason: Seq<char>) -> Seq<ScanItem> {
    items.filter(|item: ScanItem| !found(item.scan) && reason_of(item.scan) == reason)
}

/// The last of the times of some scans.
pub open spec fn last_ts(items: Seq<ScanItem>) -> Option<Seq<char>>
    decreases items.len(),
{
    if items.len() == 0 {
        None
    } else if items.last().ts is Some {
        items.last().ts
    } else {
        last_ts(items.drop_last())
    }
}

/// The last family that some scans give.
pub open spec fn last_family(items: Seq<ScanItem>) -> Option<Seq<char>>
    decreases items.len(),
{
    if items.len() == 0 {
        None
    } else {
        first_text(family_of(items.last().scan), last_family(items.drop_last()))
    }
}

/// The last mode that some scans give.
pub open spec fn last_mode(items: Seq<ScanItem>) -> Option<Seq<char>>
    decreases items.len(),
{
    if items.len() == 0 {
        None
    } else {
        first_text(
            items.last().scan.text_field("profile_mode"@),
            last_mode(items.drop_last()),
        )
    }
}

/// Whether all sums over some scans fit in a machine word.
pub open spec fn fits(items: Seq<ScanItem>) -> bool {
    &&& items.len() <= usize::MAX
    &&& number_total(items, "candidate_count"@) <= usize::MAX
    &&& number_total(items, "contracts"@) <= usize::MAX
    &&& number_total(items, "snapshots"@) <= usize::MAX
    &&& number_total(items, "scoreable"@) <= usize::MAX
    &&& forall|reason: Seq<char>| #[trigger] rejected_for(items, reason) <= usize::MAX
}

/// Whether a tally holds the sums over some scans.
pub open spec fn sums(tally: ScanTally, items: Seq<ScanItem>) -> bool {
    &&& tally.rejection_counts.wf()
    &&& tally.reason_counts.wf()
    &&& tally.scans == items.len()
    &&& tally.candidate_scans == scans_with(items, true).len()
    &&& tally.no_candidate_scans == scans_with(items, false).len()
    &&& tally.candidate_count == number_total(items, "candidate_count"@)
    &&& tally.scoreable_count == number_total(items, "scoreable"@)
    &&& tally.contract_count == number_total(items, "contracts"@)
    &&& tally.snapshot_count == number_total(items, "snapshots"@)
    &&& forall|reason: Seq<char>|
        #![trigger tally.rejection_counts.at(reason)]
        count_at(tally.rejection_counts, reason) == rejected_for(items, reason) && (
        tally.rejection_counts.at(reason) is Some <==> some_rejects(items, reason))
    &&& forall|reason: Seq<char>|
        #![trigger tally.reason_counts.at(reason)]
        count_at(tally.reason_counts, reason) == missed_for(items, reason).len() && (
        tally.reason_counts.at(reason) is Some <==> missed_for(items, reason).len() > 0)
    &&& opt_text(tally.latest_ts_utc) == last_ts(items)
}

/// One item more.
proof fn filter_push<A>(items: Seq<A>, item: A, pass: spec_fn(A) -> bool)
    ensures
        items.push(item).filter(pass) == if pass(item) {
            items.filter(pass).push(item)
        } else {
            items.filter(pass)
        },
{
    reveal(Seq::filter);
    assert(items.push(item).drop_last() =~= items);
}

/// No more items pass than there are.
proof fn filter_is_shorter<A>(items: Seq<A>, pass: spec_fn(A) -> bool)
    ensures
        items.filter(pass).len() <= items.len(),
    decreases items.len(),
{
    reveal(Seq::filter);
    if items.len() > 0 {
        filter_is_shorter(items.drop_last(), pass);
    }
}

/// One scan more adds its value.
proof fn sum_push(items: Seq<ScanItem>, item: ScanItem, f: spec_fn(Json) -> nat)
    ensures
        sum_over(items.push(item), f) == sum_over(items, f) + f(item.scan),
{
    assert(items.push(item).drop_last() =~= items);
}

/// The sum over two lists of scans.
proof fn sum_add(left: Seq<ScanItem>, right: Seq<ScanItem>, f: spec_fn(Json) -> nat)
    ensures
        sum_over(left + right, f) == sum_over(left, f) + sum_over(right, f),
    decreases right.len(),
{
    if right.len() == 0 {
        assert(left + right =~= left);
    } else {
        assert((left + right).drop_last() =~= left + right.drop_last());
        sum_add(left, right.drop_last(), f);
    }
}

/// The sum over fewer scans is no larger.
proof fn sum_filter(items: Seq<ScanItem>, pass: spec_fn(ScanItem) -> bool, f: spec_fn(Json) -> nat)
    ensures
        sum_over(items.filter(pass), f) <= sum_over(items, f),
    decreases items.len(),
{
    reveal(Seq::filter);
    if items.len() > 0 {
        sum_filter(items.drop_last(), pass, f);
        if pass(items.last()) {
            sum_push(items.drop_last().filter(pass), items.last(), f);
        }
    }
}

/// What fits, fits without its end.
proof fn fits_prefix(left: Seq<ScanItem>, right: Seq<ScanItem>)
    requires
        fits(left + right),
    ensures
        fits(left),
{
    sum_add(left, right, |scan: Json| number_of(scan, "candidate_count"@));
    sum_add(left, right, |scan: Json| number_of(scan, "contracts"@));
    sum_add(left, right, |scan: Json| number_of(scan, "snapshots"@));
    sum_add(left, right, |scan: Json| number_of(scan, "scoreable"@));
    assert forall|reason: Seq<char>| #[trigger] rejected_for(left, reason) <= usize::MAX by {
        sum_add(left, right, |scan: Json| rejection_total(rejections_of(scan), reason));
        assert(rejected_for(left + right, reason) <= usize::MAX);
    }
}

/// What fits, fits in part.
proof fn fits_filter(items: Seq<ScanItem>, pass: spec_fn(ScanItem) -> bool)
    requires
        fits(items),
    ensures
        fits(items.filter(pass)),
{
    filter_is_shorter(items, pass);
    sum_filter(items, pass, |scan: Json| number_of(scan, "candidate_count"@));
    sum_filter(items, pass, |scan: Json| number_of(scan, "contracts"@));
    sum_filter(items, pass, |scan: Json| number_of(scan, "snapshots"@));
    sum_filter(items, pass, |scan: Json| number_of(scan, "scoreable"@));
    assert forall|reason: Seq<char>| #[trigger] rejected_for(items.filter(pass), reason)
        <= usize::MAX by {
        sum_filter(items, pass, |scan: Json| rejection_total(rejections_of(scan), reason));
        assert(rejected_for(items, reason) <= usize::MAX);
    }
}

fn empty_tally() -> (tally: ScanTally)
    ensures
        sums(tally, Seq::empty()),
{
    let tally = ScanTally {
        scans: 0,
        candidate_scans: 0,
        no_candidate_scans: 0,
        candidate_count: 0,
        scoreable_count: 0,
        contract_count: 0,
        snapshot_count: 0,
        rejection_counts: TextMap::new(),
        reason_counts: TextMap::new(),
        latest_ts_utc: None,
    };
    proof {
        reveal(Seq::filter);
    }
    tally
}

/// Returns a natural number of a value, zero when there is none that fits.
pub fn value_usize(value: &Json, key: &str) -> (number: usize)
    ensures
        number == number_of(*value, key@),
{
    match value.get_number(key) {
        Some(n) => if n <= usize::MAX as u64 {
            n as usize
        } else {
            0
        },
        None => 0,
    }
}

/// The rejections of fewer fields are no more.
proof fn rejection_total_grows(fields: Seq<(String, Json)>, n: int, reason: Seq<char>)
    requires
        0 <= n <= fields.len(),
    ensures
        rejection_total(fields.take(n), reason) <= rejection_total(fields, reason),
    decreases fields.len() - n,
{
    if n < fields.len() {
        rejection_total_grows(fields, n + 1, reason);
        assert(fields.take(n + 1).drop_last() =~= fields.take(n));
    } else {
        assert(fields.take(n) =~= fields);
    }
}

fn merge_rejections(counts: &mut TextMap<usize>, scan: &Json)
    requires
        old(counts).wf(),
        forall|reason: Seq<char>|
            count_at(*old(counts), reason) + #[trigger] rejection_total(
                rejections_of(*scan),
                reason,
            ) <= usize::MAX,
    ensures
        final(counts).wf(),
        forall|reason: Seq<char>|
            #![trigger final(counts).at(reason)]
            count_at(*final(counts), reason) == count_at(*old(counts), reason) + rejection_total(
                rejections_of(*scan),
                reason,
            ) && (final(counts).at(reason) is Some <==> old(counts).at(reason) is Some || rejects(
                rejections_of(*scan),
                reason,
            )),
{
    let ghost start = *counts;
    match scan.get("rejections") {
        Some(Json::Object(fields)) => {
            let n: usize = fields.len();
            for i in 0..n
                invariant
                    n == fields@.len(),
                    rejections_of(*scan) == fields@,
                    counts.wf(),
                    forall|reason: Seq<char>|
                        count_at(start, reason) + #[trigger] rejection_total(fields@, reason)
                            <= usize::MAX,
                    forall|reason: Seq<char>|
                        #![trigger counts.at(reason)]
                        count_at(*counts, reason) == count_at(start, reason) + rejection_total(
                            fields@.take(i as int),
                            reason,
                        ) && (counts.at(reason) is Some <==> start.at(reason) is Some || rejects(
                            fields@.take(i as int),
                            reason,
                        )),
            {
                let ghost before = *counts;
                let ghost earlier = fields@.take(i as int);
                let ghost next = fields@.take(i + 1);
                let number: usize = match &fields[i].1 {
                    Json::Number(JsonNumber::Natural(value)) => *value as usize,
                    _ => 0,
                };
                let ghost key = fields@[i as int].0@;
                proof {
                    assert(next.drop_last() =~= earlier);
                    assert(next.last() == fields@[i as int]);
                    rejection_total_grows(fields@, i + 1, key);
                    assert(count_at(start, key) + rejection_total(fields@, key) <= usize::MAX);
                    let _ = before.at(key);
                }
                counts.add_count(fields[i].0.as_str(), number);
                proof {
                    assert forall|reason: Seq<char>|
                        #![trigger counts.at(reason)]
                        count_at(*counts, reason) == count_at(start, reason) + rejection_total(
                            next,
                            reason,
                        ) && (counts.at(reason) is Some <==> start.at(reason) is Some || rejects(
                            next,
                            reason,
                        )) by {
                        let _ = before.at(reason);
                        assert(count_at(before, reason) == count_at(start, reason)
                            + rejection_total(earlier, reason));
                        if rejects(earlier, reason) {
                            let k = choose|k: int|
                                0 <= k < earlier.len() && (#[trigger] earlier[k]).0@ == reason;
                            assert(next[k].0@ == reason);
                        }
                        if reason == key {
                            assert(next[i as int].0@ == reason);
                        } else if rejects(next, reason) {
                            let k = choose|k: int|
                                0 <= k < next.len() && (#[trigger] next[k]).0@ == reason;
                            assert(earlier[k].0@ == reason);
                        }
                    }
                }
            }
            assert(fields@.take(n as int) =~= fields@);
        },
        _ => {
            assert(rejections_of(*scan) =~= Seq::<(String, Json)>::empty());
        },
    }
}

/// Adds a scan to a tally. `items` are the scans counted so far.
fn apply_scan(
    tally: &mut ScanTally,
    scan: &Json,
    event_ts: Option<&str>,
    Ghost(items): Ghost<Seq<ScanItem>>,
)
    requires
        sums(*old(tally), items),
        fits(items.push(ScanItem { ts: opt_slice(event_ts), scan: *scan })),
    ensures
        sums(*final(tally), items.push(ScanItem { ts: opt_slice(event_ts), scan: *scan })),
{
    let ghost item = ScanItem { ts: opt_slice(event_ts), scan: *scan };
    let ghost next = items.push(item);
    let ghost before = *tally;
    let candidate_count: usize = value_usize(scan, "candidate_count");
    proof {
        sum_push(items, item, |scan: Json| number_of(scan, "candidate_count"@));
        sum_push(items, item, |scan: Json| number_of(scan, "contracts"@));
        sum_push(items, item, |scan: Json| number_of(scan, "snapshots"@));
        sum_push(items, item, |scan: Json| number_of(scan, "scoreable"@));
        filter_push(items, item, |item: ScanItem| found(item.scan) == true);
        filter_push(items, item, |item: ScanItem| found(item.scan) == false);
        filter_is_shorter(next, |item: ScanItem| found(item.scan) == true);
        filter_is_shorter(next, |item: ScanItem| found(item.scan) == false);
        assert(next.drop_last() =~= items);
    }
    tally.scans = tally.scans + 1;
    tally.candidate_count = tally.candidate_count + candidate_count;
    tally.contract_count = tally.contract_count + value_usize(scan, "contracts");
    tally.snapshot_count = tally.snapshot_count + value_usize(scan, "snapshots");
    tally.scoreable_count = tally.scoreable_count + value_usize(scan, "scoreable");
    if scan.field_is("outcome", "candidate") || candidate_count > 0 {
        tally.candidate_scans = tally.candidate_scans + 1;
    } else {
        tally.no_candidate_scans = tally.no_candidate_scans + 1;
        let reason = match scan.get_str("reason") {
            Some(text) => text,
            None => "no_candidate",
        };
        proof {
            let _ = before.reason_counts.at(reason@);
            filter_is_shorter(
                items,
                |item: ScanItem| !found(item.scan) && reason_of(item.scan) == reason@,
            );
        }
        tally.reason_counts.add_count(reason, 1);
    }
    proof {
        assert forall|reason: Seq<char>|
            #![trigger tally.reason_counts.at(reason)]
            count_at(tally.reason_counts, reason) == missed_for(next, reason).len() && (
            tally.reason_counts.at(reason) is Some <==> missed_for(next, reason).len() > 0) by {
            filter_push(
                items,
                item,
                |item: ScanItem| !found(item.scan) && reason_of(item.scan) == reason,
            );
            filter_is_shorter(
                items,
                |item: ScanItem| !found(item.scan) && reason_of(item.scan) == reason,
            );
            let _ = before.reason_counts.at(reason);
            assert(count_at(before.reason_counts, reason) == missed_for(items, reason).len());
        }
        assert forall|reason: Seq<char>|
            count_at(tally.rejection_counts, reason) + #[trigger] rejection_total(
                rejections_of(*scan),
                reason,
            ) <= usize::MAX by {
            sum_push(items, item, |scan: Json| rejection_total(rejections_of(scan), reason));
            let _ = before.rejection_counts.at(reason);
            assert(rejected_for(next, reason) <= usize::MAX);
        }
    }
    merge_rejections(&mut tally.rejection_counts, scan);
    proof {
        assert forall|reason: Seq<char>|
            #![trigger tally.rejection_counts.at(reason)]
            count_at(tally.rejection_counts, reason) == rejected_for(next, reason) && (
            tally.rejection_counts.at(reason) is Some <==> some_rejects(next, reason)) by {
            sum_push(items, item, |scan: Json| rejection_total(rejections_of(scan), reason));
            let _ = before.rejection_counts.at(reason);
            if some_rejects(items, reason) {
                let k = choose|k: int|
                    0 <= k < items.len() && rejects(
                        rejections_of((#[trigger] items[k]).scan),
                        reason,
                    );
                assert(rejects(rejections_of(next[k].scan), reason));
            }
            if rejects(rejections_of(*scan), reason) {
                assert(rejects(rejections_of(next[items.len() as int].scan), reason));
            }
            if some_rejects(next, reason) {
                let k = choose|k: int|
                    0 <= k < next.len() && rejects(
                        rejections_of((#[trigger] next[k]).scan),
                        reason,
                    );
                if k < items.len() {
                    assert(rejects(rejections_of(items[k].scan), reason));
                }
            }
        }
    }
    match event_ts {
        Some(text) => {
            tally.latest_ts_utc = Some(text.to_owned());
        },
        None => {},
    }
}

// ---------------------------------------------------------------------------------------------
// Groups of scans
// ---------------------------------------------------------------------------------------------

/// The names that some scans hold under a key.
pub open spec fn names_in(items: Seq<ScanItem>, key: Seq<char>) -> Seq<Seq<char>> {
    Seq::new(items.len(), |i: int| name_of(items[i].scan, key))
}

/// The scans with a name under a key.
pub open spec fn scans_named(items: Seq<ScanItem>, key: Seq<char>, name: Seq<char>) -> Seq<ScanItem> {
    items.filter(|item: ScanItem| name_of(item.scan, key) == name)
}

/// Whether an aggregate describes some scans.
pub open spec fn describes(aggregate: ScannerAggregate, items: Seq<ScanItem>) -> bool {
    &&& sums(aggregate.tally, items)
    &&& aggregate.underlyings.wf()
    &&& aggregate.profiles.wf()
    &&& forall|x: Seq<char>|
        #[trigger] aggregate.underlyings.has(x) <==> names_in(items, "underlying"@).contains(x)
    &&& forall|x: Seq<char>|
        #[trigger] aggregate.profiles.has(x) <==> names_in(items, "profile_id"@).contains(x)
    &&& opt_text(aggregate.profile_family) == last_family(items)
    &&& opt_text(aggregate.profile_mode) == last_mode(items)
}

/// Whether a map holds the aggregate of every group of scans with one name under a key.
pub open spec fn grouped(
    groups: TextMap<ScannerAggregate>,
    items: Seq<ScanItem>,
    key: Seq<char>,
) -> bool {
    groups.wf() && forall|name: Seq<char>|
        #![trigger groups.at(name)]
        match groups.at(name) {
            Some(aggregate) => scans_named(items, key, name).len() > 0 && describes(
                aggregate,
                scans_named(items, key, name),
            ),
            None => scans_named(items, key, name).len() == 0,
        }
}

fn empty_aggregate() -> (aggregate: ScannerAggregate)
    ensures
        describes(aggregate, Seq::empty()),
{
    ScannerAggregate {
        tally: empty_tally(),
        underlyings: TextSet::new(),
        profiles: TextSet::new(),
        profile_family: None,
        profile_mode: None,
    }
}

/// One scan more has one name more.
proof fn names_push(items: Seq<ScanItem>, item: ScanItem, key: Seq<char>, x: Seq<char>)
    ensures
        names_in(items.push(item), key).contains(x) <==> names_in(items, key).contains(x) || name_of(
            item.scan,
            key,
        ) == x,
{
    let next = names_in(items.push(item), key);
    assert(next =~= names_in(items, key).push(name_of(item.scan, key)));
    if names_in(items, key).contains(x) {
        let k = choose|k: int| 0 <= k < items.len() && names_in(items, key)[k] == x;
        assert(next[k] == x);
    }
    if name_of(item.scan, key) == x {
        assert(next[items.len() as int] == x);
    }
}

fn add_scan(
    aggregate: &mut ScannerAggregate,
    scan: &Json,
    event_ts: Option<&str>,
    profile_id: &str,
    underlying: &str,
    Ghost(items): Ghost<Seq<ScanItem>>,
)
    requires
        describes(*old(aggregate), items),
        profile_id@ == name_of(*scan, "profile_id"@),
        underlying@ == name_of(*scan, "underlying"@),
        fits(items.push(ScanItem { ts: opt_slice(event_ts), scan: *scan })),
    ensures
        describes(*final(aggregate), items.push(ScanItem { ts: opt_slice(event_ts), scan: *scan })),
{
    let ghost item = ScanItem { ts: opt_slice(event_ts), scan: *scan };
    let ghost next = items.push(item);
    let ghost before = *aggregate;
    match scan.get_text("profile_family") {
        Some(text) => {
            aggregate.profile_family = Some(text);
        },
        None => match scan.get_text("strategy") {
            Some(text) => {
                aggregate.profile_family = Some(text);
            },
            None => {},
        },
    }
    match scan.get_text("profile_mode") {
        Some(text) => {
            aggregate.profile_mode = Some(text);
        },
        None => {},
    }
    aggregate.underlyings.insert(underlying.to_owned());
    aggregate.profiles.insert(profile_id.to_owned());
    apply_scan(&mut aggregate.tally, scan, event_ts, Ghost(items));
    proof {
        assert(next.drop_last() =~= items);
        assert forall|x: Seq<char>| #[trigger]
            aggregate.underlyings.has(x) <==> names_in(next, "underlying"@).contains(x) by {
            names_push(items, item, "underlying"@, x);
            assert(before.underlyings.has(x) <==> names_in(items, "underlying"@).contains(x));
        }
        assert forall|x: Seq<char>| #[trigger]
            aggregate.profiles.has(x) <==> names_in(next, "profile_id"@).contains(x) by {
            names_push(items, item, "profile_id"@, x);
            assert(before.profiles.has(x) <==> names_in(items, "profile_id"@).contains(x));
        }
    }
}

fn add_to_group(
    groups: &mut TextMap<ScannerAggregate>,
    name: &str,
    scan: &Json,
    event_ts: Option<&str>,
    profile_id: &str,
    underlying: &str,
    Ghost(items): Ghost<Seq<ScanItem>>,
    Ghost(key): Ghost<Seq<char>>,
)
    requires
        grouped(*old(groups), items, key),
        name@ == name_of(*scan, key),
        profile_id@ == name_of(*scan, "profile_id"@),
        underlying@ == name_of(*scan, "underlying"@),
        fits(items.push(ScanItem { ts: opt_slice(event_ts), scan: *scan })),
    ensures
        grouped(*final(groups), items.push(ScanItem { ts: opt_slice(event_ts), scan: *scan }), key),
{
    let ghost item = ScanItem { ts: opt_slice(event_ts), scan: *scan };
    let ghost next = items.push(item);
    let ghost own = scans_named(items, key, name@);
    let ghost before = *groups;
    proof {
        let _ = before.at(name@);
        filter_push(items, item, |item: ScanItem| name_of(item.scan, key) == name@);
        fits_filter(next, |item: ScanItem| name_of(item.scan, key) == name@);
    }
    let mut aggregate = match groups.remove(name) {
        Some(found) => found,
        None => {
            assert(own =~= Seq::<ScanItem>::empty());
            empty_aggregate()
        },
    };
    add_scan(&mut aggregate, scan, event_ts, profile_id, underlying, Ghost(own));
    groups.insert(name.to_owned(), aggregate);
    proof {
        assert forall|other: Seq<char>|
            #![trigger groups.at(other)]
            match groups.at(other) {
                Some(aggregate) => scans_named(next, key, other).len() > 0 && describes(
                    aggregate,
                    scans_named(next, key, other),
                ),
                None => scans_named(next, key, other).len() == 0,
            } by {
            filter_push(items, item, |item: ScanItem| name_of(item.scan, key) == other);
            let _ = before.at(other);
        }
    }
}

// ---------------------------------------------------------------------------------------------
// Evidence
// ---------------------------------------------------------------------------------------------

/// The scans of a piece of evidence.
pub open spec fn scans_in(value: Json) -> Seq<ScanItem> {
    match value.list_field("scans"@) {
        Some(scans) => Seq::new(
            scans.len(),
            |i: int| ScanItem { ts: value.text_field("ts_utc"@), scan: scans[i] },
        ),
        None => Seq::empty(),
    }
}

/// The scans of some evidence.
pub open spec fn all_scans(values: Seq<Json>) -> Seq<ScanItem>
    decreases values.len(),
{
    if values.len() == 0 {
        Seq::empty()
    } else {
        all_scans(values.drop_last()) + scans_in(values.last())
    }
}

/// The ranked entries of some evidence.
pub open spec fn ranked_total(values: Seq<Json>) -> nat
    decreases values.len(),
{
    if values.len() == 0 {
        0
    } else {
        ranked_total(values.drop_last()) + number_of(values.last(), "ranked_entries"@)
    }
}

/// Sums over evidence.
#[derive(Clone, Debug)]
pub struct ScannerTotals {
    /// Ranked entries.
    pub ranked_entries: usize,
    /// Sums over all scans.
    pub total: ScanTally,
    /// Sums by profile.
    pub profiles: TextMap<ScannerAggregate>,
    /// Sums by underlying.
    pub underlyings: TextMap<ScannerAggregate>,
}

/// Whether totals hold the sums over some scans.
pub open spec fn covers_scans(totals: ScannerTotals, items: Seq<ScanItem>) -> bool {
    &&& sums(totals.total, items)
    &&& grouped(totals.profiles, items, "profile_id"@)
    &&& grouped(totals.underlyings, items, "underlying"@)
}

fn apply_scan_evidence(value: &Json, totals: &mut ScannerTotals, Ghost(items): Ghost<Seq<ScanItem>>)
    requires
        covers_scans(*old(totals), items),
        old(totals).ranked_entries + number_of(*value, "ranked_entries"@) <= usize::MAX,
        fits(items + scans_in(*value)),
    ensures
        covers_scans(*final(totals), items + scans_in(*value)),
        final(totals).ranked_entries == old(totals).ranked_entries + number_of(
            *value,
            "ranked_entries"@,
        ),
{
    totals.ranked_entries = totals.ranked_entries + value_usize(value, "ranked_entries");
    let ghost ranked = totals.ranked_entries;
    let event_ts = value.get_str("ts_utc");
    let ghost ts = opt_slice(event_ts);
    let scans = match value.get_list("scans") {
        Some(scans) => scans,
        None => {
            assert(items + scans_in(*value) =~= items);
            return ;
        },
    };
    let ghost all = scans_in(*value);
    let n: usize = scans.len();
    assert(items + all.take(0) =~= items);
    for i in 0..n
        invariant
            n == scans@.len(),
            all == scans_in(*value),
            all.len() == n,
            ts == opt_slice(event_ts),
            value.text_field("ts_utc"@) == ts,
            value.list_field("scans"@) == Some(scans@),
            totals.ranked_entries == ranked,
            fits(items + all),
            covers_scans(*totals, items + all.take(i as int)),
    {
        let scan = &scans[i];
        let ghost so_far = items + all.take(i as int);
        let ghost item = ScanItem { ts, scan: *scan };
        proof {
            assert(all[i as int] == item);
            assert(items + all.take(i + 1) =~= so_far.push(item));
            assert(items + all =~= items + all.take(i + 1) + all.skip(i + 1));
            fits_prefix(items + all.take(i + 1), all.skip(i + 1));
        }
        let profile_id = match scan.get_str("profile_id") {
            Some(text) => text,
            None => "unknown",
        };
        let underlying = match scan.get_str("underlying") {
            Some(text) => text,
            None => "unknown",
        };
        apply_scan(&mut totals.total, scan, event_ts, Ghost(so_far));
        add_to_group(
            &mut totals.profiles,
            profile_id,
            scan,
            event_ts,
            profile_id,
            underlying,
            Ghost(so_far),
            Ghost("profile_id"@),
        );
        add_to_group(
            &mut totals.underlyings,
            underlying,
            scan,
            event_ts,
            profile_id,
            underlying,
            Ghost(so_far),
            Ghost("underlying"@),
        );
    }
    assert(all.take(n as int) =~= all);
}

// ---------------------------------------------------------------------------------------------
// Choice of evidence
// ---------------------------------------------------------------------------------------------

/// Whether a value is of a type and lies within the lookback; one without a readable time does.
pub open spec fn in_window(value: Json, kind: Seq<char>, now: UtcInstant, since_secs: i64) -> bool {
    value.text_field("type"@) == Some(kind) && (since_secs == 0 || match value.text_field(
        "ts_utc"@,
    ) {
        Some(text) => match instant_in(text) {
            Some(then) => nanos_since(now, then) <= since_secs * NANOS_PER_SEC,
            None => true,
        },
        None => true,
    })
}

/// Returns whether a value is of a type and lies within the lookback.
pub fn is_in_window(value: &Json, kind: &str, now: UtcInstant, since_secs: i64) -> (yes: bool)
    ensures
        yes == in_window(*value, kind@, now, since_secs),
{
    if !value.field_is("type", kind) {
        return false;
    }
    if since_secs == 0 {
        return true;
    }
    match value.get_str("ts_utc") {
        Some(text) => match parse_instant(text) {
            Some(then) => elapsed_nanos(now, then) <= since_secs as i128 * NANOS_PER_SEC,
            None => true,
        },
        None => true,
    }
}

/// What tells pieces of evidence apart.
pub open spec fn key_chars(value: Json) -> Seq<char> {
    name_of(value, "type"@) + "|"@ + name_of(value, "ts_utc"@) + "|"@ + name_of(value, "series_id"@)
        + "|"@ + name_of(value, "underlying"@)
}

fn name_text<'a>(value: &'a Json, key: &str) -> (name: &'a str)
    ensures
        name@ == name_of(*value, key@),
{
    match value.get_str(key) {
        Some(text) => text,
        None => "unknown",
    }
}

/// Returns what tells pieces of evidence apart.
pub fn evidence_key(value: &Json) -> (key: String)
    ensures
        key@ == key_chars(*value),
{
    name_text(value, "type").to_owned().concat("|").concat(name_text(value, "ts_utc")).concat(
        "|",
    ).concat(name_text(value, "series_id")).concat("|").concat(name_text(value, "underlying"))
}

/// The values of a type within the lookback.
pub open spec fn windowed(
    events: Seq<Evidence>,
    kind: Seq<char>,
    now: UtcInstant,
    since_secs: i64,
) -> Seq<Json>
    decreases events.len(),
{
    if events.len() == 0 {
        Seq::empty()
    } else {
        let earlier = windowed(events.drop_last(), kind, now, since_secs);
        if in_window(events.last().value, kind, now, since_secs) {
            earlier.push(events.last().value)
        } else {
            earlier
        }
    }
}

/// Whether one of some values has a key.
pub open spec fn key_occurs(values: Seq<Json>, key: Seq<char>) -> bool {
    exists|i: int| 0 <= i < values.len() && key_chars(#[trigger] values[i]) == key
}

/// The values without those whose key occurred before.
pub open spec fn first_seen(values: Seq<Json>) -> Seq<Json>
    decreases values.len(),
{
    if values.len() == 0 {
        Seq::empty()
    } else {
        let earlier = first_seen(values.drop_last());
        if key_occurs(values.drop_last(), key_chars(values.last())) {
            earlier
        } else {
            earlier.push(values.last())
        }
    }
}

/// The value at a place.
pub open spec fn value_there(
    at: EvidenceRef,
    events: Seq<Evidence>,
    records: Seq<Evidence>,
) -> Json {
    match at {
        EvidenceRef::Event(i) => events[i as int].value,
        EvidenceRef::Record(i) => records[i as int].value,
    }
}

/// Whether places lead to some values.
pub open spec fn lead_to(
    places: Seq<EvidenceRef>,
    values: Seq<Json>,
    events: Seq<Evidence>,
    records: Seq<Evidence>,
) -> bool {
    &&& places.len() == values.len()
    &&& forall|i: int|
        0 <= i < places.len() ==> value_there(#[trigger] places[i], events, records) == values[i]
    &&& forall|i: int|
        0 <= i < places.len() ==> match #[trigger] places[i] {
            EvidenceRef::Event(k) => k < events.len(),
            EvidenceRef::Record(k) => k < records.len(),
        }
}

/// The evidence that a report counts: events of the log, then ledger records, each key once.
pub open spec fn counted(
    events: Seq<Evidence>,
    records: Seq<Evidence>,
    now: UtcInstant,
    since_secs: i64,
) -> Seq<Json> {
    first_seen(
        windowed(events, "option_chain_candidate_scan"@, now, since_secs) + windowed(
            records,
            "scanner_result"@,
            now,
            since_secs,
        ),
    )
}

/// One value more.
proof fn first_seen_push(values: Seq<Json>, value: Json)
    ensures
        first_seen(values.push(value)) == if key_occurs(values, key_chars(value)) {
            first_seen(values)
        } else {
            first_seen(values).push(value)
        },
        forall|key: Seq<char>|
            #[trigger] key_occurs(values.push(value), key) <==> key_occurs(values, key)
                || key_chars(value) == key,
{
    let next = values.push(value);
    assert(next.drop_last() =~= values);
    assert forall|key: Seq<char>| #[trigger] key_occurs(next, key) <==> key_occurs(values, key)
        || key_chars(value) == key by {
        if key_occurs(values, key) {
            let k = choose|k: int| 0 <= k < values.len() && key_chars(#[trigger] values[k]) == key;
            assert(key_chars(next[k]) == key);
        }
        if key_chars(value) == key {
            assert(key_chars(next[values.len() as int]) == key);
        }
        if key_occurs(next, key) {
            let k = choose|k: int| 0 <= k < next.len() && key_chars(#[trigger] next[k]) == key;
            if k < values.len() {
                assert(key_chars(values[k]) == key);
            }
        }
    }
}

/// Evidence whose key occurred before is not counted again.
pub proof fn repeated_evidence_counts_once(values: Seq<Json>, value: Json)
    requires
        key_occurs(values, key_chars(value)),
    ensures
        first_seen(values.push(value)) == first_seen(values),
{
    first_seen_push(values, value);
}

/// Picks the evidence that a report counts. Also returns how much of it stands among the events.
fn pick_evidence(
    events: &Vec<Evidence>,
    records: &Vec<Evidence>,
    now: UtcInstant,
    since_secs: i64,
) -> (picked: (Vec<EvidenceRef>, usize))
    ensures
        lead_to(picked.0@, counted(events@, records@, now, since_secs), events@, records@),
        picked.1 == first_seen(
            windowed(events@, "option_chain_candidate_scan"@, now, since_secs),
        ).len(),
        picked.1 <= picked.0@.len(),
{
    let mut places: Vec<EvidenceRef> = Vec::new();
    let mut seen = TextSet::new();
    let n: usize = events.len();
    let ghost mut values = Seq::<Json>::empty();
    for i in 0..n
        invariant
            n == events@.len(),
            seen.wf(),
            values == windowed(
                events@.take(i as int),
                "option_chain_candidate_scan"@,
                now,
                since_secs,
            ),
            forall|key: Seq<char>| #[trigger] seen.has(key) <==> key_occurs(values, key),
            lead_to(places@, first_seen(values), events@, records@),
    {
        proof {
            let next = events@.take(i + 1);
            assert(next.drop_last() =~= events@.take(i as int));
            assert(next.last() == events@[i as int]);
        }
        let value = &events[i].value;
        if is_in_window(value, "option_chain_candidate_scan", now, since_secs) {
            let key = evidence_key(value);
            proof {
                first_seen_push(values, *value);
                assert(seen.has(key@) <==> key_occurs(values, key@));
            }
            if !seen.contains(key.as_str()) {
                places.push(EvidenceRef::Event(i));
            }
            seen.insert(key);
            proof {
                let earlier = values;
                values = values.push(*value);
                assert forall|other: Seq<char>| #[trigger] seen.has(other) <==> key_occurs(
                    values,
                    other,
                ) by {
                    assert(key_occurs(values, other) <==> key_occurs(earlier, other)
                        || key_chars(*value) == other);
                }
            }
        }
    }
    assert(events@.take(n as int) =~= events@);
    let from_events: usize = places.len();
    let ghost first = values;
    let m: usize = records.len();
    assert(first + windowed(records@.take(0), "scanner_result"@, now, since_secs) =~= first);
    for i in 0..m
        invariant
            m == records@.len(),
            seen.wf(),
            from_events <= places@.len(),
            values == first + windowed(
                records@.take(i as int),
                "scanner_result"@,
                now,
                since_secs,
            ),
            forall|key: Seq<char>| #[trigger] seen.has(key) <==> key_occurs(values, key),
            lead_to(places@, first_seen(values), events@, records@),
    {
        proof {
            let next = records@.take(i + 1);
            assert(next.drop_last() =~= records@.take(i as int));
            assert(next.last() == records@[i as int]);
        }
        let value = &records[i].value;
        if is_in_window(value, "scanner_result", now, since_secs) {
            let key = evidence_key(value);
            proof {
                first_seen_push(values, *value);
                assert(seen.has(key@) <==> key_occurs(values, key@));
            }
            if !seen.contains(key.as_str()) {
                places.push(EvidenceRef::Record(i));
            }
            seen.insert(key);
            proof {
                let earlier = values;
                values = values.push(*value);
                assert forall|other: Seq<char>| #[trigger] seen.has(other) <==> key_occurs(
                    values,
                    other,
                ) by {
                    assert(key_occurs(values, other) <==> key_occurs(earlier, other)
                        || key_chars(*value) == other);
                }
                assert(values =~= first + windowed(
                    records@.take(i + 1),
                    "scanner_result"@,
                    now,
                    since_secs,
                ));
            }
        }
    }
    assert(records@.take(m as int) =~= records@);
    (places, from_events)
}

// ---------------------------------------------------------------------------------------------
// Summaries
// ---------------------------------------------------------------------------------------------

/// The number of different names that some scans hold under a key.
pub open spec fn distinct(items: Seq<ScanItem>, key: Seq<char>) -> nat {
    names_in(items, key).to_set().len()
}

/// A set with the elements of a list has as many elements as the list has different ones.
proof fn set_size(names: TextSet, list: Seq<Seq<char>>)
    requires
        names.wf(),
        forall|x: Seq<char>| #[trigger] names.has(x) <==> list.contains(x),
    ensures
        names@.len() == list.to_set().len(),
{
    assert forall|i: int, j: int| 0 <= i < names@.len() && 0 <= j < names@.len() && i != j implies
        names@[i] != names@[j] by {
        text_lt_irreflexive(names@[i]);
    }
    assert(names@.no_duplicates());
    names@.unique_seq_to_set();
    assert forall|x: Seq<char>| names@.to_set().contains(x) <==> list.to_set().contains(x) by {
        assert(names.has(x) <==> list.contains(x));
    }
    assert(names@.to_set() =~= list.to_set());
}

/// Whether a summary is that of a profile.
pub open spec fn sums_profile(summary: ScannerProfileSummary, items: Seq<ScanItem>) -> bool {
    let own = scans_named(items, "profile_id"@, summary.profile_id@);
    &&& own.len() > 0
    &&& summary.profile_family@ == chars_or(last_family(own), "unknown"@)
    &&& summary.profile_mode@ == chars_or(last_mode(own), "unknown"@)
    &&& summary.underlyings == distinct(own, "underlying"@)
    &&& sums(summary.tally, own)
}

/// Whether a summary is that of an underlying.
pub open spec fn sums_underlying(summary: ScannerUnderlyingSummary, items: Seq<ScanItem>) -> bool {
    let own = scans_named(items, "underlying"@, summary.underlying@);
    &&& own.len() > 0
    &&& summary.profile_count == distinct(own, "profile_id"@)
    &&& sums(summary.tally, own)
}

/// The profile IDs of some summaries.
pub open spec fn profile_ids(summaries: Seq<ScannerProfileSummary>) -> Seq<Seq<char>> {
    Seq::new(summaries.len(), |i: int| summaries[i].profile_id@)
}

/// The underlyings of some summaries.
pub open spec fn underlying_names(summaries: Seq<ScannerUnderlyingSummary>) -> Seq<Seq<char>> {
    Seq::new(summaries.len(), |i: int| summaries[i].underlying@)
}

/// Whether summaries cover every profile once, in order.
pub open spec fn cover_profiles(summaries: Seq<ScannerProfileSummary>, items: Seq<ScanItem>) -> bool {
    &&& ascending(profile_ids(summaries))
    &&& forall|i: int| 0 <= i < summaries.len() ==> sums_profile(#[trigger] summaries[i], items)
    &&& forall|i: int|
        0 <= i < items.len() ==> profile_ids(summaries).contains(
            name_of((#[trigger] items[i]).scan, "profile_id"@),
        )
}

/// Whether summaries cover every underlying once, in order.
pub open spec fn cover_underlyings(
    summaries: Seq<ScannerUnderlyingSummary>,
    items: Seq<ScanItem>,
) -> bool {
    &&& ascending(underlying_names(summaries))
    &&& forall|i: int| 0 <= i < summaries.len() ==> sums_underlying(#[trigger] summaries[i], items)
    &&& forall|i: int|
        0 <= i < items.len() ==> underlying_names(summaries).contains(
            name_of((#[trigger] items[i]).scan, "underlying"@),
        )
}

fn text_or_unknown(value: Option<String>) -> (text: String)
    ensures
        text@ == chars_or(opt_text(value), "unknown"@),
{
    match value {
        Some(text) => text,
        None => "unknown".to_owned(),
    }
}

/// A name that occurs has a group.
proof fn occurring_name_is_grouped(
    groups: TextMap<ScannerAggregate>,
    items: Seq<ScanItem>,
    key: Seq<char>,
    i: int,
)
    requires
        grouped(groups, items, key),
        0 <= i < items.len(),
    ensures
        keys_of(groups@).contains(name_of(items[i].scan, key)),
{
    let name = name_of(items[i].scan, key);
    let _ = groups.at(name);
    items.filter_lemma(|item: ScanItem| name_of(item.scan, key) == name);
    let pass = |item: ScanItem| name_of(item.scan, key) == name;
    assert(pass(items[i]));
    assert(items.filter(pass).contains(items[i]));
    assert(groups.at(name) is Some);
    let at = crate::text_map::lookup_position(groups@, name);
    assert(keys_of(groups@)[at] == name);
}

fn profile_summaries(profiles: TextMap<ScannerAggregate>, Ghost(items): Ghost<Seq<ScanItem>>) -> (summaries: Vec<
    ScannerProfileSummary,
>)
    requires
        grouped(profiles, items, "profile_id"@),
    ensures
        cover_profiles(summaries@, items),
{
    let ghost all = profiles@;
    let mut entries = profiles.into_entries();
    let mut summaries: Vec<ScannerProfileSummary> = Vec::new();
    let n: usize = entries.len();
    let mut i: usize = 0;
    assert(all.skip(0) =~= all);
    while i < n
        invariant
            n == all.len(),
            i <= n,
            all == profiles@,
            grouped(profiles, items, "profile_id"@),
            entries@ == all.skip(i as int),
            summaries@.len() == i,
            forall|k: int|
                0 <= k < i ==> (#[trigger] summaries@[k]).profile_id@ == all[k].0@ && sums_profile(
                    summaries@[k],
                    items,
                ),
        decreases n - i,
    {
        let (profile_id, aggregate) = entries.remove(0);
        proof {
            assert(all.skip(i as int).remove(0) =~= all.skip(i + 1));
            assert((profile_id, aggregate) == all[i as int]);
            lookup_own_key(all, i as int);
            assert(profiles.at(profile_id@) == Some(aggregate));
            set_size(
                aggregate.underlyings,
                names_in(scans_named(items, "profile_id"@, profile_id@), "underlying"@),
            );
        }
        summaries.push(
            ScannerProfileSummary {
                profile_id,
                profile_family: text_or_unknown(aggregate.profile_family),
                profile_mode: text_or_unknown(aggregate.profile_mode),
                underlyings: aggregate.underlyings.len(),
                tally: aggregate.tally,
            },
        );
        i += 1;
    }
    proof {
        assert(profile_ids(summaries@) =~= keys_of(all));
        assert forall|k: int| 0 <= k < items.len() implies profile_ids(summaries@).contains(
            name_of((#[trigger] items[k]).scan, "profile_id"@),
        ) by {
            occurring_name_is_grouped(profiles, items, "profile_id"@, k);
        }
    }
    summaries
}

fn underlying_summaries(underlyings: TextMap<ScannerAggregate>, Ghost(items): Ghost<Seq<ScanItem>>) -> (summaries: Vec<
    ScannerUnderlyingSummary,
>)
    requires
        grouped(underlyings, items, "underlying"@),
    ensures
        cover_underlyings(summaries@, items),
{
    let ghost all = underlyings@;
    let mut entries = underlyings.into_entries();
    let mut summaries: Vec<ScannerUnderlyingSummary> = Vec::new();
    let n: usize = entries.len();
    let mut i: usize = 0;
    assert(all.skip(0) =~= all);
    while i < n
        invariant
            n == all.len(),
            i <= n,
            all == underlyings@,
            grouped(underlyings, items, "underlying"@),
            entries@ == all.skip(i as int),
            summaries@.len() == i,
            forall|k: int|
                0 <= k < i ==> (#[trigger] summaries@[k]).underlying@ == all[k].0@
                    && sums_underlying(summaries@[k], items),
        decreases n - i,
    {
        let (underlying, aggregate) = entries.remove(0);
        proof {
            assert(all.skip(i as int).remove(0) =~= all.skip(i + 1));
            assert((underlying, aggregate) == all[i as int]);
            lookup_own_key(all, i as int);
            assert(underlyings.at(underlying@) == Some(aggregate));
            set_size(
                aggregate.profiles,
                names_in(scans_named(items, "underlying"@, underlying@), "profile_id"@),
            );
        }
        summaries.push(
            ScannerUnderlyingSummary {
                underlying,
                profile_count: aggregate.profiles.len(),
                tally: aggregate.tally,
            },
        );
        i += 1;
    }
    proof {
        assert(underlying_names(summaries@) =~= keys_of(all));
        assert forall|k: int| 0 <= k < items.len() implies underlying_names(summaries@).contains(
            name_of((#[trigger] items[k]).scan, "underlying"@),
        ) by {
            occurring_name_is_grouped(underlyings, items, "underlying"@, k);
        }
    }
    summaries
}

// ---------------------------------------------------------------------------------------------
// The report
// ---------------------------------------------------------------------------------------------

/// The scans and the ranked entries of less evidence are no more.
proof fn prefix_of_evidence(values: Seq<Json>, n: int)
    requires
        0 <= n <= values.len(),
    ensures
        ranked_total(values.take(n)) <= ranked_total(values),
        fits(all_scans(values)) ==> fits(all_scans(values.take(n))),
    decreases values.len() - n,
{
    if n < values.len() {
        prefix_of_evidence(values, n + 1);
        let next = values.take(n + 1);
        assert(next.drop_last() =~= values.take(n));
        if fits(all_scans(values)) {
            fits_prefix(all_scans(values.take(n)), scans_in(next.last()));
        }
    } else {
        assert(values.take(n) =~= values);
    }
}

/// Whether a report sums up the evidence within the lookback.
pub open spec fn reports(
    report: ScannerQualityReport,
    events: Seq<Evidence>,
    records: Seq<Evidence>,
    since_secs: i64,
    now: UtcInstant,
) -> bool {
    let values = counted(events, records, now, since_secs);
    let items = all_scans(values);
    &&& opt_text(report.checked_at_utc) == rfc3339_writing(now.secs, now.nanos)
    &&& report.since_secs == since_secs
    &&& report.scan_events == values.len()
    &&& report.operator_event_scan_events == first_seen(
        windowed(events, "option_chain_candidate_scan"@, now, since_secs),
    ).len()
    &&& report.candidate_ledger_scan_records == report.scan_events
        - report.operator_event_scan_events
    &&& report.ranked_entries == ranked_total(values)
    &&& sums(report.total, items)
    &&& cover_profiles(report.profile_summaries@, items)
    &&& cover_underlyings(report.underlying_summaries@, items)
    &&& match report.latest_scan {
        Some(at) => values.len() > 0 && value_there(at, events, records) == values.last(),
        None => values.len() == 0,
    }
}

/// Whether all sums over the evidence within the lookback fit in a machine word.
pub open spec fn evidence_fits(
    events: Seq<Evidence>,
    records: Seq<Evidence>,
    since_secs: i64,
    now: UtcInstant,
) -> bool {
    let values = counted(events, records, now, since_secs);
    fits(all_scans(values)) && ranked_total(values) <= usize::MAX
}

/// Builds the report from the events of the log and the records of the ledger.
pub fn build_report_from_events(
    log_file: &str,
    log_file_exists: bool,
    events: &Vec<Evidence>,
    candidate_ledger_records: &Vec<Evidence>,
    candidate_ledger_error: Option<String>,
    since_secs: i64,
    now: UtcInstant,
) -> (report: ScannerQualityReport)
    requires
        evidence_fits(events@, candidate_ledger_records@, since_secs, now),
    ensures
        report.log_file@ == log_file@,
        report.log_file_exists == log_file_exists,
        report.candidate_ledger_error == candidate_ledger_error,
        reports(report, events@, candidate_ledger_records@, since_secs, now),
{
    let (places, from_events) = pick_evidence(events, candidate_ledger_records, now, since_secs);
    let ghost values = counted(events@, candidate_ledger_records@, now, since_secs);
    let mut totals = ScannerTotals {
        ranked_entries: 0,
        total: empty_tally(),
        profiles: TextMap::new(),
        underlyings: TextMap::new(),
    };
    let n: usize = places.len();
    proof {
        reveal(Seq::filter);
        assert(all_scans(values.take(0)) =~= Seq::<ScanItem>::empty());
    }
    for i in 0..n
        invariant
            n == places@.len(),
            lead_to(places@, values, events@, candidate_ledger_records@),
            fits(all_scans(values)),
            ranked_total(values) <= usize::MAX,
            covers_scans(totals, all_scans(values.take(i as int))),
            totals.ranked_entries == ranked_total(values.take(i as int)),
    {
        assert(value_there(places@[i as int], events@, candidate_ledger_records@)
            == values[i as int]);
        let value = match places[i] {
            EvidenceRef::Event(at) => &events[at].value,
            EvidenceRef::Record(at) => &candidate_ledger_records[at].value,
        };
        proof {
            let next = values.take(i + 1);
            assert(next.drop_last() =~= values.take(i as int));
            assert(next.last() == *value);
            prefix_of_evidence(values, i + 1);
        }
        apply_scan_evidence(value, &mut totals, Ghost(all_scans(values.take(i as int))));
    }
    assert(values.take(n as int) =~= values);
    let ghost items = all_scans(values);
    let latest_scan = if n > 0 {
        assert(value_there(places@[n - 1], events@, candidate_ledger_records@) == values[n - 1]);
        Some(places[n - 1])
    } else {
        None
    };
    ScannerQualityReport {
        checked_at_utc: instant_text(now),
        since_secs,
        log_file: log_file.to_owned(),
        log_file_exists,
        scan_events: n,
        operator_event_scan_events: from_events,
        candidate_ledger_scan_records: n - from_events,
        candidate_ledger_error,
        ranked_entries: totals.ranked_entries,
        total: totals.total,
        profile_summaries: profile_summaries(totals.profiles, Ghost(items)),
        underlying_summaries: underlying_summaries(totals.underlyings, Ghost(items)),
        latest_scan,
    }
}

fn own_rejections(scan: &Json) -> (counts: Option<TextMap<usize>>)
    ensures
        match counts {
            Some(found) => found.wf() && forall|reason: Seq<char>|
                #![trigger found.at(reason)]
                count_at(found, reason) == rejection_total(rejections_of(*scan), reason),
            None => exists|reason: Seq<char>| #[trigger]
                rejection_total(rejections_of(*scan), reason) > usize::MAX,
        },
{
    let mut counts: TextMap<usize> = TextMap::new();
    match scan.get("rejections") {
        Some(Json::Object(fields)) => {
            let n: usize = fields.len();
            for i in 0..n
                invariant
                    n == fields@.len(),
                    rejections_of(*scan) == fields@,
                    counts.wf(),
                    forall|reason: Seq<char>|
                        #![trigger counts.at(reason)]
                        count_at(counts, reason) == rejection_total(
                            fields@.take(i as int),
                            reason,
                        ),
            {
                let ghost before = counts;
                let ghost key = fields@[i as int].0@;
                let number: usize = match &fields[i].1 {
                    Json::Number(JsonNumber::Natural(value)) => *value as usize,
                    _ => 0,
                };
                proof {
                    let next = fields@.take(i + 1);
                    assert(next.drop_last() =~= fields@.take(i as int));
                    assert(next.last() == fields@[i as int]);
                    let _ = before.at(key);
                    rejection_total_grows(fields@, i + 1, key);
                }
                if usize::MAX - counts.count(fields[i].0.as_str()) < number {
                    assert(rejection_total(rejections_of(*scan), key) > usize::MAX);
                    return None;
                }
                counts.add_count(fields[i].0.as_str(), number);
                proof {
                    assert forall|reason: Seq<char>|
                        #![trigger counts.at(reason)]
                        count_at(counts, reason) == rejection_total(
                            fields@.take(i + 1),
                            reason,
                        ) by {
                        let _ = before.at(reason);
                    }
                }
            }
            assert(fields@.take(n as int) =~= fields@);
        },
        _ => {
            assert(rejections_of(*scan) =~= Seq::<(String, Json)>::empty());
        },
    }
    Some(counts)
}

/// Returns whether the sums still fit after one scan more. `items` are the scans counted so far.
fn scan_fits(
    tally: &ScanTally,
    scan: &Json,
    Ghost(items): Ghost<Seq<ScanItem>>,
    Ghost(ts): Ghost<Option<Seq<char>>>,
) -> (fit: bool)
    requires
        sums(*tally, items),
        fits(items),
    ensures
        fit == fits(items.push(ScanItem { ts, scan: *scan })),
{
    let ghost item = ScanItem { ts, scan: *scan };
    let ghost next = items.push(item);
    proof {
        sum_push(items, item, |scan: Json| number_of(scan, "candidate_count"@));
        sum_push(items, item, |scan: Json| number_of(scan, "contracts"@));
        sum_push(items, item, |scan: Json| number_of(scan, "snapshots"@));
        sum_push(items, item, |scan: Json| number_of(scan, "scoreable"@));
        assert forall|reason: Seq<char>| #[trigger] rejected_for(next, reason) == rejected_for(
            items,
            reason,
        ) + rejection_total(rejections_of(*scan), reason) by {
            sum_push(items, item, |scan: Json| rejection_total(rejections_of(scan), reason));
        }
    }
    if tally.scans == usize::MAX || usize::MAX - tally.candidate_count < value_usize(
        scan,
        "candidate_count",
    ) || usize::MAX - tally.contract_count < value_usize(scan, "contracts") || usize::MAX
        - tally.snapshot_count < value_usize(scan, "snapshots") || usize::MAX
        - tally.scoreable_count < value_usize(scan, "scoreable") {
        return false;
    }
    let own = match own_rejections(scan) {
        Some(own) => own,
        None => {
            proof {
                let reason = choose|reason: Seq<char>| #[trigger]
                    rejection_total(rejections_of(*scan), reason) > usize::MAX;
                assert(rejected_for(next, reason) > usize::MAX);
            }
            return false;
        },
    };
    let n: usize = own.len();
    for i in 0..n
        invariant
            n == own@.len(),
            own.wf(),
            next == items.push(ScanItem { ts, scan: *scan }),
            sums(*tally, items),
            forall|reason: Seq<char>|
                #![trigger own.at(reason)]
                count_at(own, reason) == rejection_total(rejections_of(*scan), reason),
            forall|reason: Seq<char>| #[trigger]
                rejected_for(next, reason) == rejected_for(items, reason) + rejection_total(
                    rejections_of(*scan),
                    reason,
                ),
            forall|k: int|
                0 <= k < i ==> rejected_for(next, (#[trigger] own@[k]).0@) <= usize::MAX,
    {
        proof {
            let key = own@[i as int].0@;
            lookup_own_key(own@, i as int);
            let _ = own.at(key);
            let _ = tally.rejection_counts.at(key);
            assert(rejected_for(next, key) == rejected_for(items, key) + own@[i as int].1);
        }
        if usize::MAX - tally.rejection_counts.count(own.key(i)) < *own.value(i) {
            assert(rejected_for(next, own@[i as int].0@) > usize::MAX);
            return false;
        }
    }
    proof {
        assert forall|reason: Seq<char>| #[trigger] rejected_for(next, reason) <= usize::MAX by {
            let _ = own.at(reason);
            if own.at(reason) is Some {
                let at = crate::text_map::lookup_position(own@, reason);
                assert(rejected_for(next, own@[at].0@) <= usize::MAX);
            } else {
                assert(rejected_for(items, reason) <= usize::MAX);
            }
        }
    }
    true
}

/// Returns whether all sums over the evidence at some places fit.
fn places_fit(
    places: &Vec<EvidenceRef>,
    events: &Vec<Evidence>,
    records: &Vec<Evidence>,
    Ghost(values): Ghost<Seq<Json>>,
) -> (fit: bool)
    requires
        lead_to(places@, values, events@, records@),
    ensures
        fit == (fits(all_scans(values)) && ranked_total(values) <= usize::MAX),
{
    let mut tally = empty_tally();
    let mut ranked: usize = 0;
    let n: usize = places.len();
    proof {
        assert(all_scans(values.take(0)) =~= Seq::<ScanItem>::empty());
    }
    for i in 0..n
        invariant
            n == places@.len(),
            lead_to(places@, values, events@, records@),
            sums(tally, all_scans(values.take(i as int))),
            fits(all_scans(values.take(i as int))),
            ranked == ranked_total(values.take(i as int)),
    {
        assert(value_there(places@[i as int], events@, records@) == values[i as int]);
        let value = match places[i] {
            EvidenceRef::Event(at) => &events[at].value,
            EvidenceRef::Record(at) => &records[at].value,
        };
        let ghost items = all_scans(values.take(i as int));
        let ghost all = scans_in(*value);
        proof {
            let next = values.take(i + 1);
            assert(next.drop_last() =~= values.take(i as int));
            assert(next.last() == *value);
            prefix_of_evidence(values, i + 1);
            assert(all_scans(next) == items + all);
        }
        let more: usize = value_usize(value, "ranked_entries");
        if usize::MAX - ranked < more {
            return false;
        }
        ranked = ranked + more;
        let event_ts = value.get_str("ts_utc");
        match value.get_list("scans") {
            Some(scans) => {
                let m: usize = scans.len();
                assert(items + all.take(0) =~= items);
                for j in 0..m
                    invariant
                        m == scans@.len(),
                        all == scans_in(*value),
                        all.len() == m,
                        value.text_field("ts_utc"@) == opt_slice(event_ts),
                        value.list_field("scans"@) == Some(scans@),
                        sums(tally, items + all.take(j as int)),
                        fits(items + all.take(j as int)),
                        fits(all_scans(values)) ==> fits(items + all),
                {
                    let scan = &scans[j];
                    let ghost so_far = items + all.take(j as int);
                    let ghost item = ScanItem { ts: opt_slice(event_ts), scan: *scan };
                    proof {
                        assert(all[j as int] == item);
                        assert(items + all.take(j + 1) =~= so_far.push(item));
                        assert(items + all =~= items + all.take(j + 1) + all.skip(j + 1));
                        if fits(items + all) {
                            fits_prefix(items + all.take(j + 1), all.skip(j + 1));
                        }
                    }
                    if !scan_fits(&tally, scan, Ghost(so_far), Ghost(opt_slice(event_ts))) {
                        return false;
                    }
                    apply_scan(&mut tally, scan, event_ts, Ghost(so_far));
                }
                assert(all.take(m as int) =~= all);
            },
            None => {
                assert(items + all =~= items);
            },
        }
    }
    assert(values.take(n as int) =~= values);
    true
}

/// Builds the report, unless a sum does not fit in a machine word.
pub fn scanner_quality_report(
    log_file: &str,
    log_file_exists: bool,
    events: &Vec<Evidence>,
    candidate_ledger_records: &Vec<Evidence>,
    candidate_ledger_error: Option<String>,
    since_secs: i64,
    now: UtcInstant,
) -> (report: Option<ScannerQualityReport>)
    ensures
        match report {
            Some(built) => evidence_fits(events@, candidate_ledger_records@, since_secs, now)
                && built.log_file@ == log_file@ && built.log_file_exists == log_file_exists
                && built.candidate_ledger_error == candidate_ledger_error && reports(
                built,
                events@,
                candidate_ledger_records@,
                since_secs,
                now,
            ),
            None => !evidence_fits(events@, candidate_ledger_records@, since_secs, now),
        },
{
    let (places, _) = pick_evidence(events, candidate_ledger_records, now, since_secs);
    let ghost values = counted(events@, candidate_ledger_records@, now, since_secs);
    if places_fit(&places, events, candidate_ledger_records, Ghost(values)) {
        Some(
            build_report_from_events(
                log_file,
                log_file_exists,
                events,
                candidate_ledger_records,
                candidate_ledger_error,
                since_secs,
                now,
            ),
        )
    } else {
        None
    }
}

/// The whole days that cover a lookback, at least one.
pub open spec fn lookback_days(since_secs: int) -> int {
    if since_secs <= 0 {
        1
    } else {
        (since_secs + 86_399) / 86_400
    }
}

/// Returns the first date of the ledger records to read, none for all.
pub fn ledger_since_date(since_secs: i64, now: UtcInstant) -> (date: Option<CalendarDate>)
    requires
        now.valid(),
        since_secs <= 9_223_372_036_828_800,
    ensures
        since_secs == 0 ==> date is None,
        since_secs != 0 ==> match date {
            Some(found) => found.valid() && found.day_number() == now.utc_day() - lookback_days(
                since_secs as int,
            ),
            None => now.utc_day() - lookback_days(since_secs as int) < -95_746_129,
        },
{
    if since_secs == 0 {
        return None;
    }
    let days: i64 = if since_secs <= 0 {
        1
    } else {
        (since_secs + 86_399) / 86_400
    };
    date_before(utc_date(now), days)
}

/// Every scan either found a candidate or did not.
pub proof fn scans_split_by_outcome(items: Seq<ScanItem>)
    ensures
        scans_with(items, true).len() + scans_with(items, false).len() == items.len(),
    decreases items.len(),
{
    reveal(Seq::filter);
    if items.len() > 0 {
        scans_split_by_outcome(items.drop_last());
    }
}

} // verus!
