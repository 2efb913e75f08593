//! The scanner-quality report as lines of text.
use vstd::prelude::*;

use crate::evidence::chars_or;
use crate::scanner_report::ScanTally;
use crate::scanner_report::ScannerProfileSummary;
use crate::scanner_report::ScannerQualityReport;
use crate::scanner_report::ScannerUnderlyingSummary;
use crate::text::bool_chars;
use crate::text::bool_text;
use crate::text::count_text;
use crate::text::decimal;
use crate::text::join;
use crate::text::joined;
use crate::text::opt_text;
use crate::text::signed_decimal;
use crate::text::signed_text;
use crate::text::texts;
use crate::text_map::TextMap;

verus! {

/// Counts as text, in key order.
pub open spec fn count_parts(counts: Seq<(String, usize)>) -> Seq<Seq<char>> {
    Seq::new(counts.len(), |i: int| counts[i].0@ + "="@ + decimal(counts[i].1 as nat))
}

/// Counts joined with commas, or `none`.
pub open spec fn counts_chars(counts: Seq<(String, usize)>) -> Seq<char> {
    if counts.len() == 0 {
        "none"@
    } else {
        joined(count_parts(counts), ","@)
    }
}

/// Writes counts joined with commas, or `none`.
pub fn format_counts(counts: &TextMap<usize>) -> (text: String)
    ensures
        text@ == counts_chars(counts@),
{
    if counts.is_empty() {
        return "none".to_owned();
    }
    let mut parts: Vec<String> = Vec::new();
    let n: usize = counts.len();
    for i in 0..n
        invariant
            n == counts@.len(),
            parts@.len() == i,
            forall|k: int|
                0 <= k < i ==> (#[trigger] parts@[k])@ == counts@[k].0@ + "="@ + decimal(
                    counts@[k].1 as nat,
                ),
    {
        parts.push(
            counts.key(i).to_owned().concat("=").concat(count_text(*counts.value(i)).as_str()),
        );
    }
    assert(texts(parts@) =~= count_parts(counts@));
    join(&parts, ",")
}

/// The end of a summary line.
pub open spec fn tally_chars(tally: ScanTally) -> Seq<char> {
    " candidate_scans="@ + decimal(tally.candidate_scans as nat) + " no_candidate_scans="@ + decimal(
        tally.no_candidate_scans as nat,
    ) + " candidate_count="@ + decimal(tally.candidate_count as nat) + " scoreable_count="@
        + decimal(tally.scoreable_count as nat) + " rejections="@ + counts_chars(
        tally.rejection_counts@,
    ) + " reasons="@ + counts_chars(tally.reason_counts@) + " latest_ts_utc="@ + chars_or(
        opt_text(tally.latest_ts_utc),
        "none"@,
    )
}

fn tally_text(tally: &ScanTally) -> (text: String)
    ensures
        text@ == tally_chars(*tally),
{
    let latest = match &tally.latest_ts_utc {
        Some(text) => text.as_str(),
        None => "none",
    };
    " candidate_scans=".to_owned().concat(count_text(tally.candidate_scans).as_str()).concat(
        " no_candidate_scans=",
    ).concat(count_text(tally.no_candidate_scans).as_str()).concat(" candidate_count=").concat(
        count_text(tally.candidate_count).as_str(),
    ).concat(" scoreable_count=").concat(count_text(tally.scoreable_count).as_str()).concat(
        " rejections=",
    ).concat(format_counts(&tally.rejection_counts).as_str()).concat(" reasons=").concat(
        format_counts(&tally.reason_counts).as_str(),
    ).concat(" latest_ts_utc=").concat(latest)
}

/// The line of a profile.
pub open spec fn profile_chars(profile: ScannerProfileSummary) -> Seq<char> {
    "scanner_profile: profile_id="@ + profile.profile_id@ + " family="@ + profile.profile_family@
        + " mode="@ + profile.profile_mode@ + " scans="@ + decimal(profile.tally.scans as nat)
        + " underlyings="@ + decimal(profile.underlyings as nat) + tally_chars(profile.tally)
}

fn profile_line(profile: &ScannerProfileSummary) -> (line: String)
    ensures
        line@ == profile_chars(*profile),
{
    "scanner_profile: profile_id=".to_owned().concat(profile.profile_id.as_str()).concat(
        " family=",
    ).concat(profile.profile_family.as_str()).concat(" mode=").concat(
        profile.profile_mode.as_str(),
    ).concat(" scans=").concat(count_text(profile.tally.scans).as_str()).concat(
        " underlyings=",
    ).concat(count_text(profile.underlyings).as_str()).concat(tally_text(&profile.tally).as_str())
}

/// The line of an underlying.
pub open spec fn underlying_chars(underlying: ScannerUnderlyingSummary) -> Seq<char> {
    "scanner_underlying: underlying="@ + underlying.underlying@ + " scans="@ + decimal(
        underlying.tally.scans as nat,
    ) + " profiles="@ + decimal(underlying.profile_count as nat) + tally_chars(underlying.tally)
}

fn underlying_line(underlying: &ScannerUnderlyingSummary) -> (line: String)
    ensures
        line@ == underlying_chars(*underlying),
{
    "scanner_underlying: underlying=".to_owned().concat(underlying.underlying.as_str()).concat(
        " scans=",
    ).concat(count_text(underlying.tally.scans).as_str()).concat(" profiles=").concat(
        count_text(underlying.profile_count).as_str(),
    ).concat(tally_text(&underlying.tally).as_str())
}

/// The first line of a report.
pub open spec fn head_chars(report: ScannerQualityReport) -> Seq<char> {
    "scanner_report: since_secs="@ + signed_decimal(report.since_secs as int) + " log="@
        + report.log_file@ + " log_exists="@ + bool_chars(report.log_file_exists)
        + " scan_events="@ + decimal(report.scan_events as nat) + " operator_events="@ + decimal(
        report.operator_event_scan_events as nat,
    ) + " candidate_ledger_records="@ + decimal(report.candidate_ledger_scan_records as nat)
        + " total_scans="@ + decimal(report.total.scans as nat) + " candidate_scans="@ + decimal(
        report.total.candidate_scans as nat,
    ) + " no_candidate_scans="@ + decimal(report.total.no_candidate_scans as nat)
        + " ranked_entries="@ + decimal(report.ranked_entries as nat) + " candidate_count="@
        + decimal(report.total.candidate_count as nat) + " scoreable_count="@ + decimal(
        report.total.scoreable_count as nat,
    )
}

fn head_line(report: &ScannerQualityReport) -> (line: String)
    ensures
        line@ == head_chars(*report),
{
    "scanner_report: since_secs=".to_owned().concat(
        signed_text(report.since_secs).as_str(),
    ).concat(" log=").concat(report.log_file.as_str()).concat(" log_exists=").concat(
        bool_text(report.log_file_exists),
    ).concat(" scan_events=").concat(count_text(report.scan_events).as_str()).concat(
        " operator_events=",
    ).concat(count_text(report.operator_event_scan_events).as_str()).concat(
        " candidate_ledger_records=",
    ).concat(count_text(report.candidate_ledger_scan_records).as_str()).concat(
        " total_scans=",
    ).concat(count_text(report.total.scans).as_str()).concat(" candidate_scans=").concat(
        count_text(report.total.candidate_scans).as_str(),
    ).concat(" no_candidate_scans=").concat(
        count_text(report.total.no_candidate_scans).as_str(),
    ).concat(" ranked_entries=").concat(count_text(report.ranked_entries).as_str()).concat(
        " candidate_count=",
    ).concat(count_text(report.total.candidate_count).as_str()).concat(" scoreable_count=").concat(
        count_text(report.total.scoreable_count).as_str(),
    )
}

/// All lines of a report.
pub open spec fn report_chars(report: ScannerQualityReport) -> Seq<Seq<char>> {
    seq![head_chars(report)] + (match report.candidate_ledger_error {
        Some(error) => seq!["candidate_ledger_error: "@ + error@],
        None => Seq::empty(),
    }) + seq![
        "scanner_rejections: "@ + counts_chars(report.total.rejection_counts@),
        "scanner_reasons: "@ + counts_chars(report.total.reason_counts@),
    ] + Seq::new(
        report.profile_summaries@.len(),
        |i: int| profile_chars(report.profile_summaries@[i]),
    ) + Seq::new(
        report.underlying_summaries@.len(),
        |i: int| underlying_chars(report.underlying_summaries@[i]),
    )
}

/// Writes a report as lines.
pub fn scanner_report_lines(report: &ScannerQualityReport) -> (lines: Vec<String>)
    ensures
        texts(lines@) == report_chars(*report),
{
    let mut lines: Vec<String> = Vec::new();
    lines.push(head_line(report));
    match &report.candidate_ledger_error {
        Some(error) => {
            lines.push("candidate_ledger_error: ".to_owned().concat(error.as_str()));
        },
        None => {},
    }
    lines.push(
        "scanner_rejections: ".to_owned().concat(
            format_counts(&report.total.rejection_counts).as_str(),
        ),
    );
    lines.push(
        "scanner_reasons: ".to_owned().concat(format_counts(&report.total.reason_counts).as_str()),
    );
    let ghost first = texts(lines@);
    let profiles: usize = report.profile_summaries.len();
    assert(first =~= first + Seq::new(0, |k: int| profile_chars(report.profile_summaries@[k])));
    for i in 0..profiles
        invariant
            profiles == report.profile_summaries@.len(),
            texts(lines@) == first + Seq::new(
                i as nat,
                |k: int| profile_chars(report.profile_summaries@[k]),
            ),
    {
        let ghost before = lines@;
        lines.push(profile_line(&report.profile_summaries[i]));
        assert(texts(lines@) =~= texts(before).push(lines@.last()@));
        assert(texts(lines@) =~= first + Seq::new(
            (i + 1) as nat,
            |k: int| profile_chars(report.profile_summaries@[k]),
        ));
    }
    let ghost second = texts(lines@);
    let underlyings: usize = report.underlying_summaries.len();
    assert(second =~= second + Seq::new(
        0,
        |k: int| underlying_chars(report.underlying_summaries@[k]),
    ));
    for i in 0..underlyings
        invariant
            underlyings == report.underlying_summaries@.len(),
            texts(lines@) == second + Seq::new(
                i as nat,
                |k: int| underlying_chars(report.underlying_summaries@[k]),
            ),
    {
        let ghost before = lines@;
        lines.push(underlying_line(&report.underlying_summaries[i]));
        assert(texts(lines@) =~= texts(before).push(lines@.last()@));
        assert(texts(lines@) =~= second + Seq::new(
            (i + 1) as nat,
            |k: int| underlying_chars(report.underlying_summaries@[k]),
        ));
    }
    assert(texts(lines@) =~= report_chars(*report));
    lines
}

} // verus!
