//! The configuration check as lines of text.
use vstd::prelude::*;

use crate::doctor::lint_counts;
use crate::doctor::lint_counts_text;
use crate::evidence::chars_or;
use crate::evidence::text_or_default;
use crate::lint::ConfigLintReport;
use crate::preroll::LintIssue;
use crate::preroll::PreRollCheck;
use crate::preroll::PreRollReport;
use crate::text::bool_chars;
use crate::text::bool_text;
use crate::text::count_text;
use crate::text::decimal;
use crate::text::opt_text;
use crate::text::texts;

verus! {

/// The line of an issue.
pub open spec fn issue_chars(issue: LintIssue) -> Seq<char> {
    "issue: severity="@ + issue.severity@ + " code="@ + issue.code@ + " path="@ + chars_or(
        opt_text(issue.path),
        "none"@,
    ) + " message="@ + issue.message@
}

fn issue_line(issue: &LintIssue) -> (line: String)
    ensures
        line@ == issue_chars(*issue),
{
    "issue: severity=".to_owned().concat(issue.severity).concat(" code=").concat(
        issue.code,
    ).concat(" path=").concat(text_or_default(&issue.path, "none").as_str()).concat(
        " message=",
    ).concat(issue.message.as_str())
}

/// A truth value, or `n/a`.
pub open spec fn known_chars(value: Option<bool>) -> Seq<char> {
    match value {
        Some(known) => bool_chars(known),
        None => "n/a"@,
    }
}

fn known_text(value: Option<bool>) -> (text: &'static str)
    ensures
        text@ == known_chars(value),
{
    match value {
        Some(known) => bool_text(known),
        None => "n/a",
    }
}

/// The line of a check.
pub open spec fn check_chars(check: PreRollCheck) -> Seq<char> {
    "pre_roll_check: name="@ + check.name@ + " source_kind="@ + check.source_kind@
        + " host_source="@ + check.host_source@ + " container_path="@ + check.container_path@
        + " exists="@ + known_chars(check.exists) + " container_readable="@ + known_chars(
        check.container_readable,
    ) + " mode="@ + chars_or(opt_text(check.mode), "n/a"@) + " status="@ + check.status@
}

fn check_line(check: &PreRollCheck) -> (line: String)
    ensures
        line@ == check_chars(*check),
{
    "pre_roll_check: name=".to_owned().concat(check.name).concat(" source_kind=").concat(
        check.source_kind,
    ).concat(" host_source=").concat(check.host_source.as_str()).concat(" container_path=").concat(
        check.container_path,
    ).concat(" exists=").concat(known_text(check.exists)).concat(" container_readable=").concat(
        known_text(check.container_readable),
    ).concat(" mode=").concat(text_or_default(&check.mode, "n/a").as_str()).concat(
        " status=",
    ).concat(check.status)
}

/// The lines of the pre-roll checks.
pub open spec fn pre_roll_chars(pre_roll: Option<PreRollReport>) -> Seq<Seq<char>> {
    match pre_roll {
        Some(report) => seq![
            "pre_roll: ok="@ + bool_chars(report.ok) + " checks="@ + decimal(report.checks@.len())
                + " issues="@ + decimal(report.issues@.len()),
        ] + Seq::new(report.checks@.len(), |i: int| check_chars(report.checks@[i])),
        None => Seq::empty(),
    }
}

/// All lines of a report.
pub open spec fn lint_chars(report: ConfigLintReport) -> Seq<Seq<char>> {
    seq!["config_lint: "@ + lint_counts(report)] + Seq::new(
        report.issues@.len(),
        |i: int| issue_chars(report.issues@[i]),
    ) + pre_roll_chars(report.pre_roll)
}

/// Writes a report as lines.
pub fn lint_report_lines(report: &ConfigLintReport) -> (lines: Vec<String>)
    ensures
        texts(lines@) == lint_chars(*report),
{
    let mut lines: Vec<String> = Vec::new();
    lines.push("config_lint: ".to_owned().concat(lint_counts_text(report).as_str()));
    let ghost first = texts(lines@);
    assert(first =~= seq!["config_lint: "@ + lint_counts(*report)]);
    let issues: usize = report.issues.len();
    assert(first =~= first + Seq::new(0, |k: int| issue_chars(report.issues@[k])));
    for i in 0..issues
        invariant
            issues == report.issues@.len(),
            texts(lines@) == first + Seq::new(
                i as nat,
                |k: int| issue_chars(report.issues@[k]),
            ),
    {
        let ghost before = lines@;
        lines.push(issue_line(&report.issues[i]));
        assert(texts(lines@) =~= texts(before).push(lines@.last()@));
        assert(texts(lines@) =~= first + Seq::new(
            (i + 1) as nat,
            |k: int| issue_chars(report.issues@[k]),
        ));
    }
    let ghost second = texts(lines@);
    match &report.pre_roll {
        Some(pre_roll) => {
            let ghost earlier = lines@;
            let head = "pre_roll: ok=".to_owned().concat(bool_text(pre_roll.ok)).concat(
                " checks=",
            ).concat(count_text(pre_roll.checks.len()).as_str()).concat(" issues=").concat(
                count_text(pre_roll.issues.len()).as_str(),
            );
            lines.push(head);
            assert(texts(lines@) =~= second.push(head@));
            let ghost third = texts(lines@);
            let checks: usize = pre_roll.checks.len();
            assert(third =~= third + Seq::new(0, |k: int| check_chars(pre_roll.checks@[k])));
            for i in 0..checks
                invariant
                    checks == pre_roll.checks@.len(),
                    texts(lines@) == third + Seq::new(
                        i as nat,
                        |k: int| check_chars(pre_roll.checks@[k]),
                    ),
            {
                let ghost before = lines@;
                lines.push(check_line(&pre_roll.checks[i]));
                assert(texts(lines@) =~= texts(before).push(lines@.last()@));
                assert(texts(lines@) =~= third + Seq::new(
                    (i + 1) as nat,
                    |k: int| check_chars(pre_roll.checks@[k]),
                ));
            }
        },
        None => {},
    }
    assert(texts(lines@) =~= second + pre_roll_chars(report.pre_roll));
    lines
}

} // verus!
