//! One-shot operator validation.
use vstd::prelude::*;

use crate::evidence::chars_or;
use crate::evidence::compact_json_or;
use crate::evidence::compact_or;
use crate::evidence::items_of;
use crate::evidence::string_array;
use crate::evidence::strings_in;
use crate::json::Json;
use crate::lint::blocks_success;
use crate::lint::issue_blocks_success;
use crate::lint::ConfigLintReport;
use crate::preroll::issue_views;
use crate::preroll::IssueView;
use crate::preroll::LintIssue;
use crate::text::bool_chars;
use crate::text::bool_text;
use crate::text::count_text;
use crate::text::decimal;
use crate::text::format_list;
use crate::text::list_or_none;
use crate::text::opt_text;
use crate::text::same_text;
use crate::text::texts;

verus! {

/// What the status command gave.
#[derive(Debug)]
pub enum CollectedStatus {
    /// The status.
    Collected(Json),
    /// Why there is no status.
    Failed(String),
}

/// The verdict of the validation.
#[derive(Clone, Debug)]
pub struct DoctorVerdict {
    /// Health.
    pub health: String,
    /// Reasons.
    pub health_reasons: Vec<String>,
    /// Next action.
    pub next_action: String,
}

/// What a verdict says.
pub struct VerdictView {
    /// Health.
    pub health: Seq<char>,
    /// Reasons.
    pub reasons: Seq<Seq<char>>,
    /// Next action.
    pub next_action: Seq<char>,
}

impl View for DoctorVerdict {
    type V = VerdictView;

    open spec fn view(&self) -> VerdictView {
        VerdictView {
            health: self.health@,
            reasons: texts(self.health_reasons@),
            next_action: self.next_action@,
        }
    }
}

/// What the status itself says.
pub open spec fn status_verdict(status: CollectedStatus) -> VerdictView {
    match status {
        CollectedStatus::Collected(value) => VerdictView {
            health: chars_or(value.text_field("health"@), "broken"@),
            reasons: strings_in(items_of(Some(value), "health_reasons"@)),
            next_action: chars_or(value.text_field("next_action"@), "inspect_operator_status"@),
        },
        CollectedStatus::Failed(error) => VerdictView {
            health: "broken"@,
            reasons: seq!["status_collect_failed: "@ + error@],
            next_action: "inspect_alpaca_account_config_and_broker_connectivity"@,
        },
    }
}

/// The position of the first issue that stands in the way, the number of issues when there is none.
pub open spec fn first_blocking(issues: Seq<IssueView>) -> int
    decreases issues.len(),
{
    if issues.len() == 0 || blocks_success(issues[0]) {
        0
    } else {
        1 + first_blocking(issues.drop_first())
    }
}

/// The verdict after the configuration check.
pub open spec fn after_config(verdict: VerdictView, ok: bool, issues: Seq<IssueView>) -> VerdictView {
    if ok {
        verdict
    } else {
        let at = first_blocking(issues);
        VerdictView {
            health: "broken"@,
            reasons: verdict.reasons.push("config_lint_failed"@),
            next_action: if at < issues.len() {
                "fix_"@ + issues[at].code + ": "@ + issues[at].message
            } else {
                verdict.next_action
            },
        }
    }
}

/// The verdict after the scanner report.
pub open spec fn after_scanner(verdict: VerdictView, scanner_failed: bool) -> VerdictView {
    if scanner_failed && verdict.health == "healthy"@ {
        VerdictView {
            health: "degraded"@,
            reasons: verdict.reasons.push("scanner_report_unavailable"@),
            next_action: "inspect_scanner_report"@,
        }
    } else {
        verdict
    }
}

/// The verdict with at least one reason.
pub open spec fn with_reason(verdict: VerdictView) -> VerdictView {
    if verdict.reasons.len() == 0 {
        VerdictView { reasons: seq!["no_operator_alerts"@], ..verdict }
    } else {
        verdict
    }
}

/// The verdict of the validation.
pub open spec fn verdict_of(
    status: CollectedStatus,
    ok: bool,
    issues: Seq<IssueView>,
    scanner_failed: bool,
) -> VerdictView {
    with_reason(after_scanner(after_config(status_verdict(status), ok, issues), scanner_failed))
}

/// The first blocking position of a list lies in it or just past it.
proof fn first_blocking_at(issues: Seq<IssueView>, at: int)
    requires
        0 <= at <= issues.len(),
        forall|k: int| 0 <= k < at ==> !blocks_success(#[trigger] issues[k]),
        at < issues.len() ==> blocks_success(issues[at]),
    ensures
        first_blocking(issues) == at,
    decreases at,
{
    if at > 0 {
        assert(!blocks_success(issues[0]));
        assert forall|k: int| 0 <= k < at - 1 implies !blocks_success(
            #[trigger] issues.drop_first()[k],
        ) by {
            assert(!blocks_success(issues[k + 1]));
        }
        first_blocking_at(issues.drop_first(), at - 1);
    }
}

fn find_blocking(issues: &Vec<LintIssue>) -> (at: usize)
    ensures
        at == first_blocking(issue_views(issues@)),
        at <= issues@.len(),
{
    let ghost views = issue_views(issues@);
    let n: usize = issues.len();
    let mut i: usize = 0;
    while i < n
        invariant
            n == issues@.len(),
            i <= n,
            views == issue_views(issues@),
            forall|k: int| 0 <= k < i ==> !blocks_success(#[trigger] views[k]),
        decreases n - i,
    {
        if issue_blocks_success(&issues[i]) {
            proof {
                first_blocking_at(views, i as int);
            }
            return i;
        }
        assert(!blocks_success(views[i as int]));
        i += 1;
    }
    proof {
        first_blocking_at(views, n as int);
    }
    n
}

fn push_reason(reasons: &mut Vec<String>, reason: String)
    ensures
        texts(final(reasons)@) == texts(old(reasons)@).push(reason@),
{
    reasons.push(reason);
    assert(texts(reasons@) =~= texts(old(reasons)@).push(reason@));
}

/// Returns the verdict of the validation.
pub fn doctor_verdict(
    status: &CollectedStatus,
    config: &ConfigLintReport,
    scanner_failed: bool,
) -> (verdict: DoctorVerdict)
    ensures
        verdict@ == verdict_of(*status, config.ok, issue_views(config.issues@), scanner_failed),
{
    let mut reasons: Vec<String> = Vec::new();
    let mut health = "broken".to_owned();
    let mut next_action = "inspect_operator_status".to_owned();
    match status {
        CollectedStatus::Collected(value) => {
            match value.get_str("health") {
                Some(text) => {
                    health = text.to_owned();
                },
                None => {},
            }
            match value.get_str("next_action") {
                Some(text) => {
                    next_action = text.to_owned();
                },
                None => {},
            }
            match value.get_list("health_reasons") {
                Some(values) => {
                    reasons = string_array(values);
                },
                None => {
                    assert(texts(reasons@) =~= Seq::<Seq<char>>::empty());
                },
            }
        },
        CollectedStatus::Failed(error) => {
            reasons.push("status_collect_failed: ".to_owned().concat(error.as_str()));
            assert(texts(reasons@) =~= seq!["status_collect_failed: "@ + error@]);
            next_action = "inspect_alpaca_account_config_and_broker_connectivity".to_owned();
        },
    }
    let ghost first = status_verdict(*status);
    assert(texts(reasons@) == first.reasons);
    if !config.ok {
        health = "broken".to_owned();
        push_reason(&mut reasons, "config_lint_failed".to_owned());
        let at: usize = find_blocking(&config.issues);
        if at < config.issues.len() {
            let issue = &config.issues[at];
            assert(issue_views(config.issues@)[at as int] == issue@);
            next_action =
            "fix_".to_owned().concat(issue.code).concat(": ").concat(issue.message.as_str());
        }
    }
    let ghost second = after_config(first, config.ok, issue_views(config.issues@));
    assert(texts(reasons@) == second.reasons && health@ == second.health && next_action@
        == second.next_action);
    if scanner_failed && same_text(health.as_str(), "healthy") {
        health = "degraded".to_owned();
        push_reason(&mut reasons, "scanner_report_unavailable".to_owned());
        next_action = "inspect_scanner_report".to_owned();
    }
    let ghost third = after_scanner(second, scanner_failed);
    assert(texts(reasons@).len() == reasons@.len());
    if reasons.len() == 0 {
        reasons.push("no_operator_alerts".to_owned());
        assert(texts(reasons@) =~= seq!["no_operator_alerts"@]);
    }
    let verdict = DoctorVerdict { health, health_reasons: reasons, next_action };
    assert(verdict@ == with_reason(third));
    verdict
}

// ---------------------------------------------------------------------------------------------
// Lines
// ---------------------------------------------------------------------------------------------

/// The JSON texts of the sections of a report.
#[derive(Clone, Debug)]
pub struct DoctorSections {
    /// Account.
    pub account: Option<String>,
    /// Broker.
    pub broker: Option<String>,
    /// Runner of the runtime.
    pub runtime_runner: Option<String>,
    /// Lifecycle of the scanner.
    pub scanner_lifecycle: Option<String>,
    /// Event shock.
    pub event_shock: Option<String>,
    /// Universe.
    pub universe: Option<String>,
    /// Scanner report.
    pub scanner: Option<String>,
}

/// A labelled line where there is a text.
pub open spec fn line_if(label: Seq<char>, text: Option<Seq<char>>) -> Seq<Seq<char>> {
    match text {
        Some(found) => seq![label + found],
        None => Seq::empty(),
    }
}

/// The compact form of a section.
pub open spec fn section_text(raw: Option<String>) -> Option<Seq<char>> {
    match raw {
        Some(text) => Some(compact_or(text@, "unavailable"@)),
        None => None,
    }
}

/// The lines of the verdict and the configuration.
pub open spec fn verdict_lines(
    verdict: DoctorVerdict,
    checked_at: Seq<char>,
    config: ConfigLintReport,
) -> Seq<Seq<char>> {
    seq![
        "doctor: health="@ + verdict.health@ + " next_action="@ + verdict.next_action@
            + " checked_at_utc="@ + checked_at,
        "health_reasons: "@ + list_or_none(texts(verdict.health_reasons@)),
        "config: "@ + lint_counts(config),
    ] + match config.pre_roll {
        Some(pre_roll) => seq![
            "pre_roll: ok="@ + bool_chars(pre_roll.ok) + " checks="@ + decimal(
                pre_roll.checks@.len(),
            ) + " issues="@ + decimal(pre_roll.issues@.len()),
        ],
        None => Seq::empty(),
    }
}

/// The counts of a configuration check.
pub open spec fn lint_counts(config: ConfigLintReport) -> Seq<char> {
    "ok="@ + bool_chars(config.ok) + " issues="@ + decimal(config.issue_count as nat)
        + " universe_groups="@ + decimal(config.universe_groups as nat) + " strategy_profiles="@
        + decimal(config.strategy_profiles as nat) + " submitting_profiles="@ + list_or_none(
        texts(config.submitting_profiles@),
    )
}

/// Writes the counts of a configuration check.
pub fn lint_counts_text(config: &ConfigLintReport) -> (text: String)
    ensures
        text@ == lint_counts(*config),
{
    "ok=".to_owned().concat(bool_text(config.ok)).concat(" issues=").concat(
        count_text(config.issue_count).as_str(),
    ).concat(" universe_groups=").concat(count_text(config.universe_groups).as_str()).concat(
        " strategy_profiles=",
    ).concat(count_text(config.strategy_profiles).as_str()).concat(
        " submitting_profiles=",
    ).concat(format_list(&config.submitting_profiles).as_str())
}

/// All lines of a report.
pub open spec fn doctor_chars(
    verdict: DoctorVerdict,
    checked_at: Seq<char>,
    config: ConfigLintReport,
    status_error: Option<String>,
    scanner_error: Option<String>,
    sections: DoctorSections,
) -> Seq<Seq<char>> {
    verdict_lines(verdict, checked_at, config) + line_if("status_error: "@, opt_text(status_error))
        + line_if("scanner_error: "@, opt_text(scanner_error)) + line_if(
        "account: "@,
        section_text(sections.account),
    ) + line_if("broker: "@, section_text(sections.broker)) + line_if(
        "runtime_runner: "@,
        section_text(sections.runtime_runner),
    ) + line_if("scanner_lifecycle: "@, section_text(sections.scanner_lifecycle)) + line_if(
        "event_shock: "@,
        section_text(sections.event_shock),
    ) + line_if("universe: "@, section_text(sections.universe)) + line_if(
        "scanner: "@,
        section_text(sections.scanner),
    )
}

fn push_if(lines: &mut Vec<String>, label: &str, text: &Option<String>)
    ensures
        texts(final(lines)@) == texts(old(lines)@) + line_if(label@, opt_text(*text)),
{
    match text {
        Some(found) => {
            lines.push(label.to_owned().concat(found.as_str()));
        },
        None => {},
    }
    assert(texts(lines@) =~= texts(old(lines)@) + line_if(label@, opt_text(*text)));
}

fn push_section(lines: &mut Vec<String>, label: &str, raw: &Option<String>)
    ensures
        texts(final(lines)@) == texts(old(lines)@) + line_if(label@, section_text(*raw)),
{
    match raw {
        Some(text) => {
            lines.push(
                label.to_owned().concat(compact_json_or(text.as_str(), "unavailable").as_str()),
            );
        },
        None => {},
    }
    assert(texts(lines@) =~= texts(old(lines)@) + line_if(label@, section_text(*raw)));
}

/// Writes a report as lines.
pub fn doctor_lines(
    verdict: &DoctorVerdict,
    checked_at: &str,
    config: &ConfigLintReport,
    status_error: &Option<String>,
    scanner_error: &Option<String>,
    sections: &DoctorSections,
) -> (lines: Vec<String>)
    ensures
        texts(lines@) == doctor_chars(
            *verdict,
            checked_at@,
            *config,
            *status_error,
            *scanner_error,
            *sections,
        ),
{
    let mut lines: Vec<String> = Vec::new();
    lines.push(
        "doctor: health=".to_owned().concat(verdict.health.as_str()).concat(
            " next_action=",
        ).concat(verdict.next_action.as_str()).concat(" checked_at_utc=").concat(checked_at),
    );
    lines.push(
        "health_reasons: ".to_owned().concat(format_list(&verdict.health_reasons).as_str()),
    );
    lines.push("config: ".to_owned().concat(lint_counts_text(config).as_str()));
    match &config.pre_roll {
        Some(pre_roll) => {
            lines.push(
                "pre_roll: ok=".to_owned().concat(bool_text(pre_roll.ok)).concat(
                    " checks=",
                ).concat(count_text(pre_roll.checks.len()).as_str()).concat(" issues=").concat(
                    count_text(pre_roll.issues.len()).as_str(),
                ),
            );
        },
        None => {},
    }
    assert(texts(lines@) =~= verdict_lines(*verdict, checked_at@, *config));
    push_if(&mut lines, "status_error: ", status_error);
    push_if(&mut lines, "scanner_error: ", scanner_error);
    push_section(&mut lines, "account: ", &sections.account);
    push_section(&mut lines, "broker: ", &sections.broker);
    push_section(&mut lines, "runtime_runner: ", &sections.runtime_runner);
    push_section(&mut lines, "scanner_lifecycle: ", &sections.scanner_lifecycle);
    push_section(&mut lines, "event_shock: ", &sections.event_shock);
    push_section(&mut lines, "universe: ", &sections.universe);
    push_section(&mut lines, "scanner: ", &sections.scanner);
    lines
}

/// A report without a status or with a failed configuration check is broken.
pub proof fn failures_are_broken(
    status: CollectedStatus,
    ok: bool,
    issues: Seq<IssueView>,
    scanner_failed: bool,
)
    requires
        status is Failed || !ok,
    ensures
        verdict_of(status, ok, issues, scanner_failed).health == "broken"@,
{
    reveal_strlit("broken");
    reveal_strlit("healthy");
    assert("broken"@.len() == 6 && "healthy"@.len() == 7);
}

/// A report gives at least one reason.
pub proof fn verdicts_give_a_reason(
    status: CollectedStatus,
    ok: bool,
    issues: Seq<IssueView>,
    scanner_failed: bool,
)
    ensures
        verdict_of(status, ok, issues, scanner_failed).reasons.len() > 0,
{
}

} // verus!
