//! Checks of mounted paths before a container rolls out.
use vstd::prelude::*;

use crate::calendar::instant_text;
use crate::calendar::rfc3339_writing;
use crate::calendar::UtcInstant;
use crate::text::begins_with;
use crate::text::contains_part;
use crate::text::holds_part;
use crate::text::is_blank;
use crate::text::opt_text;
use crate::text::same_text;
use crate::text::starts_with;
use crate::text::trimmed;

verus! {

/// An issue of a configuration.
#[derive(Clone, Debug)]
pub struct LintIssue {
    /// Severity.
    pub severity: &'static str,
    /// Code.
    pub code: &'static str,
    /// Message.
    pub message: String,
    /// Where the issue is.
    pub path: Option<String>,
}

/// What an issue says.
pub struct IssueView {
    /// Severity.
    pub severity: Seq<char>,
    /// Code.
    pub code: Seq<char>,
    /// Message.
    pub message: Seq<char>,
    /// Where the issue is.
    pub path: Option<Seq<char>>,
}

impl View for LintIssue {
    type V = IssueView;

    open spec fn view(&self) -> IssueView {
        IssueView {
            severity: self.severity@,
            code: self.code@,
            message: self.message@,
            path: opt_text(self.path),
        }
    }
}

/// What some issues say.
pub open spec fn issue_views(issues: Seq<LintIssue>) -> Seq<IssueView> {
    Seq::new(issues.len(), |i: int| issues[i]@)
}

/// The report of the pre-roll checks.
#[derive(Debug)]
pub struct PreRollReport {
    /// Time of the checks, where it has a text.
    pub checked_at_utc: Option<String>,
    /// Whether there is no issue.
    pub ok: bool,
    /// Checks.
    pub checks: Vec<PreRollCheck>,
    /// Issues.
    pub issues: Vec<LintIssue>,
}

/// One check.
#[derive(Clone, Debug)]
pub struct PreRollCheck {
    /// Name of the mount.
    pub name: &'static str,
    /// Environment variable that names the source.
    pub env_var: Option<&'static str>,
    /// Path in the container.
    pub container_path: &'static str,
    /// Source on the host.
    pub host_source: String,
    /// Kind of the source.
    pub source_kind: &'static str,
    /// Whether the source exists.
    pub exists: Option<bool>,
    /// Whether the container can read the source.
    pub container_readable: Option<bool>,
    /// Permission bits in octal digits.
    pub mode: Option<String>,
    /// Status.
    pub status: &'static str,
}

/// What a mount falls back to.
#[derive(Clone, Copy, Debug)]
pub enum MountDefault {
    /// A named volume.
    NamedVolume(&'static str),
    /// A file beside the compose file.
    ComposeFile(&'static str),
}

/// A mount of the container as the host sees it.
#[derive(Clone, Copy, Debug)]
pub struct DockerMountSpec {
    /// Name.
    pub name: &'static str,
    /// Environment variable that names the source.
    pub env_var: &'static str,
    /// Source without that variable.
    pub default_source: MountDefault,
    /// Path in the container.
    pub container_path: &'static str,
    /// Whether the source has to be a directory.
    pub expect_dir: bool,
}

/// A mount as the container sees it.
#[derive(Clone, Copy, Debug)]
pub struct ContainerMountSpec {
    /// Name.
    pub name: &'static str,
    /// Path in the container.
    pub container_path: &'static str,
    /// Whether the path has to be a directory.
    pub expect_dir: bool,
}

/// What the file system says of a path that exists.
#[derive(Clone, Copy, Debug, PartialEq, Eq, Structural)]
pub struct PathFacts {
    /// Whether the path is a directory.
    pub is_dir: bool,
    /// Whether the path is a file.
    pub is_file: bool,
    /// Mode bits.
    pub mode: u32,
}

/// Where the source of a mount is.
#[derive(Clone, Debug)]
pub enum MountSource {
    /// A named volume.
    NamedVolume(String),
    /// A path, beside the compose file unless it is absolute.
    Bind(String),
}

// ---------------------------------------------------------------------------------------------
// Mounts
// ---------------------------------------------------------------------------------------------

/// A mount as the container sees it: name, path and whether it is a directory.
pub open spec fn is_container_mount(
    mount: ContainerMountSpec,
    name: Seq<char>,
    path: Seq<char>,
    expect_dir: bool,
) -> bool {
    mount.name@ == name && mount.container_path@ == path && mount.expect_dir == expect_dir
}

/// Returns the mounts as the container sees them.
pub fn container_mount_specs() -> (specs: Vec<ContainerMountSpec>)
    ensures
        specs@.len() == 6,
        is_container_mount(specs@[0], "scheduled_events"@, "/state/scheduled_events"@, true),
        is_container_mount(specs@[1], "earnings"@, "/state/earnings"@, true),
        is_container_mount(specs@[2], "fleet_config"@, "/config/fleet.toml"@, false),
        is_container_mount(specs@[3], "base_config"@, "/config/base-options.toml"@, false),
        is_container_mount(
            specs@[4],
            "base_engine_config"@,
            "/config/base-options-engine.toml"@,
            false,
        ),
        is_container_mount(specs@[5], "runtime_config"@, "/config/options.toml"@, false),
{
    vec![
        ContainerMountSpec {
            name: "scheduled_events",
            container_path: "/state/scheduled_events",
            expect_dir: true,
        },
        ContainerMountSpec {
            name: "earnings",
            container_path: "/state/earnings",
            expect_dir: true,
        },
        ContainerMountSpec {
            name: "fleet_config",
            container_path: "/config/fleet.toml",
            expect_dir: false,
        },
        ContainerMountSpec {
            name: "base_config",
            container_path: "/config/base-options.toml",
            expect_dir: false,
        },
        ContainerMountSpec {
            name: "base_engine_config",
            container_path: "/config/base-options-engine.toml",
            expect_dir: false,
        },
        ContainerMountSpec {
            name: "runtime_config",
            container_path: "/config/options.toml",
            expect_dir: false,
        },
    ]
}

/// A mount as the host sees it.
pub open spec fn is_host_mount(
    mount: DockerMountSpec,
    name: Seq<char>,
    env_var: Seq<char>,
    volume: bool,
    source: Seq<char>,
    path: Seq<char>,
    expect_dir: bool,
) -> bool {
    &&& mount.name@ == name
    &&& mount.env_var@ == env_var
    &&& match mount.default_source {
        MountDefault::NamedVolume(text) => volume && text@ == source,
        MountDefault::ComposeFile(text) => !volume && text@ == source,
    }
    &&& mount.container_path@ == path
    &&& mount.expect_dir == expect_dir
}

/// Returns the mounts as the host sees them.
pub fn docker_mount_specs() -> (specs: Vec<DockerMountSpec>)
    ensures
        specs@.len() == 5,
        is_host_mount(
            specs@[0],
            "scheduled_events"@,
            "NAUTILUS_ALPACA_DOCKER_SCHEDULED_EVENT_ROOT"@,
            true,
            "alpaca-scheduled-events"@,
            "/state/scheduled_events"@,
            true,
        ),
        is_host_mount(
            specs@[1],
            "earnings"@,
            "NAUTILUS_ALPACA_DOCKER_EARNINGS_DIR"@,
            true,
            "alpaca-earnings"@,
            "/state/earnings"@,
            true,
        ),
        is_host_mount(
            specs@[2],
            "fleet_config"@,
            "NAUTILUS_ALPACA_DOCKER_FLEET_CONFIG"@,
            false,
            "alpaca-fleet.toml.example"@,
            "/config/fleet.toml"@,
            false,
        ),
        is_host_mount(
            specs@[3],
            "base_config"@,
            "NAUTILUS_ALPACA_DOCKER_BASE_CONFIG"@,
            false,
            "alpaca-options.base.toml.example"@,
            "/config/base-options.toml,/config/base-options-engine.toml"@,
            false,
        ),
        is_host_mount(
            specs@[4],
            "runtime_config"@,
            "NAUTILUS_ALPACA_DOCKER_CONFIG"@,
            false,
            "alpaca-options.toml.example"@,
            "/config/options.toml"@,
            false,
        ),
{
    vec![
        DockerMountSpec {
            name: "scheduled_events",
            env_var: "NAUTILUS_ALPACA_DOCKER_SCHEDULED_EVENT_ROOT",
            default_source: MountDefault::NamedVolume("alpaca-scheduled-events"),
            container_path: "/state/scheduled_events",
            expect_dir: true,
        },
        DockerMountSpec {
            name: "earnings",
            env_var: "NAUTILUS_ALPACA_DOCKER_EARNINGS_DIR",
            default_source: MountDefault::NamedVolume("alpaca-earnings"),
            container_path: "/state/earnings",
            expect_dir: true,
        },
        DockerMountSpec {
            name: "fleet_config",
            env_var: "NAUTILUS_ALPACA_DOCKER_FLEET_CONFIG",
            default_source: MountDefault::ComposeFile("alpaca-fleet.toml.example"),
            container_path: "/config/fleet.toml",
            expect_dir: false,
        },
        DockerMountSpec {
            name: "base_config",
            env_var: "NAUTILUS_ALPACA_DOCKER_BASE_CONFIG",
            default_source: MountDefault::ComposeFile("alpaca-options.base.toml.example"),
            container_path: "/config/base-options.toml,/config/base-options-engine.toml",
            expect_dir: false,
        },
        DockerMountSpec {
            name: "runtime_config",
            env_var: "NAUTILUS_ALPACA_DOCKER_CONFIG",
            default_source: MountDefault::ComposeFile("alpaca-options.toml.example"),
            container_path: "/config/options.toml",
            expect_dir: false,
        },
    ]
}

/// Whether a value names a path: it begins like one or holds a slash.
pub open spec fn names_path(value: Seq<char>) -> bool {
    ||| begins_with(value, "/"@)
    ||| begins_with(value, "./"@)
    ||| begins_with(value, "../"@)
    ||| holds_part(value, "/"@)
}

/// Returns whether a value names a path.
pub fn looks_like_bind_source(value: &str) -> (yes: bool)
    ensures
        yes == names_path(value@),
{
    starts_with(value, "/") || starts_with(value, "./") || starts_with(value, "../")
        || contains_part(value, "/")
}

/// Where the source of a mount is.
pub enum SourceView {
    /// A named volume.
    NamedVolume(Seq<char>),
    /// A path.
    Bind(Seq<char>),
}

impl View for MountSource {
    type V = SourceView;

    open spec fn view(&self) -> SourceView {
        match *self {
            MountSource::NamedVolume(name) => SourceView::NamedVolume(name@),
            MountSource::Bind(path) => SourceView::Bind(path@),
        }
    }
}

/// The source of a mount, from the value of its environment variable where there is one that is not
/// blank.
pub open spec fn source_of(default: MountDefault, value: Option<Seq<char>>) -> SourceView {
    if value is Some && trimmed(value->0).len() > 0 {
        if names_path(value->0) {
            SourceView::Bind(value->0)
        } else {
            SourceView::NamedVolume(value->0)
        }
    } else {
        match default {
            MountDefault::NamedVolume(name) => SourceView::NamedVolume(name@),
            MountDefault::ComposeFile(name) => SourceView::Bind(name@),
        }
    }
}

/// Returns the source of a mount.
pub fn mount_source(default: MountDefault, value: Option<String>) -> (source: MountSource)
    ensures
        source@ == source_of(default, opt_text(value)),
{
    match value {
        Some(text) => {
            if !is_blank(text.as_str()) {
                return if looks_like_bind_source(text.as_str()) {
                    MountSource::Bind(text)
                } else {
                    MountSource::NamedVolume(text)
                };
            }
        },
        None => {},
    }
    match default {
        MountDefault::NamedVolume(name) => MountSource::NamedVolume(name.to_owned()),
        MountDefault::ComposeFile(name) => MountSource::Bind(name.to_owned()),
    }
}

// ---------------------------------------------------------------------------------------------
// Permissions
// ---------------------------------------------------------------------------------------------

/// Whether others may read a path, and enter it where it is a directory.
pub open spec fn readable(facts: PathFacts, expect_dir: bool) -> bool {
    let shape = if expect_dir {
        facts.is_dir
    } else {
        facts.is_file
    };
    let bits = if facts.is_dir {
        facts.mode & 5 == 5
    } else {
        facts.mode & 4 == 4
    };
    shape && bits
}

/// Returns whether the container can read a path.
pub fn container_readable(facts: PathFacts, expect_dir: bool) -> (yes: bool)
    ensures
        yes == readable(facts, expect_dir),
{
    let shape = if expect_dir {
        facts.is_dir
    } else {
        facts.is_file
    };
    let bits = if facts.is_dir {
        facts.mode & 5 == 5
    } else {
        facts.mode & 4 == 4
    };
    shape && bits
}

/// A number below eight as a digit.
pub open spec fn octal_digit(d: int) -> char {
    if d == 0 {
        '0'
    } else if d == 1 {
        '1'
    } else if d == 2 {
        '2'
    } else if d == 3 {
        '3'
    } else if d == 4 {
        '4'
    } else if d == 5 {
        '5'
    } else if d == 6 {
        '6'
    } else {
        '7'
    }
}

/// A number in octal digits.
pub open spec fn octal(n: nat) -> Seq<char>
    decreases n,
{
    if n < 8 {
        seq![octal_digit(n as int)]
    } else {
        octal(n / 8).push(octal_digit((n % 8) as int))
    }
}

fn octal_char(d: u32) -> (c: char)
    requires
        d < 8,
    ensures
        c == octal_digit(d as int),
{
    match d {
        0 => '0',
        1 => '1',
        2 => '2',
        3 => '3',
        4 => '4',
        5 => '5',
        6 => '6',
        _ => '7',
    }
}

/// Writes a number in octal digits.
pub fn octal_text(n: u32) -> (text: String)
    ensures
        text@ == octal(n as nat),
    decreases n,
{
    let mut text: String = if n < 8 {
        String::new()
    } else {
        octal_text(n / 8)
    };
    text.push(octal_char(n % 8));
    proof {
        if n < 8 {
            assert(text@ =~= seq![octal_digit(n as int)]);
        }
    }
    text
}

/// The permission bits of a mode.
pub open spec fn mode_chars(mode: u32) -> Seq<char> {
    octal((mode % 512) as nat)
}

/// Writes the permission bits of a mode in octal digits.
pub fn mode_text(mode: u32) -> (text: String)
    ensures
        text@ == mode_chars(mode),
{
    octal_text(mode % 512)
}

// ---------------------------------------------------------------------------------------------
// Checks
// ---------------------------------------------------------------------------------------------

/// The status of a path.
pub open spec fn path_status(facts: Option<PathFacts>, expect_dir: bool) -> Seq<char> {
    match facts {
        Some(found) => if readable(found, expect_dir) {
            "ok"@
        } else {
            "not_container_readable"@
        },
        None => "missing"@,
    }
}

/// Whether a check says what the file system says of a path.
pub open spec fn checks_path(
    check: PreRollCheck,
    facts: Option<PathFacts>,
    expect_dir: bool,
) -> bool {
    &&& check.exists == Some(facts is Some)
    &&& check.container_readable == match facts {
        Some(found) => Some(readable(found, expect_dir)),
        None => None,
    }
    &&& opt_text(check.mode) == match facts {
        Some(found) => Some(mode_chars(found.mode)),
        None => None,
    }
    &&& check.status@ == path_status(facts, expect_dir)
}

fn path_check(
    name: &'static str,
    env_var: Option<&'static str>,
    container_path: &'static str,
    host_source: String,
    source_kind: &'static str,
    facts: Option<PathFacts>,
    expect_dir: bool,
) -> (check: PreRollCheck)
    ensures
        check.name == name,
        check.env_var == env_var,
        check.container_path == container_path,
        check.host_source == host_source,
        check.source_kind == source_kind,
        checks_path(check, facts, expect_dir),
{
    let (readable_, mode, status) = match facts {
        Some(found) => {
            let yes: bool = container_readable(found, expect_dir);
            (
                Some(yes),
                Some(mode_text(found.mode)),
                if yes {
                    "ok"
                } else {
                    "not_container_readable"
                },
            )
        },
        None => (None, None, "missing"),
    };
    PreRollCheck {
        name,
        env_var,
        container_path,
        host_source,
        source_kind,
        exists: Some(facts.is_some()),
        container_readable: readable_,
        mode,
        status,
    }
}

/// Checks a mount from inside the container.
pub fn check_container_mount(mount: ContainerMountSpec, facts: Option<PathFacts>) -> (check: PreRollCheck)
    ensures
        check.name == mount.name,
        check.env_var is None,
        check.container_path == mount.container_path,
        check.host_source@ == mount.container_path@,
        check.source_kind@ == "container_path"@,
        checks_path(check, facts, mount.expect_dir),
{
    path_check(
        mount.name,
        None,
        mount.container_path,
        mount.container_path.to_owned(),
        "container_path",
        facts,
        mount.expect_dir,
    )
}

/// Checks a mount whose source is a path on the host.
pub fn check_bind_mount(mount: DockerMountSpec, path: String, facts: Option<PathFacts>) -> (check: PreRollCheck)
    ensures
        check.name == mount.name,
        check.env_var == Some(mount.env_var),
        check.container_path == mount.container_path,
        check.host_source == path,
        check.source_kind@ == "bind"@,
        checks_path(check, facts, mount.expect_dir),
{
    path_check(
        mount.name,
        Some(mount.env_var),
        mount.container_path,
        path,
        "bind",
        facts,
        mount.expect_dir,
    )
}

/// Checks a mount whose source is a named volume.
pub fn check_volume_mount(mount: DockerMountSpec, volume: String) -> (check: PreRollCheck)
    ensures
        check.name == mount.name,
        check.env_var == Some(mount.env_var),
        check.container_path == mount.container_path,
        check.host_source == volume,
        check.source_kind@ == "named_volume"@,
        check.exists is None,
        check.container_readable is None,
        check.mode is None,
        check.status@ == "ok"@,
{
    PreRollCheck {
        name: mount.name,
        env_var: Some(mount.env_var),
        container_path: mount.container_path,
        host_source: volume,
        source_kind: "named_volume",
        exists: None,
        container_readable: None,
        mode: None,
        status: "ok",
    }
}

// ---------------------------------------------------------------------------------------------
// The report
// ---------------------------------------------------------------------------------------------

/// The issue of a check.
pub open spec fn check_issue(check: PreRollCheck, in_container: bool) -> Option<IssueView> {
    let path = if in_container {
        check.container_path@
    } else {
        check.host_source@
    };
    let kind = if in_container {
        " container path "@
    } else {
        " host source "@
    };
    if check.status@ == "missing"@ {
        Some(
            IssueView {
                severity: "error"@,
                code: if in_container {
                    "container_mount_missing"@
                } else {
                    "docker_mount_missing"@
                },
                message: check.name@ + kind + path + " does not exist"@,
                path: Some(path),
            },
        )
    } else if check.status@ == "not_container_readable"@ {
        Some(
            IssueView {
                severity: "error"@,
                code: if in_container {
                    "container_mount_not_readable"@
                } else {
                    "docker_mount_not_container_readable"@
                },
                message: check.name@ + kind + path + if in_container {
                    " is not readable by the runtime user"@
                } else {
                    " is not readable by the non-root container user"@
                },
                path: Some(path),
            },
        )
    } else {
        None
    }
}

/// The issues of some checks.
pub open spec fn check_issues(checks: Seq<PreRollCheck>, in_container: bool) -> Seq<IssueView>
    decreases checks.len(),
{
    if checks.len() == 0 {
        Seq::empty()
    } else {
        let earlier = check_issues(checks.drop_last(), in_container);
        match check_issue(checks.last(), in_container) {
            Some(issue) => earlier.push(issue),
            None => earlier,
        }
    }
}

fn issue_of(check: &PreRollCheck, in_container: bool) -> (issue: Option<LintIssue>)
    ensures
        match issue {
            Some(found) => check_issue(*check, in_container) == Some(found@),
            None => check_issue(*check, in_container) is None,
        },
{
    let path = if in_container {
        check.container_path
    } else {
        check.host_source.as_str()
    };
    let kind = if in_container {
        " container path "
    } else {
        " host source "
    };
    if same_text(check.status, "missing") {
        Some(
            LintIssue {
                severity: "error",
                code: if in_container {
                    "container_mount_missing"
                } else {
                    "docker_mount_missing"
                },
                message: check.name.to_owned().concat(kind).concat(path).concat(" does not exist"),
                path: Some(path.to_owned()),
            },
        )
    } else if same_text(check.status, "not_container_readable") {
        let end = if in_container {
            " is not readable by the runtime user"
        } else {
            " is not readable by the non-root container user"
        };
        Some(
            LintIssue {
                severity: "error",
                code: if in_container {
                    "container_mount_not_readable"
                } else {
                    "docker_mount_not_container_readable"
                },
                message: check.name.to_owned().concat(kind).concat(path).concat(end),
                path: Some(path.to_owned()),
            },
        )
    } else {
        None
    }
}

/// Builds the report of the pre-roll checks.
pub fn build_pre_roll_report(checks: Vec<PreRollCheck>, in_container: bool, now: UtcInstant) -> (report: PreRollReport)
    ensures
        opt_text(report.checked_at_utc) == rfc3339_writing(now.secs, now.nanos),
        report.checks == checks,
        issue_views(report.issues@) == check_issues(checks@, in_container),
        report.ok == (check_issues(checks@, in_container).len() == 0),
{
    let mut issues: Vec<LintIssue> = Vec::new();
    let n: usize = checks.len();
    assert(issue_views(issues@) =~= check_issues(checks@.take(0), in_container));
    for i in 0..n
        invariant
            n == checks@.len(),
            issue_views(issues@) == check_issues(checks@.take(i as int), in_container),
    {
        let ghost before = issues@;
        proof {
            let next = checks@.take(i + 1);
            assert(next.drop_last() =~= checks@.take(i as int));
            assert(next.last() == checks@[i as int]);
        }
        match issue_of(&checks[i], in_container) {
            Some(issue) => {
                issues.push(issue);
                assert(issue_views(issues@) =~= issue_views(before).push(issue@));
            },
            None => {},
        }
    }
    assert(checks@.take(n as int) =~= checks@);
    assert(issue_views(issues@).len() == issues@.len());
    PreRollReport {
        checked_at_utc: instant_text(now),
        ok: issues.len() == 0,
        checks,
        issues,
    }
}

/// A path that the container cannot read is an issue.
pub proof fn unreadable_paths_are_issues(
    check: PreRollCheck,
    facts: Option<PathFacts>,
    expect_dir: bool,
    in_container: bool,
)
    requires
        checks_path(check, facts, expect_dir),
        match facts {
            Some(found) => !readable(found, expect_dir),
            None => true,
        },
    ensures
        check_issue(check, in_container) is Some,
        !(check_issues(seq![check], in_container).len() == 0),
{
    assert(seq![check].drop_last() =~= Seq::<PreRollCheck>::empty());
    assert(seq![check].last() == check);
    assert(check_issues(Seq::<PreRollCheck>::empty(), in_container).len() == 0);
}

} // verus!
