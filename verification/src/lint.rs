//! Configuration check.
use vstd::prelude::*;

use crate::calendar::instant_text;
use crate::calendar::rfc3339_writing;
use crate::calendar::UtcInstant;
use crate::evidence::chars_or;
use crate::evidence::text_or_default;
use crate::preroll::issue_views;
use crate::preroll::IssueView;
use crate::preroll::LintIssue;
use crate::preroll::PreRollReport;
use crate::profile::unique;
use crate::profile::unique_strategy_names;
use crate::profile::AlpacaOptionsStrategyProfile;
use crate::runtime::AlpacaOptionsRuntimeConfig;
use crate::runtime::EventShockStatus;
use crate::text::contains_part;
use crate::text::copy_opt;
use crate::text::holds_part;
use crate::text::join;
use crate::text::joined;
use crate::text::opt_text;
use crate::text::same_text;
use crate::text::slices;
use crate::text::texts;
use crate::text_set::TextSet;

verus! {

/// The report of a configuration check.
#[derive(Debug)]
pub struct ConfigLintReport {
    /// Time of the check, where it has a text.
    pub checked_at_utc: Option<String>,
    /// Whether no issue stands in the way.
    pub ok: bool,
    /// Number of issues.
    pub issue_count: usize,
    /// Issues.
    pub issues: Vec<LintIssue>,
    /// Number of universe groups.
    pub universe_groups: usize,
    /// Number of strategy profiles.
    pub strategy_profiles: usize,
    /// Profiles that submit opening orders.
    pub submitting_profiles: Vec<String>,
    /// Strategy families that submit opening orders.
    pub submitting_strategy_families: Vec<&'static str>,
    /// Pre-roll report, if one was asked for.
    pub pre_roll: Option<PreRollReport>,
}

/// One issue where a condition holds.
pub open spec fn issue_if(
    holds: bool,
    severity: Seq<char>,
    code: Seq<char>,
    message: Seq<char>,
    path: Option<Seq<char>>,
) -> Seq<IssueView> {
    if holds {
        seq![IssueView { severity, code, message, path }]
    } else {
        Seq::empty()
    }
}

fn issue_when(
    issues: &mut Vec<LintIssue>,
    holds: bool,
    severity: &'static str,
    code: &'static str,
    message: String,
    path: Option<String>,
)
    ensures
        issue_views(final(issues)@) == issue_views(old(issues)@) + issue_if(
            holds,
            severity@,
            code@,
            message@,
            opt_text(path),
        ),
{
    let ghost shown = opt_text(path);
    if holds {
        issues.push(LintIssue { severity, code, message, path });
    }
    assert(issue_views(issues@) =~= issue_views(old(issues)@) + issue_if(
        holds,
        severity@,
        code@,
        message@,
        shown,
    ));
}

// ---------------------------------------------------------------------------------------------
// Retired environment variables
// ---------------------------------------------------------------------------------------------

/// The names that are set, in order.
pub open spec fn set_names(names: Seq<Seq<char>>, set_vars: TextSet) -> Seq<Seq<char>> {
    names.filter(|name: Seq<char>| set_vars.has(name))
}

/// Retired order-capability variables.
pub open spec fn retired_order_names() -> Seq<Seq<char>> {
    seq![
        "ALPACA_SUBMIT"@,
        "ALPACA_MANAGE"@,
        "ALPACA_CLOSE"@,
        "ALPACA_KILL_SWITCH"@,
        "ALPACA_OPTIONS_LIVE_ENTRY_SUBMIT_ENABLED"@,
    ]
}

/// Retired strategy-composition variables.
pub open spec fn retired_strategy_names() -> Seq<Seq<char>> {
    seq!["ALPACA_STRATEGY_FAMILIES"@, "ALPACA_DRY_RUN_FAMILIES"@, "ALPACA_QTY"@]
}

fn keep_set_names(names: &Vec<String>, set_vars: &TextSet) -> (kept: Vec<String>)
    ensures
        texts(kept@) == set_names(texts(names@), *set_vars),
{
    let mut kept: Vec<String> = Vec::new();
    let n: usize = names.len();
    let ghost all = texts(names@);
    let ghost pass = |name: Seq<char>| set_vars.has(name);
    proof {
        reveal(Seq::filter);
        assert(texts(kept@) =~= all.take(0).filter(pass));
    }
    for i in 0..n
        invariant
            n == names@.len(),
            all == texts(names@),
            pass == (|name: Seq<char>| set_vars.has(name)),
            texts(kept@) == all.take(i as int).filter(pass),
    {
        let ghost before = kept@;
        proof {
            crate::text_set::filter_step(all, i as int, pass);
            assert(all[i as int] == names@[i as int]@);
        }
        if set_vars.contains(names[i].as_str()) {
            kept.push(names[i].clone());
            assert(texts(kept@) =~= texts(before).push(names@[i as int]@));
        }
    }
    assert(all.take(n as int) =~= all);
    kept
}

/// Returns the names of the environment variables that a check has to know of.
pub fn retired_env_var_names() -> (names: (Vec<String>, Vec<String>))
    ensures
        texts(names.0@) == retired_order_names(),
        texts(names.1@) == retired_strategy_names(),
{
    let order: Vec<String> = vec![
        "ALPACA_SUBMIT".to_owned(),
        "ALPACA_MANAGE".to_owned(),
        "ALPACA_CLOSE".to_owned(),
        "ALPACA_KILL_SWITCH".to_owned(),
        "ALPACA_OPTIONS_LIVE_ENTRY_SUBMIT_ENABLED".to_owned(),
    ];
    let strategy: Vec<String> = vec![
        "ALPACA_STRATEGY_FAMILIES".to_owned(),
        "ALPACA_DRY_RUN_FAMILIES".to_owned(),
        "ALPACA_QTY".to_owned(),
    ];
    assert(texts(order@) =~= retired_order_names());
    assert(texts(strategy@) =~= retired_strategy_names());
    (order, strategy)
}

/// The issues of retired variables that are set.
pub open spec fn retired_issues(set_vars: TextSet) -> Seq<IssueView> {
    let order = set_names(retired_order_names(), set_vars);
    let strategy = set_names(retired_strategy_names(), set_vars);
    issue_if(
        order.len() > 0,
        "error"@,
        "retired_order_capability_env_vars"@,
        "retired order capability env vars are set: "@ + joined(order, ", "@)
            + "; use ALPACA_OPEN_ORDERS and ALPACA_CLOSE_ORDERS"@,
        None,
    ) + issue_if(
        strategy.len() > 0,
        "error"@,
        "retired_strategy_composition_env_vars"@,
        "retired strategy composition env vars are set: "@ + joined(strategy, ", "@)
            + "; configure [[strategies]] blocks instead"@,
        None,
    )
}

/// Returns the issues of retired variables that are set.
pub fn retired_env_var_issues(set_vars: &TextSet) -> (issues: Vec<LintIssue>)
    ensures
        issue_views(issues@) == retired_issues(*set_vars),
{
    let (order_names, strategy_names) = retired_env_var_names();
    let order = keep_set_names(&order_names, set_vars);
    let strategy = keep_set_names(&strategy_names, set_vars);
    assert(texts(order@).len() == order@.len());
    assert(texts(strategy@).len() == strategy@.len());
    let mut issues: Vec<LintIssue> = Vec::new();
    assert(issue_views(issues@) =~= Seq::<IssueView>::empty());
    issue_when(
        &mut issues,
        order.len() > 0,
        "error",
        "retired_order_capability_env_vars",
        "retired order capability env vars are set: ".to_owned().concat(
            join(&order, ", ").as_str(),
        ).concat("; use ALPACA_OPEN_ORDERS and ALPACA_CLOSE_ORDERS"),
        None,
    );
    issue_when(
        &mut issues,
        strategy.len() > 0,
        "error",
        "retired_strategy_composition_env_vars",
        "retired strategy composition env vars are set: ".to_owned().concat(
            join(&strategy, ", ").as_str(),
        ).concat("; configure [[strategies]] blocks instead"),
        None,
    );
    assert(issue_views(issues@) =~= retired_issues(*set_vars));
    issues
}

// ---------------------------------------------------------------------------------------------
// Shape of the configuration
// ---------------------------------------------------------------------------------------------

/// The live ones of some profiles.
pub open spec fn live_profiles(profiles: Seq<AlpacaOptionsStrategyProfile>) -> Seq<
    AlpacaOptionsStrategyProfile,
> {
    profiles.filter(|profile: AlpacaOptionsStrategyProfile| profile.mode is Live)
}

/// The profiles that submit opening orders.
pub open spec fn submitting(config: AlpacaOptionsRuntimeConfig) -> Seq<AlpacaOptionsStrategyProfile> {
    if config.open_orders_enabled {
        live_profiles(config.strategy_profiles@)
    } else {
        Seq::empty()
    }
}

/// The IDs of some profiles.
pub open spec fn ids_of_profiles(profiles: Seq<AlpacaOptionsStrategyProfile>) -> Seq<Seq<char>> {
    Seq::new(profiles.len(), |i: int| profiles[i].id@)
}

/// The family labels of some profiles.
pub open spec fn labels_of_profiles(profiles: Seq<AlpacaOptionsStrategyProfile>) -> Seq<Seq<char>> {
    Seq::new(profiles.len(), |i: int| profiles[i].family.label())
}

/// Returns the IDs of the profiles that submit opening orders.
pub fn submitting_profile_ids(config: &AlpacaOptionsRuntimeConfig) -> (ids: Vec<String>)
    ensures
        texts(ids@) == ids_of_profiles(submitting(*config)),
{
    let mut ids: Vec<String> = Vec::new();
    let n: usize = config.strategy_profiles.len();
    let ghost pass = |profile: AlpacaOptionsStrategyProfile| profile.mode is Live;
    if !config.open_orders_enabled {
        assert(texts(ids@) =~= ids_of_profiles(submitting(*config)));
        return ids;
    }
    proof {
        reveal(Seq::filter);
        assert(texts(ids@) =~= ids_of_profiles(config.strategy_profiles@.take(0).filter(pass)));
    }
    for i in 0..n
        invariant
            n == config.strategy_profiles@.len(),
            pass == (|profile: AlpacaOptionsStrategyProfile| profile.mode is Live),
            texts(ids@) == ids_of_profiles(
                config.strategy_profiles@.take(i as int).filter(pass),
            ),
    {
        let profile = &config.strategy_profiles[i];
        let ghost before = ids@;
        let ghost kept = config.strategy_profiles@.take(i as int).filter(pass);
        proof {
            crate::text_set::filter_step(config.strategy_profiles@, i as int, pass);
        }
        if !profile.is_dry_run() {
            ids.push(profile.id.clone());
            assert(texts(ids@) =~= texts(before).push(profile.id@));
            assert(ids_of_profiles(kept.push(*profile)) =~= ids_of_profiles(kept).push(profile.id@));
        }
    }
    assert(config.strategy_profiles@.take(n as int) =~= config.strategy_profiles@);
    ids
}

/// Returns the strategy families that submit opening orders, each once.
pub fn submitting_strategy_family_names(config: &AlpacaOptionsRuntimeConfig) -> (names: Vec<
    &'static str,
>)
    ensures
        slices(names@) == unique(labels_of_profiles(submitting(*config))),
{
    let mut all: Vec<&'static str> = Vec::new();
    let ghost pass = |profile: AlpacaOptionsStrategyProfile| profile.mode is Live;
    if config.open_orders_enabled {
        let n: usize = config.strategy_profiles.len();
        proof {
            reveal(Seq::filter);
            assert(slices(all@) =~= labels_of_profiles(
                config.strategy_profiles@.take(0).filter(pass),
            ));
        }
        for i in 0..n
            invariant
                n == config.strategy_profiles@.len(),
                pass == (|profile: AlpacaOptionsStrategyProfile| profile.mode is Live),
                slices(all@) == labels_of_profiles(
                    config.strategy_profiles@.take(i as int).filter(pass),
                ),
        {
            let profile = &config.strategy_profiles[i];
            let ghost before = all@;
            let ghost kept = config.strategy_profiles@.take(i as int).filter(pass);
            proof {
                crate::text_set::filter_step(config.strategy_profiles@, i as int, pass);
            }
            if !profile.is_dry_run() {
                all.push(profile.strategy_name());
                assert(slices(all@) =~= slices(before).push(profile.family.label()));
                assert(labels_of_profiles(kept.push(*profile)) =~= labels_of_profiles(kept).push(
                    profile.family.label(),
                ));
            }
        }
        assert(config.strategy_profiles@.take(n as int) =~= config.strategy_profiles@);
    } else {
        assert(slices(all@) =~= labels_of_profiles(submitting(*config)));
    }
    unique_strategy_names(&all)
}

/// The issues of one profile.
pub open spec fn profile_issues(profile: AlpacaOptionsStrategyProfile) -> Seq<IssueView> {
    issue_if(
        profile.universe_groups@.len() == 0 && profile.include_underlyings@.len() > 0,
        "info"@,
        "profile_uses_direct_underlyings"@,
        "profile "@ + profile.id@
            + " resolves from direct underlyings only; consider a named universe_group when this list should be reused"@,
        Some("strategies."@ + profile.id@),
    ) + issue_if(
        profile.family.undefined_risk() && profile.mode is Live,
        "warning"@,
        "live_undefined_risk_profile"@,
        "profile "@ + profile.id@
            + " is live undefined-risk; keep this isolated behind a reviewed account/profile policy"@,
        Some("strategies."@ + profile.id@),
    ) + issue_if(
        profile.quantity == 0,
        "error"@,
        "profile_quantity_zero"@,
        "profile "@ + profile.id@ + " has zero quantity"@,
        Some("strategies."@ + profile.id@ + ".quantity"@),
    )
}

/// The issues of some profiles.
pub open spec fn all_profile_issues(profiles: Seq<AlpacaOptionsStrategyProfile>) -> Seq<IssueView>
    decreases profiles.len(),
{
    if profiles.len() == 0 {
        Seq::empty()
    } else {
        all_profile_issues(profiles.drop_last()) + profile_issues(profiles.last())
    }
}

fn push_profile_issues(issues: &mut Vec<LintIssue>, profiles: &Vec<AlpacaOptionsStrategyProfile>)
    ensures
        issue_views(final(issues)@) == issue_views(old(issues)@) + all_profile_issues(profiles@),
{
    let n: usize = profiles.len();
    let ghost start = issue_views(issues@);
    assert(start =~= start + all_profile_issues(profiles@.take(0)));
    for i in 0..n
        invariant
            n == profiles@.len(),
            issue_views(issues@) == start + all_profile_issues(profiles@.take(i as int)),
    {
        let profile = &profiles[i];
        let id = profile.id.as_str();
        issue_when(
            issues,
            profile.universe_groups.len() == 0 && profile.include_underlyings.len() > 0,
            "info",
            "profile_uses_direct_underlyings",
            "profile ".to_owned().concat(id).concat(
                " resolves from direct underlyings only; consider a named universe_group when this list should be reused",
            ),
            Some("strategies.".to_owned().concat(id)),
        );
        issue_when(
            issues,
            profile.family.is_undefined_risk() && !profile.is_dry_run(),
            "warning",
            "live_undefined_risk_profile",
            "profile ".to_owned().concat(id).concat(
                " is live undefined-risk; keep this isolated behind a reviewed account/profile policy",
            ),
            Some("strategies.".to_owned().concat(id)),
        );
        issue_when(
            issues,
            profile.quantity == 0,
            "error",
            "profile_quantity_zero",
            "profile ".to_owned().concat(id).concat(" has zero quantity"),
            Some("strategies.".to_owned().concat(id).concat(".quantity")),
        );
        proof {
            let next = profiles@.take(i + 1);
            assert(next.drop_last() =~= profiles@.take(i as int));
            assert(next.last() == *profile);
            assert(issue_views(issues@) =~= start + all_profile_issues(next));
        }
    }
    assert(profiles@.take(n as int) =~= profiles@);
}

/// One issue for each policy that blocks the runtime.
pub open spec fn policy_issues(blocks: Seq<String>) -> Seq<IssueView> {
    Seq::new(
        blocks.len(),
        |i: int|
            IssueView {
                severity: "error"@,
                code: "fleet_policy_block"@,
                message: "fleet policy blocks this runtime: "@ + blocks[i]@,
                path: Some("fleet"@),
            },
    )
}

fn push_policy_issues(issues: &mut Vec<LintIssue>, blocks: &Vec<String>)
    ensures
        issue_views(final(issues)@) == issue_views(old(issues)@) + policy_issues(blocks@),
{
    let n: usize = blocks.len();
    let ghost start = issue_views(issues@);
    assert(start =~= start + policy_issues(blocks@.take(0)));
    for i in 0..n
        invariant
            n == blocks@.len(),
            issue_views(issues@) == start + policy_issues(blocks@.take(i as int)),
    {
        issue_when(
            issues,
            true,
            "error",
            "fleet_policy_block",
            "fleet policy blocks this runtime: ".to_owned().concat(blocks[i].as_str()),
            Some("fleet".to_owned()),
        );
        assert(issue_views(issues@) =~= start + policy_issues(blocks@.take(i + 1)));
    }
    assert(blocks@.take(n as int) =~= blocks@);
}

/// What is said of an event-shock source.
pub open spec fn shock_chars(shock: EventShockStatus) -> Seq<char> {
    shock.source@ + " freshness="@ + shock.freshness@ + " reason="@ + chars_or(
        opt_text(shock.unavailable_reason),
        "none"@,
    )
}

/// The issue of the event-shock source.
pub open spec fn shock_issues(shock: EventShockStatus) -> Seq<IssueView> {
    if shock.required && shock.dry_run_only {
        issue_if(
            true,
            "error"@,
            "event_shock_required_unavailable"@,
            "required event-shock source is unavailable or stale: source="@ + shock_chars(shock),
            Some("event_shock"@),
        )
    } else {
        issue_if(
            shock.dry_run_only,
            "warning"@,
            "event_shock_dry_run_only"@,
            "event-shock is dry-run-only: source="@ + shock_chars(shock),
            Some("event_shock"@),
        )
    }
}

fn shock_text(shock: &EventShockStatus) -> (text: String)
    ensures
        text@ == shock_chars(*shock),
{
    shock.source.clone().concat(" freshness=").concat(shock.freshness.as_str()).concat(
        " reason=",
    ).concat(text_or_default(&shock.unavailable_reason, "none").as_str())
}

/// The issues of a configuration.
pub open spec fn shape_issues(config: AlpacaOptionsRuntimeConfig) -> Seq<IssueView> {
    issue_if(
        config.universe_groups@.len() == 0,
        "warning"@,
        "no_universe_groups_configured"@,
        "no reusable universe_groups are configured; profiles can still use direct underlyings, but shared static groups are harder to audit"@,
        Some("universe_groups"@),
    ) + issue_if(
        config.open_orders_enabled && submitting(config).len() == 0,
        "warning"@,
        "open_orders_enabled_without_submitting_profiles"@,
        "ALPACA_OPEN_ORDERS is enabled but no strategy profile is in live mode"@,
        Some("runtime.open_orders"@),
    ) + all_profile_issues(config.strategy_profiles@) + policy_issues(config.fleet_policy_blocks@)
        + shock_issues(config.event_shock)
}

/// Adds the issues of a configuration.
pub fn extend_config_shape_issues(config: &AlpacaOptionsRuntimeConfig, issues: &mut Vec<LintIssue>)
    ensures
        issue_views(final(issues)@) == issue_views(old(issues)@) + shape_issues(*config),
{
    let ghost start = issue_views(issues@);
    let submitting_ids = submitting_profile_ids(config);
    assert(texts(submitting_ids@).len() == submitting_ids@.len());
    issue_when(
        issues,
        config.universe_groups.is_empty(),
        "warning",
        "no_universe_groups_configured",
        "no reusable universe_groups are configured; profiles can still use direct underlyings, but shared static groups are harder to audit".to_owned(),
        Some("universe_groups".to_owned()),
    );
    issue_when(
        issues,
        config.open_orders_enabled && submitting_ids.len() == 0,
        "warning",
        "open_orders_enabled_without_submitting_profiles",
        "ALPACA_OPEN_ORDERS is enabled but no strategy profile is in live mode".to_owned(),
        Some("runtime.open_orders".to_owned()),
    );
    push_profile_issues(issues, &config.strategy_profiles);
    push_policy_issues(issues, &config.fleet_policy_blocks);
    if config.event_shock.required && config.event_shock.dry_run_only {
        issue_when(
            issues,
            true,
            "error",
            "event_shock_required_unavailable",
            "required event-shock source is unavailable or stale: source=".to_owned().concat(
                shock_text(&config.event_shock).as_str(),
            ),
            Some("event_shock".to_owned()),
        );
    } else {
        issue_when(
            issues,
            config.event_shock.dry_run_only,
            "warning",
            "event_shock_dry_run_only",
            "event-shock is dry-run-only: source=".to_owned().concat(
                shock_text(&config.event_shock).as_str(),
            ),
            Some("event_shock".to_owned()),
        );
    }
    assert(issue_views(issues@) =~= start + shape_issues(*config));
}

// ---------------------------------------------------------------------------------------------
// Errors of the configuration
// ---------------------------------------------------------------------------------------------

/// The code of a configuration error.
pub open spec fn error_code(message: Seq<char>) -> Seq<char> {
    if holds_part(message, "retired Alpaca order capability env vars"@) {
        "retired_order_capability_env_vars"@
    } else if holds_part(message, "retired Alpaca strategy composition env vars"@) {
        "retired_strategy_composition_env_vars"@
    } else if holds_part(message, "positional Alpaca underlyings are retired"@) {
        "retired_positional_underlyings"@
    } else if holds_part(message, "references unknown universe group"@) {
        "unknown_universe_group"@
    } else if holds_part(
        message,
        "requires universe_groups, underlyings, or include_underlyings"@,
    ) {
        "profile_missing_universe"@
    } else if holds_part(message, "requires at least one explicit [[strategies]] profile"@) {
        "missing_strategy_profiles"@
    } else if holds_part(message, "unknown field"@) {
        "unknown_config_field"@
    } else {
        "runtime_config_invalid"@
    }
}

/// Returns the code of a configuration error.
pub fn config_error_code(message: &str) -> (code: &'static str)
    ensures
        code@ == error_code(message@),
{
    if contains_part(message, "retired Alpaca order capability env vars") {
        "retired_order_capability_env_vars"
    } else if contains_part(message, "retired Alpaca strategy composition env vars") {
        "retired_strategy_composition_env_vars"
    } else if contains_part(message, "positional Alpaca underlyings are retired") {
        "retired_positional_underlyings"
    } else if contains_part(message, "references unknown universe group") {
        "unknown_universe_group"
    } else if contains_part(
        message,
        "requires universe_groups, underlyings, or include_underlyings",
    ) {
        "profile_missing_universe"
    } else if contains_part(message, "requires at least one explicit [[strategies]] profile") {
        "missing_strategy_profiles"
    } else if contains_part(message, "unknown field") {
        "unknown_config_field"
    } else {
        "runtime_config_invalid"
    }
}

// ---------------------------------------------------------------------------------------------
// The report
// ---------------------------------------------------------------------------------------------

/// What loading the configuration gave.
#[derive(Clone, Debug)]
pub enum LoadedConfig {
    /// The configuration.
    Loaded(AlpacaOptionsRuntimeConfig),
    /// The configuration is wrong.
    Failed {
        /// What is wrong.
        message: String,
        /// Path of the configuration file, where one is given.
        path: Option<String>,
    },
}

/// Whether an issue stands in the way.
pub open spec fn blocks_success(issue: IssueView) -> bool {
    issue.severity == "error"@ || issue.severity == "critical"@
}

/// Whether no issue stands in the way.
pub open spec fn none_blocks(issues: Seq<IssueView>) -> bool {
    forall|i: int| 0 <= i < issues.len() ==> !blocks_success(#[trigger] issues[i])
}

/// Returns whether an issue stands in the way.
pub fn issue_blocks_success(issue: &LintIssue) -> (blocks: bool)
    ensures
        blocks == blocks_success(issue@),
{
    same_text(issue.severity, "error") || same_text(issue.severity, "critical")
}

fn no_issue_blocks(issues: &Vec<LintIssue>) -> (ok: bool)
    ensures
        ok == none_blocks(issue_views(issues@)),
{
    let n: usize = issues.len();
    for i in 0..n
        invariant
            n == issues@.len(),
            forall|k: int|
                0 <= k < i ==> !blocks_success(#[trigger] issue_views(issues@)[k]),
    {
        if issue_blocks_success(&issues[i]) {
            assert(blocks_success(issue_views(issues@)[i as int]));
            return false;
        }
    }
    true
}

/// The issues of what loading the configuration gave.
pub open spec fn load_issues(loaded: LoadedConfig) -> Seq<IssueView> {
    match loaded {
        LoadedConfig::Loaded(config) => shape_issues(config),
        LoadedConfig::Failed { message, path } => issue_if(
            true,
            "error"@,
            error_code(message@),
            message@,
            opt_text(path),
        ),
    }
}

/// The issues of a pre-roll report.
pub open spec fn pre_roll_issues(pre_roll: Option<PreRollReport>) -> Seq<IssueView> {
    match pre_roll {
        Some(report) => issue_views(report.issues@),
        None => Seq::empty(),
    }
}

/// All issues of a check.
pub open spec fn all_issues(
    loaded: LoadedConfig,
    set_vars: TextSet,
    pre_roll: Option<PreRollReport>,
) -> Seq<IssueView> {
    retired_issues(set_vars) + load_issues(loaded) + pre_roll_issues(pre_roll)
}

fn push_copies(issues: &mut Vec<LintIssue>, more: &Vec<LintIssue>)
    ensures
        issue_views(final(issues)@) == issue_views(old(issues)@) + issue_views(more@),
{
    let n: usize = more.len();
    let ghost start = issue_views(issues@);
    assert(start =~= start + issue_views(more@).take(0));
    for i in 0..n
        invariant
            n == more@.len(),
            issue_views(issues@) == start + issue_views(more@).take(i as int),
    {
        let issue = &more[i];
        issue_when(
            issues,
            true,
            issue.severity,
            issue.code,
            issue.message.clone(),
            copy_opt(&issue.path),
        );
        assert(issue_views(issues@) =~= start + issue_views(more@).take(i + 1));
    }
    assert(issue_views(more@).take(n as int) =~= issue_views(more@));
}

/// Builds the report of a configuration check. `set_vars` holds the environment variables that are
/// set.
pub fn build_config_lint_report(
    loaded: &LoadedConfig,
    set_vars: &TextSet,
    pre_roll: Option<PreRollReport>,
    now: UtcInstant,
) -> (report: ConfigLintReport)
    ensures
        opt_text(report.checked_at_utc) == rfc3339_writing(now.secs, now.nanos),
        report.pre_roll == pre_roll,
        issue_views(report.issues@) == all_issues(*loaded, *set_vars, pre_roll),
        report.issue_count == report.issues@.len(),
        report.ok == none_blocks(issue_views(report.issues@)),
        match *loaded {
            LoadedConfig::Loaded(config) => {
                &&& report.universe_groups == config.universe_groups@.len()
                &&& report.strategy_profiles == config.strategy_profiles@.len()
                &&& texts(report.submitting_profiles@) == ids_of_profiles(submitting(config))
                &&& slices(report.submitting_strategy_families@) == unique(
                    labels_of_profiles(submitting(config)),
                )
            },
            LoadedConfig::Failed { .. } => {
                &&& report.universe_groups == 0
                &&& report.strategy_profiles == 0
                &&& report.submitting_profiles@.len() == 0
                &&& report.submitting_strategy_families@.len() == 0
            },
        },
{
    let mut issues = retired_env_var_issues(set_vars);
    let mut universe_groups: usize = 0;
    let mut strategy_profiles: usize = 0;
    let mut submitting_profiles: Vec<String> = Vec::new();
    let mut submitting_strategy_families: Vec<&'static str> = Vec::new();
    match loaded {
        LoadedConfig::Loaded(config) => {
            universe_groups = config.universe_groups.len();
            strategy_profiles = config.strategy_profiles.len();
            submitting_profiles = submitting_profile_ids(config);
            submitting_strategy_families = submitting_strategy_family_names(config);
            extend_config_shape_issues(config, &mut issues);
        },
        LoadedConfig::Failed { message, path } => {
            issue_when(
                &mut issues,
                true,
                "error",
                config_error_code(message.as_str()),
                message.clone(),
                copy_opt(path),
            );
        },
    }
    match &pre_roll {
        Some(report) => push_copies(&mut issues, &report.issues),
        None => {},
    }
    assert(issue_views(issues@) =~= all_issues(*loaded, *set_vars, pre_roll));
    ConfigLintReport {
        checked_at_utc: instant_text(now),
        ok: no_issue_blocks(&issues),
        issue_count: issues.len(),
        issues,
        universe_groups,
        strategy_profiles,
        submitting_profiles,
        submitting_strategy_families,
        pre_roll,
    }
}

/// A configuration that does not load never passes the check.
pub proof fn failed_loads_never_pass(
    message: String,
    path: Option<String>,
    set_vars: TextSet,
    pre_roll: Option<PreRollReport>,
)
    ensures
        !none_blocks(all_issues(LoadedConfig::Failed { message, path }, set_vars, pre_roll)),
{
    let loaded = LoadedConfig::Failed { message, path };
    let all = all_issues(loaded, set_vars, pre_roll);
    let at = retired_issues(set_vars).len() as int;
    assert(all[at] == load_issues(loaded)[0]);
    assert(blocks_success(all[at]));
}

/// A retired environment variable that is set never passes the check.
pub proof fn retired_variables_never_pass(
    loaded: LoadedConfig,
    set_vars: TextSet,
    pre_roll: Option<PreRollReport>,
    name: Seq<char>,
)
    requires
        set_vars.has(name),
        retired_order_names().contains(name) || retired_strategy_names().contains(name),
    ensures
        !none_blocks(all_issues(loaded, set_vars, pre_roll)),
{
    let pass = |name: Seq<char>| set_vars.has(name);
    retired_order_names().filter_lemma(pass);
    retired_strategy_names().filter_lemma(pass);
    assert(pass(name));
    let order = set_names(retired_order_names(), set_vars);
    let strategy = set_names(retired_strategy_names(), set_vars);
    assert(order.contains(name) || strategy.contains(name));
    assert(order.len() > 0 || strategy.len() > 0);
    let all = all_issues(loaded, set_vars, pre_roll);
    assert(all[0] == retired_issues(set_vars)[0]);
    assert(blocks_success(all[0]));
}

} // verus!
