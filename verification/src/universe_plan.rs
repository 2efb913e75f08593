//! Universe plan.
use vstd::prelude::*;

use crate::calendar::instant_text;
use crate::calendar::rfc3339_writing;
use crate::calendar::UtcInstant;
use crate::evidence::chars_or;
use crate::evidence::text_or_default;
use crate::profile::AlpacaOptionsStrategyProfile;
use crate::profile::AlpacaOptionsStrategyRiskOverrides;
use crate::runtime::AlpacaOptionsRuntimeConfig;
use crate::text::copy_texts;
use crate::text::count_text;
use crate::text::decimal;
use crate::text::decimal_text;
use crate::text::join;
use crate::text::joined;
use crate::text::opt_text;
use crate::text::texts;

verus! {

/// Numbers of a plan.
#[derive(Clone, Copy, Debug, PartialEq, Eq, Structural)]
pub struct UniversePlanSummary {
    /// Universe groups.
    pub universe_groups: usize,
    /// Strategy profiles.
    pub strategy_profiles: usize,
    /// Underlyings.
    pub unique_underlyings: usize,
    /// Resolved underlyings.
    pub resolved_underlyings: usize,
    /// Intents.
    pub universe_intents: usize,
}

/// A universe group.
#[derive(Clone, Debug)]
pub struct UniverseGroupPlan {
    /// Name.
    pub name: String,
    /// Number of members.
    pub member_count: usize,
    /// Members.
    pub members: Vec<String>,
}

/// A strategy profile.
#[derive(Clone, Debug)]
pub struct StrategyProfilePlan {
    /// Profile ID.
    pub id: String,
    /// Family label.
    pub family: &'static str,
    /// Mode label.
    pub mode: &'static str,
    /// Contract quantity.
    pub quantity: u64,
    /// Universe groups.
    pub universe_groups: Vec<String>,
    /// Underlyings named by the profile itself.
    pub include_underlyings: Vec<String>,
    /// Underlyings that the profile leaves out.
    pub exclude_underlyings: Vec<String>,
    /// Number of resolved underlyings.
    pub resolved_underlying_count: usize,
    /// Resolved underlyings.
    pub resolved_underlyings: Vec<String>,
    /// Risk overrides.
    pub risk: AlpacaOptionsStrategyRiskOverrides,
}

/// What a profile wants of an underlying.
#[derive(Clone, Debug)]
pub struct UniverseIntentPlan {
    /// Profile ID.
    pub profile_id: String,
    /// Underlying symbol.
    pub underlying: String,
    /// Family label.
    pub strategy_family: String,
    /// Required sides of the chain.
    pub required_sides: String,
    /// Fewest days to expiration.
    pub min_dte: i64,
    /// Most days to expiration.
    pub max_dte: i64,
    /// How expirations are selected.
    pub selection_policy: String,
    /// Most expirations.
    pub max_expirations: usize,
}

/// The plan.
#[derive(Clone, Debug)]
pub struct UniversePlan {
    /// Time of the plan, where it has a text.
    pub checked_at_utc: Option<String>,
    /// Numbers.
    pub summary: UniversePlanSummary,
    /// Universe groups in name order.
    pub universe_groups: Vec<UniverseGroupPlan>,
    /// Strategy profiles.
    pub strategy_profiles: Vec<StrategyProfilePlan>,
    /// Intents.
    pub universe_intents: Vec<UniverseIntentPlan>,
    /// Warnings.
    pub warnings: Vec<String>,
}

/// The warnings of one profile.
pub open spec fn profile_warnings(profile: AlpacaOptionsStrategyProfile) -> Seq<Seq<char>> {
    (if profile.universe_groups@.len() == 0 {
        seq!["profile_"@ + profile.id@ + "_uses_direct_underlyings_only"@]
    } else {
        Seq::empty()
    }) + (if profile.family.undefined_risk() && profile.mode is Live {
        seq!["profile_"@ + profile.id@ + "_is_live_undefined_risk"@]
    } else {
        Seq::empty()
    })
}

/// The warnings of some profiles.
pub open spec fn all_profile_warnings(profiles: Seq<AlpacaOptionsStrategyProfile>) -> Seq<Seq<char>>
    decreases profiles.len(),
{
    if profiles.len() == 0 {
        Seq::empty()
    } else {
        all_profile_warnings(profiles.drop_last()) + profile_warnings(profiles.last())
    }
}

/// The warnings of a configuration.
pub open spec fn plan_warnings(config: AlpacaOptionsRuntimeConfig) -> Seq<Seq<char>> {
    (if config.universe_groups@.len() == 0 {
        seq!["no_universe_groups_configured"@]
    } else {
        Seq::empty()
    }) + all_profile_warnings(config.strategy_profiles@)
}

/// Returns the warnings of a configuration.
pub fn universe_plan_warnings(config: &AlpacaOptionsRuntimeConfig) -> (warnings: Vec<String>)
    ensures
        texts(warnings@) == plan_warnings(*config),
{
    let mut warnings: Vec<String> = Vec::new();
    if config.universe_groups.is_empty() {
        warnings.push("no_universe_groups_configured".to_owned());
    }
    let ghost first = texts(warnings@);
    let n: usize = config.strategy_profiles.len();
    assert(first =~= first + all_profile_warnings(config.strategy_profiles@.take(0)));
    for i in 0..n
        invariant
            n == config.strategy_profiles@.len(),
            texts(warnings@) == first + all_profile_warnings(
                config.strategy_profiles@.take(i as int),
            ),
    {
        let profile = &config.strategy_profiles[i];
        let ghost before = texts(warnings@);
        if profile.universe_groups.len() == 0 {
            warnings.push(
                "profile_".to_owned().concat(profile.id.as_str()).concat(
                    "_uses_direct_underlyings_only",
                ),
            );
        }
        if profile.family.is_undefined_risk() && !profile.is_dry_run() {
            warnings.push(
                "profile_".to_owned().concat(profile.id.as_str()).concat(
                    "_is_live_undefined_risk",
                ),
            );
        }
        proof {
            assert(texts(warnings@) =~= before + profile_warnings(*profile));
            let next = config.strategy_profiles@.take(i + 1);
            assert(next.drop_last() =~= config.strategy_profiles@.take(i as int));
            assert(next.last() == *profile);
            assert(texts(warnings@) =~= first + all_profile_warnings(next));
        }
    }
    assert(config.strategy_profiles@.take(n as int) =~= config.strategy_profiles@);
    assert(texts(warnings@) =~= plan_warnings(*config));
    warnings
}

/// Whether a plan shows a group.
pub open spec fn shows_group(plan: UniverseGroupPlan, entry: (String, Vec<String>)) -> bool {
    &&& plan.name@ == entry.0@
    &&& plan.member_count == entry.1@.len()
    &&& texts(plan.members@) == texts(entry.1@)
}

/// Whether a plan shows a profile.
pub open spec fn shows_profile(
    plan: StrategyProfilePlan,
    profile: AlpacaOptionsStrategyProfile,
) -> bool {
    &&& plan.id@ == profile.id@
    &&& plan.family@ == profile.family.label()
    &&& plan.mode@ == profile.mode.label()
    &&& plan.quantity == profile.quantity
    &&& texts(plan.universe_groups@) == texts(profile.universe_groups@)
    &&& texts(plan.include_underlyings@) == texts(profile.include_underlyings@)
    &&& texts(plan.exclude_underlyings@) == texts(profile.exclude_underlyings@)
    &&& plan.resolved_underlying_count == profile.underlyings@.len()
    &&& texts(plan.resolved_underlyings@) == texts(profile.underlyings@)
    &&& plan.risk == profile.risk
}

/// Builds the plan. `universe_intents` holds what the profiles want of their underlyings.
pub fn build_plan(
    config: &AlpacaOptionsRuntimeConfig,
    universe_intents: Vec<UniverseIntentPlan>,
    now: UtcInstant,
) -> (plan: UniversePlan)
    ensures
        opt_text(plan.checked_at_utc) == rfc3339_writing(now.secs, now.nanos),
        plan.summary == (UniversePlanSummary {
            universe_groups: config.universe_groups@.len() as usize,
            strategy_profiles: config.strategy_profiles@.len() as usize,
            unique_underlyings: config.underlyings@.len() as usize,
            resolved_underlyings: config.underlyings@.len() as usize,
            universe_intents: universe_intents@.len() as usize,
        }),
        plan.universe_groups@.len() == config.universe_groups@.len(),
        forall|i: int|
            0 <= i < plan.universe_groups@.len() ==> shows_group(
                #[trigger] plan.universe_groups@[i],
                config.universe_groups@[i],
            ),
        plan.strategy_profiles@.len() == config.strategy_profiles@.len(),
        forall|i: int|
            0 <= i < plan.strategy_profiles@.len() ==> shows_profile(
                #[trigger] plan.strategy_profiles@[i],
                config.strategy_profiles@[i],
            ),
        plan.universe_intents == universe_intents,
        texts(plan.warnings@) == plan_warnings(*config),
{
    let mut universe_groups: Vec<UniverseGroupPlan> = Vec::new();
    let groups: usize = config.universe_groups.len();
    for i in 0..groups
        invariant
            groups == config.universe_groups@.len(),
            universe_groups@.len() == i,
            forall|k: int|
                0 <= k < i ==> shows_group(
                    #[trigger] universe_groups@[k],
                    config.universe_groups@[k],
                ),
    {
        let members = config.universe_groups.value(i);
        universe_groups.push(
            UniverseGroupPlan {
                name: config.universe_groups.key(i).to_owned(),
                member_count: members.len(),
                members: copy_texts(members),
            },
        );
    }
    let mut strategy_profiles: Vec<StrategyProfilePlan> = Vec::new();
    let profiles: usize = config.strategy_profiles.len();
    for i in 0..profiles
        invariant
            profiles == config.strategy_profiles@.len(),
            strategy_profiles@.len() == i,
            forall|k: int|
                0 <= k < i ==> shows_profile(
                    #[trigger] strategy_profiles@[k],
                    config.strategy_profiles@[k],
                ),
    {
        let profile = &config.strategy_profiles[i];
        strategy_profiles.push(
            StrategyProfilePlan {
                id: profile.id.clone(),
                family: profile.family.as_str(),
                mode: profile.mode.as_str(),
                quantity: profile.quantity,
                universe_groups: copy_texts(&profile.universe_groups),
                include_underlyings: copy_texts(&profile.include_underlyings),
                exclude_underlyings: copy_texts(&profile.exclude_underlyings),
                resolved_underlying_count: profile.underlyings.len(),
                resolved_underlyings: copy_texts(&profile.underlyings),
                risk: profile.risk.copy(),
            },
        );
    }
    UniversePlan {
        checked_at_utc: instant_text(now),
        summary: UniversePlanSummary {
            universe_groups: groups,
            strategy_profiles: profiles,
            unique_underlyings: config.underlyings.len(),
            resolved_underlyings: config.underlyings.len(),
            universe_intents: universe_intents.len(),
        },
        universe_groups,
        strategy_profiles,
        universe_intents,
        warnings: universe_plan_warnings(config),
    }
}

// ---------------------------------------------------------------------------------------------
// Lines
// ---------------------------------------------------------------------------------------------

/// The first line of a plan.
pub open spec fn plan_head(plan: UniversePlan) -> Seq<char> {
    "universe_plan checked_at="@ + chars_or(opt_text(plan.checked_at_utc), "none"@) + " groups="@
        + decimal(plan.summary.universe_groups as nat) + " profiles="@ + decimal(
        plan.summary.strategy_profiles as nat,
    ) + " unique_underlyings="@ + decimal(plan.summary.unique_underlyings as nat) + " intents="@
        + decimal(plan.summary.universe_intents as nat) + " warnings="@ + decimal(
        plan.warnings@.len(),
    )
}

/// The line of a group.
pub open spec fn group_line(group: UniverseGroupPlan) -> Seq<char> {
    "group "@ + group.name@ + " members="@ + decimal(group.member_count as nat) + " ["@ + joined(
        texts(group.members@),
        ","@,
    ) + "]"@
}

/// The line of a profile.
pub open spec fn profile_line(profile: StrategyProfilePlan) -> Seq<char> {
    "profile "@ + profile.id@ + " family="@ + profile.family@ + " mode="@ + profile.mode@
        + " qty="@ + decimal(profile.quantity as nat) + " groups="@ + joined(
        texts(profile.universe_groups@),
        ","@,
    ) + " include="@ + joined(texts(profile.include_underlyings@), ","@) + " exclude="@ + joined(
        texts(profile.exclude_underlyings@),
        ","@,
    ) + " resolved="@ + decimal(profile.resolved_underlying_count as nat) + " ["@ + joined(
        texts(profile.resolved_underlyings@),
        ","@,
    ) + "]"@
}

/// All lines of a plan.
pub open spec fn plan_chars(plan: UniversePlan) -> Seq<Seq<char>> {
    seq![plan_head(plan)] + Seq::new(
        plan.universe_groups@.len(),
        |i: int| group_line(plan.universe_groups@[i]),
    ) + Seq::new(
        plan.strategy_profiles@.len(),
        |i: int| profile_line(plan.strategy_profiles@[i]),
    ) + Seq::new(plan.warnings@.len(), |i: int| "warning "@ + plan.warnings@[i]@)
}

fn head_text(plan: &UniversePlan) -> (line: String)
    ensures
        line@ == plan_head(*plan),
{
    "universe_plan checked_at=".to_owned().concat(
        text_or_default(&plan.checked_at_utc, "none").as_str(),
    ).concat(" groups=").concat(count_text(plan.summary.universe_groups).as_str()).concat(
        " profiles=",
    ).concat(count_text(plan.summary.strategy_profiles).as_str()).concat(
        " unique_underlyings=",
    ).concat(count_text(plan.summary.unique_underlyings).as_str()).concat(" intents=").concat(
        count_text(plan.summary.universe_intents).as_str(),
    ).concat(" warnings=").concat(count_text(plan.warnings.len()).as_str())
}

fn group_text(group: &UniverseGroupPlan) -> (line: String)
    ensures
        line@ == group_line(*group),
{
    "group ".to_owned().concat(group.name.as_str()).concat(" members=").concat(
        count_text(group.member_count).as_str(),
    ).concat(" [").concat(join(&group.members, ",").as_str()).concat("]")
}

fn profile_text(profile: &StrategyProfilePlan) -> (line: String)
    ensures
        line@ == profile_line(*profile),
{
    "profile ".to_owned().concat(profile.id.as_str()).concat(" family=").concat(
        profile.family,
    ).concat(" mode=").concat(profile.mode).concat(" qty=").concat(
        decimal_text(profile.quantity).as_str(),
    ).concat(" groups=").concat(join(&profile.universe_groups, ",").as_str()).concat(
        " include=",
    ).concat(join(&profile.include_underlyings, ",").as_str()).concat(" exclude=").concat(
        join(&profile.exclude_underlyings, ",").as_str(),
    ).concat(" resolved=").concat(count_text(profile.resolved_underlying_count).as_str()).concat(
        " [",
    ).concat(join(&profile.resolved_underlyings, ",").as_str()).concat("]")
}

/// Writes a plan as lines.
pub fn universe_plan_lines(plan: &UniversePlan) -> (lines: Vec<String>)
    ensures
        texts(lines@) == plan_chars(*plan),
{
    let mut lines: Vec<String> = Vec::new();
    lines.push(head_text(plan));
    let groups: usize = plan.universe_groups.len();
    let profiles: usize = plan.strategy_profiles.len();
    let warnings: usize = plan.warnings.len();
    let ghost head = texts(lines@);
    assert(head =~= seq![plan_head(*plan)]);
    assert(head =~= head + Seq::new(0, |k: int| group_line(plan.universe_groups@[k])));
    for i in 0..groups
        invariant
            groups == plan.universe_groups@.len(),
            texts(lines@) == head + Seq::new(
                i as nat,
                |k: int| group_line(plan.universe_groups@[k]),
            ),
    {
        let ghost before = lines@;
        lines.push(group_text(&plan.universe_groups[i]));
        assert(texts(lines@) =~= texts(before).push(lines@.last()@));
        assert(texts(lines@) =~= head + Seq::new(
            (i + 1) as nat,
            |k: int| group_line(plan.universe_groups@[k]),
        ));
    }
    let ghost first = texts(lines@);
    assert(first =~= first + Seq::new(0, |k: int| profile_line(plan.strategy_profiles@[k])));
    for i in 0..profiles
        invariant
            profiles == plan.strategy_profiles@.len(),
            texts(lines@) == first + Seq::new(
                i as nat,
                |k: int| profile_line(plan.strategy_profiles@[k]),
            ),
    {
        let ghost before = lines@;
        lines.push(profile_text(&plan.strategy_profiles[i]));
        assert(texts(lines@) =~= texts(before).push(lines@.last()@));
        assert(texts(lines@) =~= first + Seq::new(
            (i + 1) as nat,
            |k: int| profile_line(plan.strategy_profiles@[k]),
        ));
    }
    let ghost second = texts(lines@);
    assert(second =~= second + Seq::new(0, |k: int| "warning "@ + plan.warnings@[k]@));
    for i in 0..warnings
        invariant
            warnings == plan.warnings@.len(),
            texts(lines@) == second + Seq::new(
                i as nat,
                |k: int| "warning "@ + plan.warnings@[k]@,
            ),
    {
        let ghost before = lines@;
        lines.push("warning ".to_owned().concat(plan.warnings[i].as_str()));
        assert(texts(lines@) =~= texts(before).push(lines@.last()@));
        assert(texts(lines@) =~= second + Seq::new(
            (i + 1) as nat,
            |k: int| "warning "@ + plan.warnings@[k]@,
        ));
    }
    lines
}

} // verus!
