//! Laws of profiles, runtime settings and command lines.
use vstd::prelude::*;

use crate::admission::EntryAdmissionConfig;
use crate::arguments::integer_in;
use crate::arguments::meaning;
use crate::arguments::ArgsErrorView;
use crate::arguments::OptionSet;
use crate::arguments::ParsedArgs;
use crate::chain::fresh_positions;
use crate::chain::in_series;
use crate::chain::OptionSeries;
use crate::chain::SeriesInstrument;
use crate::engine_pass::iteration_after;
use crate::management::AlpacaOptionsManagementConfig;
use crate::operator_config::follows_runtime;
use crate::operator_config::log_path_of;
use crate::operator_config::AccountRuntimeDefaults;
use crate::operator_config::OperatorEnvironment;
use crate::profile::credit_kind;
use crate::profile::debit_kind;
use crate::profile::family_named;
use crate::profile::mode_named;
use crate::profile::naked_kind;
use crate::profile::plain_label;
use crate::profile::AlpacaOptionsStrategyFamily;
use crate::profile::AlpacaOptionsStrategyMode;
use crate::profile::AlpacaOptionsStrategyProfile;
use crate::runtime::account_id_after;
use crate::runtime::admission_of;
use crate::runtime::dry_run_profiles;
use crate::runtime::management_of;
use crate::runtime::AlpacaOptionsRuntimeConfig;
use crate::scan_actor::unsubscribed_positions;
use crate::status::OperatorConfig;
use crate::text::lower;
use crate::text::texts;
use crate::text::trimmed;
use crate::text_set::TextSet;
use crate::universe_plan::plan_warnings;
use crate::universe_plan::profile_warnings;

verus! {

// ---------------------------------------------------------------------------------------------
// Names
// ---------------------------------------------------------------------------------------------

/// A mode is read by its names, in any case of letters and with any space around it; other names are
/// none.
pub proof fn modes_are_read_by_their_names(value: Seq<char>)
    ensures
        ({
            let name = lower(trimmed(value));
            let live = name == "live"@ || name == "enabled"@ || name == "submit"@;
            let dry = name == "dry_run"@ || name == "dry-run"@ || name == "watchlist"@ || name
                == "paper_watch"@;
            &&& mode_named(value) == Some(AlpacaOptionsStrategyMode::Live) <==> live
            &&& mode_named(value) == Some(AlpacaOptionsStrategyMode::DryRun) <==> dry && !live
            &&& mode_named(value) is None <==> !live && !dry
        }),
{
}

/// Two writings that differ in the case of letters or in the space around them name the same.
pub proof fn case_and_space_do_not_matter(a: Seq<char>, b: Seq<char>)
    requires
        lower(trimmed(a)) == lower(trimmed(b)),
    ensures
        mode_named(a) == mode_named(b),
        family_named(a) == family_named(b),
        plain_label(a) == plain_label(b),
{
}

proof fn family_names_differ()
    ensures
        "put"@.len() == 3,
        "put_credit"@.len() == 10,
        "call"@.len() == 4,
        "call_credit"@.len() == 11,
        "iron_condor"@.len() == 11,
        "condor"@.len() == 6,
        "put_debit"@.len() == 9,
        "earnings_put_debit_entry"@.len() == 24,
        "call_debit"@.len() == 10,
        "earnings_call_debit_entry"@.len() == 25,
        "naked_put"@.len() == 9,
        "short_put"@.len() == 9,
        "naked_call"@.len() == 10,
        "short_call"@.len() == 10,
        "naked_put_1_3dte"@.len() == 16,
        "short_put_1_3dte"@.len() == 16,
        "naked_call_1_3dte"@.len() == 17,
        "short_call_1_3dte"@.len() == 17,
        "put_credit"@[0] == 'p',
        "call_credit"@[0] == 'c',
        "iron_condor"@[0] == 'i',
        "put_debit"@[0] == 'p',
        "call_debit"@[0] == 'c',
        "naked_put"@[0] == 'n',
        "short_put"@[0] == 's',
        "naked_call"@[0] == 'n',
        "short_call"@[0] == 's',
{
    reveal_strlit("put");
    reveal_strlit("put_credit");
    reveal_strlit("call");
    reveal_strlit("call_credit");
    reveal_strlit("iron_condor");
    reveal_strlit("condor");
    reveal_strlit("put_debit");
    reveal_strlit("earnings_put_debit_entry");
    reveal_strlit("call_debit");
    reveal_strlit("earnings_call_debit_entry");
    reveal_strlit("naked_put");
    reveal_strlit("short_put");
    reveal_strlit("naked_call");
    reveal_strlit("short_call");
    reveal_strlit("naked_put_1_3dte");
    reveal_strlit("short_put_1_3dte");
    reveal_strlit("naked_call_1_3dte");
    reveal_strlit("short_call_1_3dte");
}

/// A family is read by its own name and its other one, and by no other.
pub proof fn families_are_read_by_their_names(value: Seq<char>)
    ensures
        ({
            let name = lower(trimmed(value));
            let family = family_named(value);
            &&& name == "put"@ || name == "put_credit"@ <==> family == Some(
                AlpacaOptionsStrategyFamily::PutCredit,
            )
            &&& name == "call"@ || name == "call_credit"@ <==> family == Some(
                AlpacaOptionsStrategyFamily::CallCredit,
            )
            &&& name == "iron_condor"@ || name == "condor"@ <==> family == Some(
                AlpacaOptionsStrategyFamily::IronCondor,
            )
            &&& name == "put_debit"@ || name == "earnings_put_debit_entry"@ <==> family == Some(
                AlpacaOptionsStrategyFamily::PutDebit,
            )
            &&& name == "call_debit"@ || name == "earnings_call_debit_entry"@ <==> family == Some(
                AlpacaOptionsStrategyFamily::CallDebit,
            )
            &&& name == "naked_put"@ || name == "short_put"@ <==> family == Some(
                AlpacaOptionsStrategyFamily::NakedPut,
            )
            &&& name == "naked_call"@ || name == "short_call"@ <==> family == Some(
                AlpacaOptionsStrategyFamily::NakedCall,
            )
            &&& name == "naked_put_1_3dte"@ || name == "short_put_1_3dte"@ <==> family == Some(
                AlpacaOptionsStrategyFamily::NakedPutOneToThreeDte,
            )
            &&& name == "naked_call_1_3dte"@ || name == "short_call_1_3dte"@ <==> family == Some(
                AlpacaOptionsStrategyFamily::NakedCallOneToThreeDte,
            )
        }),
{
    family_names_differ();
}

/// A family trades one sort of candidate, and its label is the strategy name of that sort.
pub proof fn families_trade_what_they_are_named_for(family: AlpacaOptionsStrategyFamily)
    ensures
        credit_kind(family) matches Some(kind) ==> family.label() == crate::candidates::credit_name(
            kind,
        ),
        debit_kind(family) matches Some(kind) ==> family.label() == crate::candidates::debit_name(
            kind,
        ),
        naked_kind(family) matches Some(kind) ==> family.label() == crate::candidates::naked_name(
            kind,
        ),
        family is PutCredit || family is CallCredit <==> credit_kind(family) is Some,
        family is PutDebit || family is CallDebit <==> debit_kind(family) is Some,
        family.undefined_risk() <==> naked_kind(family) is Some,
        naked_kind(family) is Some <==> !(family is IronCondor) && credit_kind(family) is None
            && debit_kind(family) is None,
{
}

// ---------------------------------------------------------------------------------------------
// Settings
// ---------------------------------------------------------------------------------------------

/// Each limit and switch of the runtime is the one that admission goes by.
pub proof fn admission_goes_by_the_runtime(
    config: EntryAdmissionConfig,
    engine: AlpacaOptionsRuntimeConfig,
)
    requires
        admission_of(config, engine),
    ensures
        config.submit_enabled == engine.open_orders_enabled,
        config.kill_switch == engine.kill_switch,
        config.ignore_entry_window == engine.ignore_entry_window,
        config.entry_window.start == engine.entry_start,
        config.entry_window.end == engine.entry_end,
        config.entry_window.zone@ == engine.entry_timezone@,
        config.max_active_entries == engine.max_active_entries,
        config.max_daily_submits == engine.max_daily_submits,
        config.max_open_orders == engine.max_open_orders,
        config.max_active_entries_per_underlying == engine.max_active_entries_per_underlying,
        config.max_active_entries_per_sector == engine.max_active_entries_per_sector,
        config.quantity == engine.quantity,
        config.max_single_entry_risk_capital_usd == engine.max_single_entry_risk_capital_usd,
        config.max_portfolio_risk_capital_usd == engine.max_portfolio_risk_capital_usd,
        config.block_unestimated_risk_capital == engine.block_unestimated_risk_capital,
        config.event_shock_earnings_events@ == engine.event_shock_earnings_events@,
        config.event_shock_block_days_before_earnings
            == engine.event_shock_block_days_before_earnings,
        config.event_shock_block_days_after_earnings
            == engine.event_shock_block_days_after_earnings,
        config.sectors@ == engine.sectors@,
        engine.fleet matches Some(fleet) ==> config.fleet_max_active_entries
            == fleet.max_active_entries && config.fleet_active_entries == fleet.active_entries
            && config.fleet_max_active_entries_per_underlying
            == fleet.max_active_entries_per_underlying && config.fleet_max_active_entries_per_sector
            == fleet.max_active_entries_per_sector
            && config.fleet_active_entries_by_underlying@ == fleet.active_entries_by_underlying@
            && config.fleet_active_entries_by_sector@ == fleet.active_entries_by_sector@
            && config.fleet_sectors@ == fleet.sectors@,
        engine.fleet is None ==> config.fleet_max_active_entries is None
            && config.fleet_max_active_entries_per_underlying is None
            && config.fleet_max_active_entries_per_sector is None,
        forall|i: int|
            0 <= i < engine.strategy_profiles@.len() && (
            #[trigger] engine.strategy_profiles@[i]).mode is DryRun
                ==> config.dry_run_strategy_family_names.has(
                engine.strategy_profiles@[i].family.label(),
            ),
        forall|name: Seq<char>|
            #[trigger] config.dry_run_strategy_family_names.has(name) ==> exists|i: int|
                0 <= i < engine.strategy_profiles@.len() && (
                #[trigger] engine.strategy_profiles@[i]).mode is DryRun
                    && engine.strategy_profiles@[i].family.label() == name,
{
    assert forall|i: int|
        0 <= i < engine.strategy_profiles@.len() && (
        #[trigger] engine.strategy_profiles@[i]).mode is DryRun implies config.dry_run_strategy_family_names.has(
        engine.strategy_profiles@[i].family.label(),
    ) by {
        assert(crate::runtime::is_dry_run_label(
            engine.strategy_profiles@,
            engine.strategy_profiles@[i].family.label(),
        ));
    }
}

/// Each threshold and switch of the runtime is the one that management goes by.
pub proof fn management_goes_by_the_runtime(
    config: AlpacaOptionsManagementConfig,
    engine: AlpacaOptionsRuntimeConfig,
)
    requires
        management_of(config, engine),
    ensures
        config.interval_secs == engine.interval_secs,
        config.close_orders_enabled == engine.close_orders_enabled,
        config.close_order_mode == engine.close_order_mode,
        config.force_flatten == engine.force_flatten,
        config.stale_entry_secs == engine.stale_entry_secs,
        config.stale_close_secs == engine.stale_close_secs,
        config.close_regular_hours_only == engine.close_regular_hours_only,
        config.close_window.start == engine.close_start,
        config.close_window.end == engine.close_end,
        config.close_window.zone@ == engine.entry_timezone@,
        config.close_price_cushion == engine.close_price_cushion,
        config.close_reprice_step == engine.close_reprice_step,
        config.max_close_price_cushion == engine.max_close_price_cushion,
        config.max_close_attempts == engine.max_close_attempts,
        config.close_reprice_cooldown_secs == engine.close_reprice_cooldown_secs,
        config.active_risk_candidate_quote_limit == engine.active_risk_candidate_quote_limit,
        config.active_risk_quote_stale_secs == engine.active_risk_quote_stale_secs,
        config.profit_target_close_fraction == engine.profit_target_close_fraction,
        config.stop_loss_close_multiple == engine.stop_loss_close_multiple,
        config.max_hold_secs == engine.max_hold_secs,
        config.expiration_exit_days == engine.expiration_exit_days,
{
}

/// The thresholds of credit entries are those of management.
pub proof fn credit_entries_go_by_management(config: AlpacaOptionsManagementConfig)
    ensures
        config.credit_part().force_flatten == config.force_flatten,
        config.credit_part().max_hold_secs == config.max_hold_secs,
        config.credit_part().expiration_exit_days == config.expiration_exit_days,
        config.credit_part().profit_target_close_fraction == config.profit_target_close_fraction,
        config.credit_part().stop_loss_close_multiple == config.stop_loss_close_multiple,
{
}

/// The operator sees the limits that the runtime goes by.
pub proof fn operators_see_the_runtime(
    config: OperatorConfig,
    engine: AlpacaOptionsRuntimeConfig,
)
    requires
        follows_runtime(config, engine),
    ensures
        config.max_active_entries == engine.max_active_entries,
        config.max_daily_submits == engine.max_daily_submits,
        config.max_open_orders == engine.max_open_orders,
        config.max_active_entries_per_underlying == engine.max_active_entries_per_underlying,
        config.max_active_entries_per_sector == engine.max_active_entries_per_sector,
        config.max_close_attempts == engine.max_close_attempts,
        config.open_orders_enabled == engine.open_orders_enabled,
        config.close_orders_enabled == engine.close_orders_enabled,
        engine.stale_entry_secs <= i64::MAX ==> config.stale_order_secs == engine.stale_entry_secs,
        config.fleet_account_id == engine.fleet_account_id,
        config.sectors@ == engine.sectors@,
        texts(config.fleet_policy_blocks@) == texts(engine.fleet_policy_blocks@),
        forall|name: Seq<char>|
            #[trigger] texts(config.dry_run_families@).contains(name) <==> exists|i: int|
                0 <= i < engine.strategy_profiles@.len() && (
                #[trigger] engine.strategy_profiles@[i]).mode is DryRun
                    && engine.strategy_profiles@[i].family.label() == name,
{
    let profiles = engine.strategy_profiles@;
    let tried = dry_run_profiles(profiles);
    let labels = crate::profile::family_labels(tried);
    crate::profile::unique_keeps_every_name_once(labels);
    assert forall|p: AlpacaOptionsStrategyProfile| #[trigger] tried.contains(p) <==> profiles.contains(
        p,
    ) && p.mode is DryRun by {
        crate::text_set::filter_has(
            profiles,
            |q: AlpacaOptionsStrategyProfile| q.mode is DryRun,
            p,
        );
    }
    assert forall|name: Seq<char>|
        #[trigger] texts(config.dry_run_families@).contains(name) <==> exists|i: int|
            0 <= i < profiles.len() && (#[trigger] profiles[i]).mode is DryRun
                && profiles[i].family.label() == name by {
        if labels.contains(name) {
            let k = labels.index_of(name);
            assert(tried.contains(tried[k]));
            assert(profiles[profiles.index_of(tried[k])] == tried[k]);
        }
        if exists|i: int|
            0 <= i < profiles.len() && (#[trigger] profiles[i]).mode is DryRun
                && profiles[i].family.label() == name {
            let i = choose|i: int|
                0 <= i < profiles.len() && (#[trigger] profiles[i]).mode is DryRun
                    && profiles[i].family.label() == name;
            assert(profiles.contains(profiles[i]));
            assert(tried.contains(profiles[i]));
            assert(labels[tried.index_of(profiles[i])] == name);
        }
    }
}

/// The account is the one that is set, else the first name that is more than space, else the second.
pub proof fn accounts_are_named_in_order(
    current: Option<Seq<char>>,
    first: Option<Seq<char>>,
    second: Option<Seq<char>>,
)
    ensures
        ({
            let named = |name: Option<Seq<char>>| name matches Some(text) && trimmed(text).len() > 0;
            let found = account_id_after(current, first, second);
            &&& current is Some ==> found == current
            &&& current is None && named(first) ==> found == first
            &&& current is None && !named(first) && named(second) ==> found == second
            &&& current is None && !named(first) && !named(second) ==> found is None
        }),
{
}

/// The log lies in the directory of its own variable, else in that of the account, else in the state
/// directory of the user.
pub proof fn logs_lie_where_they_are_sent(
    env: OperatorEnvironment,
    defaults: Option<AccountRuntimeDefaults>,
)
    ensures
        ({
            let fleet = match defaults {
                Some(found) => found.log_dir,
                None => None,
            };
            let under = |dir: Seq<char>, name: Seq<char>|
                if dir.len() == 0 || dir.last() == '/' {
                    dir + name
                } else {
                    dir + "/"@ + name
                };
            let base = if env.state_home is Some {
                env.state_home->0@
            } else {
                under(
                    if env.home is Some {
                        env.home->0@
                    } else {
                        "."@
                    },
                    ".local/state"@,
                )
            };
            let dir = if env.log_dir is Some {
                env.log_dir->0@
            } else if fleet is Some {
                fleet->0@
            } else {
                under(under(base, "nautilus_trader"@), "logs"@)
            };
            log_path_of(env, defaults) == under(dir, "alpaca-options.log"@)
        }),
{
}

// ---------------------------------------------------------------------------------------------
// Universe plans
// ---------------------------------------------------------------------------------------------

/// A profile is warned of once for having no universe group, and once for being live with undefined
/// risk.
pub proof fn profiles_are_warned_of(profile: AlpacaOptionsStrategyProfile)
    ensures
        ({
            let warnings = profile_warnings(profile);
            let direct = profile.universe_groups@.len() == 0;
            let naked = naked_kind(profile.family) is Some && profile.mode is Live;
            &&& warnings.len() == super::operator::one_if(direct) + super::operator::one_if(naked)
            &&& direct ==> warnings.contains(
                "profile_"@ + profile.id@ + "_uses_direct_underlyings_only"@,
            )
            &&& naked ==> warnings.contains("profile_"@ + profile.id@ + "_is_live_undefined_risk"@)
        }),
{
    let warnings = profile_warnings(profile);
    let direct = profile.universe_groups@.len() == 0;
    if direct {
        assert(warnings[0] == "profile_"@ + profile.id@ + "_uses_direct_underlyings_only"@);
    }
    if naked_kind(profile.family) is Some && profile.mode is Live {
        assert(warnings[super::operator::one_if(direct)] == "profile_"@ + profile.id@
            + "_is_live_undefined_risk"@);
    }
}

/// A plan warns of a universe without groups, and of each profile.
pub proof fn plans_warn_of_every_profile(config: AlpacaOptionsRuntimeConfig, i: int, w: int)
    requires
        0 <= i < config.strategy_profiles@.len(),
        0 <= w < profile_warnings(config.strategy_profiles@[i]).len(),
    ensures
        plan_warnings(config).contains(profile_warnings(config.strategy_profiles@[i])[w]),
        config.universe_groups@.len() == 0 ==> plan_warnings(config).contains(
            "no_universe_groups_configured"@,
        ),
{
    let profiles = config.strategy_profiles@;
    let all = crate::universe_plan::all_profile_warnings(profiles);
    profile_is_warned_of(profiles, i, w);
    let line = profile_warnings(profiles[i])[w];
    let whole = plan_warnings(config);
    let head = super::operator::one_if(config.universe_groups@.len() == 0);
    assert(whole[head + all.index_of(line)] == line);
    if head > 0 {
        assert(whole[0] == "no_universe_groups_configured"@);
    }
}

proof fn profile_is_warned_of(profiles: Seq<AlpacaOptionsStrategyProfile>, i: int, w: int)
    requires
        0 <= i < profiles.len(),
        0 <= w < profile_warnings(profiles[i]).len(),
    ensures
        crate::universe_plan::all_profile_warnings(profiles).contains(
            profile_warnings(profiles[i])[w],
        ),
    decreases profiles.len(),
{
    let rest = profiles.drop_last();
    let before = crate::universe_plan::all_profile_warnings(rest);
    let all = crate::universe_plan::all_profile_warnings(profiles);
    let line = profile_warnings(profiles[i])[w];
    if i == profiles.len() - 1 {
        assert(all[before.len() + w] == line);
    } else {
        assert(rest[i] == profiles[i]);
        profile_is_warned_of(rest, i, w);
        assert(all[before.index_of(line)] == line);
    }
}

// ---------------------------------------------------------------------------------------------
// Command lines
// ---------------------------------------------------------------------------------------------

/// A command line is read from left to right: each argument is taken by its name where the command has
/// it, a lookback takes the next argument as its number, a call for help ends the reading, and what the
/// command does not know is refused.
pub proof fn arguments_are_read_from_left_to_right(
    options: OptionSet,
    args: Seq<Seq<char>>,
    at: int,
    so_far: ParsedArgs,
)
    requires
        0 <= at < args.len(),
    ensures
        ({
            let read = meaning(options, args, at, so_far);
            let arg = args[at];
            let lookback = (options.since_secs && arg == "--since-secs"@) || (
            options.scanner_since_secs && arg == "--scanner-since-secs"@);
            let mounts = options.pre_roll && arg == "--pre-roll"@;
            &&& arg == "--json"@ ==> read == meaning(
                options,
                args,
                at + 1,
                (ParsedArgs { json_output: true, ..so_far }),
            )
            &&& mounts ==> read == meaning(
                options,
                args,
                at + 1,
                (ParsedArgs { pre_roll: true, ..so_far }),
            )
            &&& lookback && at + 1 == args.len() ==> read == Err::<ParsedArgs, ArgsErrorView>(
                ArgsErrorView::MissingValue,
            )
            &&& lookback && at + 1 < args.len() ==> match integer_in(args[at + 1]) {
                Some(n) => {
                    &&& n >= 0 ==> read == meaning(
                        options,
                        args,
                        at + 2,
                        (ParsedArgs { since_secs: n as i64, ..so_far }),
                    )
                    &&& n < 0 ==> read == meaning(
                        options,
                        args,
                        at + 2,
                        (ParsedArgs { since_secs: 0, ..so_far }),
                    )
                },
                None => read == Err::<ParsedArgs, ArgsErrorView>(
                    ArgsErrorView::BadNumber(args[at + 1]),
                ),
            }
            &&& arg == "--help"@ || arg == "-h"@ ==> read == Ok::<ParsedArgs, ArgsErrorView>(
                ParsedArgs { help: true, ..so_far },
            )
            &&& arg != "--json"@ && !mounts && !lookback && arg != "--help"@ && arg != "-h"@ ==> read
                == Err::<ParsedArgs, ArgsErrorView>(ArgsErrorView::Unknown(arg))
        }),
        meaning(options, args, args.len() as int, so_far) == Ok::<ParsedArgs, ArgsErrorView>(so_far),
{
    reveal_strlit("--json");
    reveal_strlit("--pre-roll");
    reveal_strlit("--since-secs");
    reveal_strlit("--scanner-since-secs");
    reveal_strlit("--help");
    reveal_strlit("-h");
    assert("--json"@.len() == 6);
    assert("--help"@.len() == 6);
    assert("--json"@[2] == 'j');
    assert("--help"@[2] == 'h');
    assert("-h"@.len() == 2);
    assert("--pre-roll"@.len() == 10);
    assert("--since-secs"@.len() == 12);
    assert("--scanner-since-secs"@.len() == 20);
}

// ---------------------------------------------------------------------------------------------
// Iterations and series
// ---------------------------------------------------------------------------------------------

/// Iterations go on for ever without a limit, and with one until it is reached.
pub proof fn iterations_go_on_to_their_limit(iteration: u64, limit: u64)
    ensures
        iteration_after(iteration, limit) is None <==> 0 < limit <= iteration,
        iteration_after(iteration, limit) matches Some(next) ==> (iteration < u64::MAX ==> next
            == iteration + 1),
{
}

/// Whether a series is the first of its ID.
pub open spec fn first_of_its_id(series: Seq<OptionSeries>, at: int) -> bool {
    forall|k: int| 0 <= k < at ==> (#[trigger] series[k]).id@ != series[at].id@
}

/// At the start exactly the series that are not subscribed to yet are subscribed to, each ID once.
pub proof fn every_new_series_is_subscribed_to(
    series: Seq<OptionSeries>,
    subscribed: TextSet,
    n: nat,
    at: int,
)
    requires
        0 <= at < n <= series.len() <= usize::MAX,
    ensures
        unsubscribed_positions(series, subscribed, n).contains(at as usize) <==> !subscribed.has(
            series[at].id@,
        ) && first_of_its_id(series, at),
    decreases n,
{
    let m = (n - 1) as nat;
    let before = unsubscribed_positions(series, subscribed, m);
    let all = unsubscribed_positions(series, subscribed, n);
    let last = series[n - 1].id@;
    if crate::scan_actor::listed_before(series, last, n - 1) {
        let k = choose|k: int| 0 <= k < n - 1 && k < series.len() && (#[trigger] series[k]).id@ == last;
        assert(series[k].id@ == last);
    }
    assert(crate::scan_actor::listed_before(series, last, n - 1) == !first_of_its_id(series, n - 1));
    if at < n - 1 {
        every_new_series_is_subscribed_to(series, subscribed, m, at);
        if before.contains(at as usize) {
            assert(all[before.index_of(at as usize)] == at as usize);
        }
        if all.contains(at as usize) {
            let k = all.index_of(at as usize);
            if k < before.len() {
                assert(before[k] == at as usize);
            }
        }
    } else {
        if before.contains(at as usize) {
            crate::scan_actor::series_are_subscribed_once(
                series,
                subscribed,
                m,
                before.index_of(at as usize),
            );
        }
        if all.len() > before.len() {
            assert(all[before.len() as int] == at as usize);
        }
        if all.contains(at as usize) && all.len() == before.len() {
            assert(all == before);
        }
    }
}

/// An instrument subscribes only to series that it belongs to and that are not subscribed to yet.
pub proof fn instruments_subscribe_to_their_series(
    series: Seq<OptionSeries>,
    instrument: SeriesInstrument,
    subscribed: TextSet,
    n: nat,
    at: int,
)
    requires
        n <= series.len() <= usize::MAX,
        0 <= at < fresh_positions(series, instrument, subscribed, n).len(),
    ensures
        ({
            let found = fresh_positions(series, instrument, subscribed, n)[at] as int;
            &&& 0 <= found < n
            &&& in_series(instrument, series[found])
            &&& !subscribed.has(series[found].id@)
        }),
    decreases n,
{
    if n > 0 {
        let before = fresh_positions(series, instrument, subscribed, (n - 1) as nat);
        if at < before.len() {
            instruments_subscribe_to_their_series(
                series,
                instrument,
                subscribed,
                (n - 1) as nat,
                at,
            );
        }
    }
}

/// A series that an instrument belongs to and that is not subscribed to yet is subscribed to, where it is
/// the first of its ID.
pub proof fn instruments_open_their_series(
    series: Seq<OptionSeries>,
    instrument: SeriesInstrument,
    subscribed: TextSet,
    n: nat,
    at: int,
)
    requires
        0 <= at < n <= series.len() <= usize::MAX,
        in_series(instrument, series[at]),
        !subscribed.has(series[at].id@),
        first_of_its_id(series, at),
    ensures
        fresh_positions(series, instrument, subscribed, n).contains(at as usize),
    decreases n,
{
    let before = fresh_positions(series, instrument, subscribed, (n - 1) as nat);
    let all = fresh_positions(series, instrument, subscribed, n);
    if at < n - 1 {
        instruments_open_their_series(series, instrument, subscribed, (n - 1) as nat, at);
        assert(all[before.index_of(at as usize)] == at as usize);
    } else {
        assert(all[before.len() as int] == at as usize);
    }
}

} // verus!
