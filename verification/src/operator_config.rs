//! Configuration of the status command.
use vstd::prelude::*;

use crate::calendar::date_before;
use crate::calendar::date_chars;
use crate::calendar::date_text;
use crate::calendar::lies_before;
use crate::calendar::CalendarDate;
use crate::profile::family_labels;
use crate::profile::unique;
use crate::runtime::dry_run_profiles;
use crate::runtime::AlpacaOptionsRuntimeConfig;
use crate::status::OperationalStoreStatus;
use crate::status::OperatorConfig;
use crate::status::StrategyStateMetadata;
use crate::text::copy_opt;
use crate::text::copy_texts;
use crate::text::owned;
use crate::text::texts;

verus! {

/// What the environment says.
#[derive(Clone, Debug)]
pub struct OperatorEnvironment {
    /// Service name.
    pub service: Option<String>,
    /// Directory of logs.
    pub log_dir: Option<String>,
    /// Directory of lock files.
    pub lock_dir: Option<String>,
    /// Directory of states.
    pub state_home: Option<String>,
    /// Home directory.
    pub home: Option<String>,
}

/// What the fleet says of the account.
#[derive(Clone, Debug)]
pub struct AccountRuntimeDefaults {
    /// Service name.
    pub service_name: String,
    /// Directory of logs.
    pub log_dir: Option<String>,
    /// Directory of lock files.
    pub lock_dir: Option<String>,
}

/// What the operational store says.
#[derive(Clone, Debug)]
pub struct StoreFacts {
    /// Schema.
    pub schema: String,
    /// Number of applied migrations.
    pub applied_count: i64,
    /// Version of the latest migration.
    pub latest_version: Option<i64>,
    /// Version of a migration that failed halfway.
    pub dirty_version: Option<i64>,
}

/// A path below a directory.
pub open spec fn below(dir: Seq<char>, name: Seq<char>) -> Seq<char> {
    if dir.len() == 0 || dir.last() == '/' {
        dir + name
    } else {
        dir + "/"@ + name
    }
}

/// Joins a relative path to a directory.
pub fn join_path(dir: &str, name: &str) -> (path: String)
    ensures
        path@ == below(dir@, name@),
{
    let chars = crate::text::chars_of(dir);
    if chars.len() == 0 || chars[chars.len() - 1] == '/' {
        dir.to_owned().concat(name)
    } else {
        dir.to_owned().concat("/").concat(name)
    }
}

/// The directory of states: the one that the environment names, or the usual one below the home
/// directory.
pub open spec fn state_dir(env: OperatorEnvironment) -> Seq<char> {
    below(
        match env.state_home {
            Some(dir) => dir@,
            None => below(
                match env.home {
                    Some(home) => home@,
                    None => "."@,
                },
                ".local/state"@,
            ),
        },
        "nautilus_trader"@,
    )
}

fn default_state_dir(env: &OperatorEnvironment) -> (dir: String)
    ensures
        dir@ == state_dir(*env),
{
    let home = match &env.home {
        Some(home) => home.as_str(),
        None => ".",
    };
    let base = match &env.state_home {
        Some(dir) => dir.clone(),
        None => join_path(home, ".local/state"),
    };
    join_path(base.as_str(), "nautilus_trader")
}

/// A directory: the one that the environment names, else the one of the fleet, else one below the
/// directory of states.
pub open spec fn chosen_dir(
    own: Option<String>,
    fleet: Option<String>,
    env: OperatorEnvironment,
    name: Seq<char>,
) -> Seq<char> {
    match (own, fleet) {
        (Some(dir), _) => dir@,
        (None, Some(dir)) => dir@,
        (None, None) => below(state_dir(env), name),
    }
}

fn choose_dir(
    own: &Option<String>,
    fleet: &Option<String>,
    env: &OperatorEnvironment,
    name: &str,
) -> (dir: String)
    ensures
        dir@ == chosen_dir(*own, *fleet, *env, name@),
{
    match own {
        Some(dir) => dir.clone(),
        None => match fleet {
            Some(dir) => dir.clone(),
            None => join_path(default_state_dir(env).as_str(), name),
        },
    }
}

/// The directory of logs that the fleet names.
pub open spec fn fleet_log_dir(defaults: Option<AccountRuntimeDefaults>) -> Option<String> {
    match defaults {
        Some(found) => found.log_dir,
        None => None,
    }
}

/// The directory of lock files that the fleet names.
pub open spec fn fleet_lock_dir(defaults: Option<AccountRuntimeDefaults>) -> Option<String> {
    match defaults {
        Some(found) => found.lock_dir,
        None => None,
    }
}

/// The path of the log.
pub open spec fn log_path_of(env: OperatorEnvironment, defaults: Option<AccountRuntimeDefaults>) -> Seq<
    char,
> {
    below(chosen_dir(env.log_dir, fleet_log_dir(defaults), env, "logs"@), "alpaca-options.log"@)
}

/// Returns the path of the log.
pub fn operator_log_path(env: &OperatorEnvironment, defaults: &Option<AccountRuntimeDefaults>) -> (path: String)
    ensures
        path@ == log_path_of(*env, *defaults),
{
    let fleet = match defaults {
        Some(found) => copy_opt(&found.log_dir),
        None => None,
    };
    join_path(choose_dir(&env.log_dir, &fleet, env, "logs").as_str(), "alpaca-options.log")
}

/// The state of the operational store.
pub open spec fn store_status(
    status: OperationalStoreStatus,
    store: Option<StoreFacts>,
    schema: Seq<char>,
) -> bool {
    match store {
        Some(facts) => {
            &&& status.enabled
            &&& status.schema@ == facts.schema@
            &&& status.applied_migrations == Some(facts.applied_count)
            &&& status.latest_migration_version == facts.latest_version
            &&& status.dirty_migration_version == facts.dirty_version
        },
        None => {
            &&& !status.enabled
            &&& status.schema@ == schema
            &&& status.applied_migrations is None
            &&& status.latest_migration_version is None
            &&& status.dirty_migration_version is None
        },
    }
}

/// The part of the configuration that comes from the runtime.
pub open spec fn follows_runtime(config: OperatorConfig, engine: AlpacaOptionsRuntimeConfig) -> bool {
    &&& config.stale_order_secs == engine.stale_entry_secs as i64
    &&& config.max_close_attempts == engine.max_close_attempts
    &&& config.open_orders_enabled == engine.open_orders_enabled
    &&& config.close_orders_enabled == engine.close_orders_enabled
    &&& config.close_order_mode@ == engine.close_order_mode.label()
    &&& texts(config.dry_run_families@) == unique(
        family_labels(dry_run_profiles(engine.strategy_profiles@)),
    )
    &&& config.max_active_entries == engine.max_active_entries
    &&& config.max_daily_submits == engine.max_daily_submits
    &&& config.max_open_orders == engine.max_open_orders
    &&& config.max_active_entries_per_underlying == engine.max_active_entries_per_underlying
    &&& config.max_active_entries_per_sector == engine.max_active_entries_per_sector
    &&& config.sectors@ == engine.sectors@
    &&& config.fleet_account_id == engine.fleet_account_id
    &&& texts(config.fleet_policy_blocks@) == texts(engine.fleet_policy_blocks@)
}

/// Builds the configuration of the status command.
pub fn operator_config(
    engine: &AlpacaOptionsRuntimeConfig,
    env: &OperatorEnvironment,
    defaults: &Option<AccountRuntimeDefaults>,
    store: &Option<StoreFacts>,
    schema: &str,
    metadata: Option<StrategyStateMetadata>,
    state_path: String,
    trade_date: CalendarDate,
) -> (config: OperatorConfig)
    requires
        trade_date.valid(),
    ensures
        config.service_name@ == match (env.service, *defaults) {
            (Some(name), _) => name@,
            (None, Some(found)) => found.service_name@,
            (None, None) => "alpaca-options.service"@,
        },
        config.state_path == state_path,
        config.log_path@ == log_path_of(*env, *defaults),
        config.lock_path@ == below(
            chosen_dir(env.lock_dir, fleet_lock_dir(*defaults), *env, "locks"@),
            "alpaca-options.lock"@,
        ),
        config.trade_date@ == date_chars(trade_date),
        follows_runtime(config, *engine),
        store_status(config.operational_store, *store, schema@),
        config.strategy_state_metadata == metadata,
{
    let service_name = match &env.service {
        Some(name) => name.clone(),
        None => match defaults {
            Some(found) => found.service_name.clone(),
            None => "alpaca-options.service".to_owned(),
        },
    };
    let lock_dir = match defaults {
        Some(found) => copy_opt(&found.lock_dir),
        None => None,
    };
    let operational_store = match store {
        Some(facts) => OperationalStoreStatus {
            enabled: true,
            schema: facts.schema.clone(),
            applied_migrations: Some(facts.applied_count),
            latest_migration_version: facts.latest_version,
            dirty_migration_version: facts.dirty_version,
        },
        None => OperationalStoreStatus {
            enabled: false,
            schema: schema.to_owned(),
            applied_migrations: None,
            latest_migration_version: None,
            dirty_migration_version: None,
        },
    };
    OperatorConfig {
        service_name,
        state_path,
        log_path: operator_log_path(env, defaults),
        lock_path: join_path(
            choose_dir(&env.lock_dir, &lock_dir, env, "locks").as_str(),
            "alpaca-options.lock",
        ),
        stale_order_secs: engine.stale_entry_secs as i64,
        max_close_attempts: engine.max_close_attempts,
        trade_date: date_text(trade_date),
        open_orders_enabled: engine.open_orders_enabled,
        close_orders_enabled: engine.close_orders_enabled,
        close_order_mode: engine.close_order_mode.as_str().to_owned(),
        dry_run_families: owned(&engine.dry_run_strategy_family_names()),
        max_active_entries: engine.max_active_entries,
        max_daily_submits: engine.max_daily_submits,
        max_open_orders: engine.max_open_orders,
        max_active_entries_per_underlying: engine.max_active_entries_per_underlying,
        max_active_entries_per_sector: engine.max_active_entries_per_sector,
        sectors: engine.sectors.copy(),
        fleet_account_id: copy_opt(&engine.fleet_account_id),
        fleet_policy_blocks: copy_texts(&engine.fleet_policy_blocks),
        operational_store,
        strategy_state_metadata: metadata,
    }
}

/// Returns the first date of the ledger records that a status shows: a week before the trade date.
pub fn status_ledger_since(trade_date: CalendarDate) -> (since: Option<CalendarDate>)
    requires
        trade_date.valid(),
    ensures
        lies_before(since, trade_date, 7),
{
    date_before(trade_date, 7)
}

} // verus!
