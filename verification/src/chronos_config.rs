//! The polling intervals of the service, read from the environment.
use vstd::prelude::*;

use crate::env::EnvVars;
use crate::text::{copy_str, parse_u64, parse_u64_spec};

verus! {

/// The value of a variable, or `default` when it is not set.
pub open spec fn var_or(env: EnvVars, name: Seq<char>, default: Seq<char>) -> Seq<char> {
    match env.var(name) {
        Some(v) => v,
        None => default,
    }
}

/// A numeric setting: the variable, or `default` when it is not set, read
/// as a `u64`.
pub open spec fn numeric_setting(env: EnvVars, name: Seq<char>, default: Seq<char>) -> Option<u64> {
    parse_u64_spec(var_or(env, name, default))
}

/// The names of the settings, each with its default.
pub open spec fn chronos_settings() -> Seq<(Seq<char>, Seq<char>)> {
    seq![
        ("MONITOR_DB_POLL"@, "5"@),
        ("PROCESSOR_DB_POLL"@, "5"@),
        ("TIMING_ADVANCE"@, "0"@),
        ("FAIL_DETECT_INTERVAL"@, "10"@),
    ]
}

/// Every setting reads as a number.
pub open spec fn chronos_settings_valid(env: EnvVars) -> bool {
    forall|i: int|
        0 <= i < chronos_settings().len() ==> (#[trigger] numeric_setting(
            env,
            chronos_settings()[i].0,
            chronos_settings()[i].1,
        )) is Some
}

/// The setting at position `i` of `chronos_settings` reads as a number.
pub open spec fn setting_parses(env: EnvVars, i: int) -> bool {
    numeric_setting(env, chronos_settings()[i].0, chronos_settings()[i].1) is Some
}

/// Polling intervals, in seconds.
#[derive(Debug, Clone, Copy)]
pub struct ChronosConfig {
    pub monitor_db_poll: u64,
    pub processor_db_poll: u64,
    pub time_advance: u64,
    pub fail_detect_interval: u64,
}

/// A variable's value, or `default` when it is not set.
pub fn read_or(env: &EnvVars, name: &str, default: &str) -> (res: String)
    ensures
        res@ == var_or(*env, name@, default@),
{
    match env.get(name) {
        Some(v) => v,
        None => copy_str(default),
    }
}

/// A numeric setting (see `numeric_setting`).
pub fn read_numeric(env: &EnvVars, name: &str, default: &str) -> (res: Option<u64>)
    ensures
        res == numeric_setting(*env, name@, default@),
{
    let text = read_or(env, name, default);
    parse_u64(text.as_str())
}

impl ChronosConfig {
    /// The name of the first setting that is set to something other than a
    /// number, if any.
    pub fn first_invalid_setting(env: &EnvVars) -> (res: Option<String>)
        ensures
            res is None <==> chronos_settings_valid(*env),
            match res {
                Some(name) => exists|i: int|
                    0 <= i < chronos_settings().len() && name@ == #[trigger] chronos_settings()[i].0
                        && !setting_parses(*env, i) && forall|j: int|
                        0 <= j < i ==> setting_parses(*env, j),
                None => true,
            },
    {
        if read_numeric(env, "MONITOR_DB_POLL", "5").is_none() {
            assert(!chronos_settings_valid(*env)) by {
                assert(chronos_settings()[0] == ("MONITOR_DB_POLL"@, "5"@));
                assert(numeric_setting(*env, chronos_settings()[0].0, chronos_settings()[0].1) is None);
            }
            assert(chronos_settings()[0].0 == "MONITOR_DB_POLL"@);
            assert(!setting_parses(*env, 0));
            return Some(copy_str("MONITOR_DB_POLL"));
        }
        if read_numeric(env, "PROCESSOR_DB_POLL", "5").is_none() {
            assert(!chronos_settings_valid(*env)) by {
                assert(chronos_settings()[1] == ("PROCESSOR_DB_POLL"@, "5"@));
                assert(numeric_setting(*env, chronos_settings()[1].0, chronos_settings()[1].1) is None);
            }
            assert(chronos_settings()[1].0 == "PROCESSOR_DB_POLL"@);
            assert(!setting_parses(*env, 1));
            assert forall|j: int| 0 <= j < 1 implies setting_parses(*env, j) by {
                assert(setting_parses(*env, 0));
            }
            return Some(copy_str("PROCESSOR_DB_POLL"));
        }
        if read_numeric(env, "TIMING_ADVANCE", "0").is_none() {
            assert(!chronos_settings_valid(*env)) by {
                assert(chronos_settings()[2] == ("TIMING_ADVANCE"@, "0"@));
                assert(numeric_setting(*env, chronos_settings()[2].0, chronos_settings()[2].1) is None);
            }
            assert(chronos_settings()[2].0 == "TIMING_ADVANCE"@);
            assert(!setting_parses(*env, 2));
            assert forall|j: int| 0 <= j < 2 implies setting_parses(*env, j) by {
                assert(setting_parses(*env, 0));
                assert(setting_parses(*env, 1));
            }
            return Some(copy_str("TIMING_ADVANCE"));
        }
        if read_numeric(env, "FAIL_DETECT_INTERVAL", "10").is_none() {
            assert(!chronos_settings_valid(*env)) by {
                assert(chronos_settings()[3] == ("FAIL_DETECT_INTERVAL"@, "10"@));
                assert(numeric_setting(*env, chronos_settings()[3].0, chronos_settings()[3].1) is None);
            }
            assert(chronos_settings()[3].0 == "FAIL_DETECT_INTERVAL"@);
            assert(!setting_parses(*env, 3));
            assert forall|j: int| 0 <= j < 3 implies setting_parses(*env, j) by {
                assert(setting_parses(*env, 0));
                assert(setting_parses(*env, 1));
                assert(setting_parses(*env, 2));
            }
            return Some(copy_str("FAIL_DETECT_INTERVAL"));
        }
        assert(chronos_settings_valid(*env)) by {
            assert forall|i: int| 0 <= i < chronos_settings().len() implies (#[trigger] numeric_setting(
                *env,
                chronos_settings()[i].0,
                chronos_settings()[i].1,
            )) is Some by {
                assert(i == 0 || i == 1 || i == 2 || i == 3);
            }
        }
        None
    }

    /// Reads the intervals: `MONITOR_DB_POLL` (default 5),
    /// `PROCESSOR_DB_POLL` (5), `TIMING_ADVANCE` (0) and
    /// `FAIL_DETECT_INTERVAL` (10).
    pub fn from_env(env: &EnvVars) -> (cfg: ChronosConfig)
        requires
            chronos_settings_valid(*env),
        ensures
            Some(cfg.monitor_db_poll) == numeric_setting(*env, "MONITOR_DB_POLL"@, "5"@),
            Some(cfg.processor_db_poll) == numeric_setting(*env, "PROCESSOR_DB_POLL"@, "5"@),
            Some(cfg.time_advance) == numeric_setting(*env, "TIMING_ADVANCE"@, "0"@),
            Some(cfg.fail_detect_interval) == numeric_setting(*env, "FAIL_DETECT_INTERVAL"@, "10"@),
    {
        assert(numeric_setting(*env, chronos_settings()[0].0, chronos_settings()[0].1) is Some);
        assert(numeric_setting(*env, chronos_settings()[1].0, chronos_settings()[1].1) is Some);
        assert(numeric_setting(*env, chronos_settings()[2].0, chronos_settings()[2].1) is Some);
        assert(numeric_setting(*env, chronos_settings()[3].0, chronos_settings()[3].1) is Some);
        ChronosConfig {
            monitor_db_poll: read_numeric(env, "MONITOR_DB_POLL", "5").unwrap_or(0),
            processor_db_poll: read_numeric(env, "PROCESSOR_DB_POLL", "5").unwrap_or(0),
            time_advance: read_numeric(env, "TIMING_ADVANCE", "0").unwrap_or(0),
            fail_detect_interval: read_numeric(env, "FAIL_DETECT_INTERVAL", "10").unwrap_or(0),
        }
    }
}

} // verus!
