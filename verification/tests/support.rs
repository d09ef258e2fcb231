use chronos::chronos_config::ChronosConfig;
use chronos::delay::DelayController;
use chronos::env::EnvVars;
use chronos::pg_query::{
    delete_fired_query, failed_to_fire_query, insert_query, ready_to_fire_query, reset_to_init_query,
};
use chronos::retry::{RetryBudget, MAX_RETRY_COUNT};
use chronos::text::{decimal_string, parse_u16, parse_u64, split_trimmed, trim_string, contains_str};

#[test]
fn statements_number_one_placeholder_per_id() {
    assert_eq!(delete_fired_query(1), "DELETE FROM hanger WHERE id IN ($1)");
    assert_eq!(delete_fired_query(3), "DELETE FROM hanger WHERE id IN ($1,$2,$3)");
    assert_eq!(
        reset_to_init_query(2),
        "UPDATE hanger SET readied_at=null , readied_by=null  WHERE id IN  ($1,$2)"
    );
    assert!(delete_fired_query(12).ends_with("$10,$11,$12)"));
}

#[test]
fn backoff_windows_cycle_every_seven_passes() {
    let mut c = DelayController::new(100_000);
    let mut windows = Vec::new();
    for _ in 0..15 {
        let w = c.window();
        windows.push(w);
        let d = c.next_delay();
        assert!(2 * w <= d && d <= 3 * w);
    }
    assert_eq!(windows, vec![20, 80, 160, 320, 640, 1280, 2560, 20, 80, 160, 320, 640, 1280, 2560, 20]);
}

#[test]
fn delays_are_capped_and_summed() {
    let mut c = DelayController::new(100);
    let mut total: u128 = 0;
    for _ in 0..10 {
        let d = c.next_delay();
        assert!(d <= 100);
        total += d as u128;
    }
    assert_eq!(c.total_sleep_time, total);
    let mut c = DelayController::new(1000);
    assert_eq!(c.advance(20), 40);
    assert_eq!(c.advance(160), 240);
    assert_eq!(c.advance(320), 480);
    assert_eq!(c.advance(320), 640);
    assert_eq!(c.advance(640), 1000);
    assert_eq!(c.total_sleep_time, 2400);
}

#[test]
fn retries_give_up_at_the_third_failure() {
    let mut b = RetryBudget::for_db_write();
    assert_eq!(MAX_RETRY_COUNT, 3);
    assert!(!b.record_failure());
    assert!(!b.record_failure());
    assert!(b.record_failure());
    assert_eq!(b.failures_so_far(), 3);
    let mut one = RetryBudget::new(1);
    assert!(one.record_failure());
}

#[test]
fn chronos_settings_have_defaults() {
    let env = EnvVars::new();
    assert!(ChronosConfig::first_invalid_setting(&env).is_none());
    let c = ChronosConfig::from_env(&env);
    assert_eq!((c.monitor_db_poll, c.processor_db_poll, c.time_advance, c.fail_detect_interval), (5, 5, 0, 10));
    let mut env = EnvVars::new();
    env.push("TIMING_ADVANCE", "30");
    env.push("FAIL_DETECT_INTERVAL", "x");
    assert_eq!(ChronosConfig::first_invalid_setting(&env), Some("FAIL_DETECT_INTERVAL".to_string()));
    let mut env = EnvVars::new();
    env.push("TIMING_ADVANCE", "30");
    env.push("TIMING_ADVANCE", "40");
    assert_eq!(ChronosConfig::from_env(&env).time_advance, 30);
}

#[test]
fn numbers_read_and_written_as_std_does() {
    assert_eq!(parse_u64("18446744073709551615"), Some(u64::MAX));
    assert_eq!(parse_u64("18446744073709551616"), None);
    assert_eq!(parse_u64("+7"), Some(7));
    assert_eq!(parse_u64("007"), Some(7));
    assert_eq!(parse_u64("+"), None);
    assert_eq!(parse_u64(""), None);
    assert_eq!(parse_u64("1 "), None);
    assert_eq!(parse_u16("65535"), Some(65535));
    assert_eq!(parse_u16("65536"), None);
    for n in [0u64, 9, 10, 99, 100, 12345, u64::MAX] {
        assert_eq!(decimal_string(n), n.to_string());
        assert_eq!(parse_u64(&decimal_string(n)), Some(n));
    }
}

#[test]
fn splitting_and_trimming_follow_str() {
    assert_eq!(split_trimmed(" a , b,,c ", ','), vec!["a", "b", "", "c"]);
    assert_eq!(split_trimmed("", ','), vec![""]);
    assert_eq!(split_trimmed("x,", ','), vec!["x", ""]);
    assert_eq!(trim_string("\u{3000} é \t\n"), "é");
    assert_eq!(trim_string("   "), "");
    assert!(contains_str("abcabd", "abd"));
    assert!(!contains_str("ab", "abc"));
    assert!(contains_str("x", ""));
}

#[test]
fn fixed_statements_name_the_delay_table() {
    assert_eq!(
        insert_query(),
        "INSERT INTO hanger (id, deadline,  message_headers, message_key, message_value)\n        VALUES ($1, $2 ,$3, $4, $5 )"
    );
    assert!(ready_to_fire_query().starts_with("UPDATE hanger SET readied_at = $1, readied_by = $2 where deadline < $3"));
    assert!(ready_to_fire_query().ends_with("RETURNING id, deadline, readied_at, readied_by, message_headers, message_key, message_value"));
    assert_eq!(failed_to_fire_query(), "SELECT * from hanger where readied_at > $1 ORDER BY deadline DESC");
}

#[test]
fn processor_backoff_totals_over_a_cycle() {
    let mut c = DelayController::new(100);
    for n in 1..=7u128 {
        let before = c.total_sleep_time;
        let d = c.next_delay();
        assert_eq!(c.total_sleep_time, before + d as u128);
        assert!(40 + 100 * (n - 1) <= c.total_sleep_time && c.total_sleep_time <= 60 + 100 * (n - 1));
    }
}

#[test]
fn first_invalid_setting_in_field_order() {
    let mut env = EnvVars::new();
    env.push("FAIL_DETECT_INTERVAL", "x");
    env.push("PROCESSOR_DB_POLL", "-1");
    env.push("TIMING_ADVANCE", "");
    assert_eq!(ChronosConfig::first_invalid_setting(&env), Some("PROCESSOR_DB_POLL".to_string()));
    let mut env = EnvVars::new();
    env.push("MONITOR_DB_POLL", "five");
    env.push("PROCESSOR_DB_POLL", "y");
    assert_eq!(ChronosConfig::first_invalid_setting(&env), Some("MONITOR_DB_POLL".to_string()));
}
