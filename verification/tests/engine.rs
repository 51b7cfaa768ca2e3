use actuator::Config;
use actuator::ConfigError;
use actuator::Health;
use actuator::HealthChecker;
use actuator::HealthConfig;
use actuator::InnerHealth;
use actuator::ProbeOutcome;
use actuator::health::aggregate;
use actuator::health::compute_overall;
use actuator::health::timeout_error;

fn checker(key: &str, mandatory: bool) -> HealthChecker {
    HealthChecker::new(String::from(key), mandatory)
}

fn test_config(cache_duration: u64, timeout: u64, checkers: Vec<HealthChecker>) -> Config {
    let health = HealthConfig::new(cache_duration, timeout, checkers).unwrap();
    Config::new(
        vec![],
        String::from("test"),
        String::from("app"),
        8080,
        String::from("1.0.0"),
        health,
    )
}

fn result_of<'a>(h: &'a Health, key: &str) -> &'a actuator::HealthInfo {
    h.data.iter().find(|r| r.key == key).unwrap()
}

#[test]
fn first_call_records_success_and_optional_failure() {
    // cacheDuration 1000 ms, probeTimeout 50 ms, "db" mandatory succeeds,
    // "cache" optional fails with "conn refused".
    let cfg = test_config(1000, 50, vec![checker("db", true), checker("cache", false)]);
    let mut engine = InnerHealth::new(&cfg);
    let outcomes = vec![
        ProbeOutcome::Success,
        ProbeOutcome::Failure(String::from("conn refused")),
    ];
    let snap = engine.record_results(&outcomes, 0);

    let db = result_of(&snap, "db");
    assert!(db.is_mandatory);
    assert!(db.success);
    assert_eq!(db.error, "");

    let cache = result_of(&snap, "cache");
    assert!(!cache.is_mandatory);
    assert!(!cache.success);
    assert_eq!(cache.error, "conn refused");

    assert!(snap.overall);
}

#[test]
fn mandatory_timeout_flips_overall() {
    // Same config, but "db" does not finish within the timeout.
    let cfg = test_config(1000, 50, vec![checker("db", true), checker("cache", false)]);
    let mut engine = InnerHealth::new(&cfg);
    let outcomes = vec![
        ProbeOutcome::Timeout,
        ProbeOutcome::Failure(String::from("conn refused")),
    ];
    let snap = engine.record_results(&outcomes, 0);

    let db = result_of(&snap, "db");
    assert!(!db.success);
    assert_eq!(db.error, "probe timed out");
    assert!(!snap.overall);
}

#[test]
fn timeout_leaves_siblings_untouched() {
    // A probe that never completes is recorded as a timeout failure while
    // its siblings' results are present and correct in the same snapshot.
    let cfg = test_config(
        1000,
        50,
        vec![checker("a", true), checker("slow", false), checker("b", true)],
    );
    let mut engine = InnerHealth::new(&cfg);
    let outcomes = vec![ProbeOutcome::Success, ProbeOutcome::Timeout, ProbeOutcome::Success];
    let snap = engine.record_results(&outcomes, 7);

    assert_eq!(snap.data.len(), 3);
    assert!(result_of(&snap, "a").success);
    assert!(result_of(&snap, "b").success);
    let slow = result_of(&snap, "slow");
    assert!(!slow.success);
    assert_eq!(slow.error, timeout_error());
    // the timed-out probe was optional here, so the verdict stands
    assert!(snap.overall);
}

#[test]
fn all_optional_failures_keep_overall_true() {
    let cfg = test_config(1000, 50, vec![checker("x", false), checker("y", false)]);
    let mut engine = InnerHealth::new(&cfg);
    let outcomes = vec![
        ProbeOutcome::Failure(String::from("down")),
        ProbeOutcome::Timeout,
    ];
    let snap = engine.record_results(&outcomes, 0);
    assert!(snap.overall);
}

#[test]
fn overall_false_iff_some_mandatory_failure() {
    let all_ok = vec![ProbeOutcome::Success, ProbeOutcome::Success];
    let one_bad = vec![ProbeOutcome::Success, ProbeOutcome::Failure(String::from("boom"))];
    let checkers = vec![checker("a", true), checker("b", true)];

    let snap_ok = aggregate(&checkers, &all_ok, 0);
    assert!(snap_ok.overall);

    let snap_bad = aggregate(&checkers, &one_bad, 0);
    assert!(!snap_bad.overall);
}

#[test]
fn empty_probe_list_is_vacuously_healthy() {
    let snap = aggregate(&vec![], &vec![], 3);
    assert!(snap.data.is_empty());
    assert!(snap.overall);
    assert_eq!(snap.last_check_stamp, 3);
}

#[test]
fn results_keep_configuration_order() {
    let checkers = vec![checker("first", true), checker("second", false), checker("third", true)];
    let outcomes = vec![ProbeOutcome::Success, ProbeOutcome::Success, ProbeOutcome::Success];
    let snap = aggregate(&checkers, &outcomes, 0);
    let keys: Vec<&str> = snap.data.iter().map(|r| r.key.as_str()).collect();
    assert_eq!(keys, vec!["first", "second", "third"]);
}

#[test]
fn compute_overall_ignores_optional_entries() {
    let checkers = vec![checker("m", true), checker("o", false)];
    let outcomes = vec![ProbeOutcome::Success, ProbeOutcome::Failure(String::from("nope"))];
    let snap = aggregate(&checkers, &outcomes, 0);
    assert!(compute_overall(&snap.data));
}

#[test]
fn fresh_cache_hit_returns_published_snapshot() {
    // cacheDuration = 1000: a snapshot recorded at 1000 is served until
    // 2000 inclusive, and no probe outcome is needed for the lookup.
    let cfg = test_config(1000, 50, vec![checker("db", true)]);
    let mut engine = InnerHealth::new(&cfg);
    engine.record_results(&vec![ProbeOutcome::Success], 1000);

    let hit = engine.get_from_cache(1999).expect("still fresh");
    assert_eq!(hit.last_check_stamp, 1000);
    assert!(hit.overall);
    assert_eq!(hit.data.len(), 1);
    assert!(result_of(&hit, "db").success);

    assert!(engine.get_from_cache(2000).is_some());
}

#[test]
fn stale_cache_misses_and_forces_reaggregation() {
    let cfg = test_config(1000, 50, vec![checker("db", true)]);
    let mut engine = InnerHealth::new(&cfg);
    engine.record_results(&vec![ProbeOutcome::Success], 1000);

    assert!(engine.get_from_cache(2001).is_none());

    // the re-aggregation publishes a new snapshot, served afterwards
    let snap = engine.record_results(&vec![ProbeOutcome::Failure(String::from("gone"))], 2001);
    assert!(!snap.overall);
    let hit = engine.get_from_cache(2500).expect("fresh again");
    assert_eq!(hit.last_check_stamp, 2001);
    assert!(!hit.overall);
}

#[test]
fn empty_cache_never_serves() {
    let cfg = test_config(u64::MAX, 50, vec![checker("db", true)]);
    let engine = InnerHealth::new(&cfg);
    // even with the largest time-to-live, the first-ever lookup misses
    assert!(engine.get_from_cache(0).is_none());
    assert!(engine.get_from_cache(u64::MAX).is_none());
}

#[test]
fn snapshot_from_the_future_is_not_fresh() {
    let cfg = test_config(1000, 50, vec![checker("db", true)]);
    let mut engine = InnerHealth::new(&cfg);
    engine.record_results(&vec![ProbeOutcome::Success], 500);
    // a clock reading before the snapshot's stamp counts as a miss
    assert!(engine.get_from_cache(499).is_none());
}

#[test]
fn lookups_within_ttl_are_idempotent() {
    let cfg = test_config(1000, 50, vec![checker("db", true), checker("cache", false)]);
    let mut engine = InnerHealth::new(&cfg);
    let outcomes = vec![
        ProbeOutcome::Success,
        ProbeOutcome::Failure(String::from("conn refused")),
    ];
    engine.record_results(&outcomes, 100);

    let first = engine.get_from_cache(200).unwrap();
    let second = engine.get_from_cache(900).unwrap();

    assert_eq!(first.overall, second.overall);
    assert_eq!(first.last_check_stamp, second.last_check_stamp);
    assert_eq!(first.data.len(), second.data.len());
    for (a, b) in first.data.iter().zip(second.data.iter()) {
        assert_eq!(a.key, b.key);
        assert_eq!(a.is_mandatory, b.is_mandatory);
        assert_eq!(a.success, b.success);
        assert_eq!(a.error, b.error);
    }
}

#[test]
fn duplicate_keys_are_a_configuration_error() {
    let r = HealthConfig::new(1000, 50, vec![checker("db", true), checker("db", false)]);
    assert!(matches!(r, Err(ConfigError::DuplicateKey)));
}

#[test]
fn zero_durations_are_a_configuration_error() {
    assert!(matches!(
        HealthConfig::new(0, 50, vec![checker("db", true)]),
        Err(ConfigError::NonPositiveDuration)
    ));
    assert!(matches!(
        HealthConfig::new(1000, 0, vec![checker("db", true)]),
        Err(ConfigError::NonPositiveDuration)
    ));
}

#[test]
fn valid_configuration_is_accepted_verbatim() {
    let cfg = HealthConfig::new(1000, 50, vec![checker("db", true), checker("cache", false)])
        .unwrap();
    assert_eq!(cfg.cache_duration, 1000);
    assert_eq!(cfg.timeout, 50);
    assert_eq!(cfg.checkers.len(), 2);
    assert_eq!(cfg.checkers[0].key, "db");
    assert!(cfg.checkers[0].is_mandatory);
    assert_eq!(cfg.checkers[1].key, "cache");
    assert!(!cfg.checkers[1].is_mandatory);
}

#[test]
fn timeout_error_message_is_fixed() {
    assert_eq!(timeout_error(), "probe timed out");
}
