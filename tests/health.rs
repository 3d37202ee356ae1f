use health_probe::check::{default_fail_count, ConfigError, HttpCheck};
use health_probe::probe::{fetch_status, is_success_status, outcome_ok, MAX_TIMEOUT_SEC};
use health_probe::registry::{Registry, RegistryError};
use health_probe::report::{header_line, push_decimal, status_line, status_lines};
use health_probe::schedule::{due_indices, plan_updates, poll_updates};

fn check(interval: u64, healthy: u64, ceiling: u64) -> HttpCheck {
    HttpCheck::new(
        "example.com".to_string(),
        "/health".to_string(),
        "8080".to_string(),
        1,
        interval,
        healthy,
        ceiling,
    )
    .unwrap()
}

fn unreachable_check(fail_count: u64) -> HttpCheck {
    let mut c = HttpCheck::new(
        "127.0.0.1".to_string(),
        "/".to_string(),
        "1".to_string(),
        2,
        1,
        2,
        3,
    )
    .unwrap();
    c.set_the_new_fail_count(fail_count);
    c
}

#[test]
fn failures_accumulate_then_clamp() {
    let mut c = check(5, 2, 3);
    let mut counts = Vec::new();
    let mut health = Vec::new();
    for _ in 0..4 {
        let next = c.fail_count_after(false);
        c.set_the_new_fail_count(next);
        counts.push(c.fail_count());
        health.push(c.is_healthy());
    }
    assert_eq!(counts, vec![1, 2, 3, 3]);
    assert_eq!(health, vec![true, false, false, false]);
}

#[test]
fn successes_decay_to_zero() {
    let mut c = check(5, 2, 3);
    c.set_the_new_fail_count(3);
    assert!(!c.is_healthy());
    let mut counts = Vec::new();
    let mut health = Vec::new();
    for _ in 0..4 {
        let next = c.fail_count_after(true);
        c.set_the_new_fail_count(next);
        counts.push(c.fail_count());
        health.push(c.is_healthy());
    }
    assert_eq!(counts, vec![2, 1, 0, 0]);
    assert_eq!(health, vec![false, true, true, true]);
}

#[test]
fn zero_interval_is_rejected() {
    let r = HttpCheck::new("a".to_string(), "/".to_string(), "80".to_string(), 1, 0, 2, 3);
    assert_eq!(r.err(), Some(ConfigError::ZeroInterval));
}

#[test]
fn ceiling_below_healthy_threshold_is_rejected() {
    let r = HttpCheck::new("a".to_string(), "/".to_string(), "80".to_string(), 1, 5, 4, 3);
    assert_eq!(r.err(), Some(ConfigError::CeilingBelowHealthyThreshold));
}

#[test]
fn zero_healthy_threshold_is_never_healthy() {
    let c = check(5, 0, 3);
    assert_eq!(c.fail_count(), 0);
    assert!(!c.is_healthy());
}

#[test]
fn zero_ceiling_pins_the_count() {
    let c = check(5, 0, 0);
    assert_eq!(c.fail_count_after(false), 0);
    assert_eq!(c.fail_count_after(true), 0);
}

#[test]
fn largest_ceiling_does_not_overflow() {
    let mut c = check(5, 2, u64::MAX);
    c.set_the_new_fail_count(u64::MAX);
    assert_eq!(c.fail_count_after(false), u64::MAX);
    assert_eq!(c.fail_count_after(true), u64::MAX - 1);
}

#[test]
fn interval_five_fires_on_multiples_only() {
    let c = check(5, 2, 3);
    let fired: Vec<u64> = (0..21).filter(|&t| c.is_due(t)).collect();
    assert_eq!(fired, vec![0, 5, 10, 15, 20]);
    assert!(c.is_due(1_700_000_000));
    assert!(!c.is_due(1_700_000_001));
}

#[test]
fn full_url_joins_domain_port_and_path() {
    let c = check(5, 2, 3);
    assert_eq!(c.get_full_url(), "http://example.com:8080/health");
}

#[test]
fn duplicate_copies_every_field() {
    let mut c = check(7, 2, 3);
    c.set_the_new_fail_count(2);
    let d = c.duplicate();
    assert_eq!(d.get_full_url(), c.get_full_url());
    assert_eq!(d.fail_count(), 2);
    assert_eq!(d.check_interval_sec, 7);
    assert_eq!(d.unhealthy_threshold, 3);
}

#[test]
fn registry_snapshot_and_update() {
    let mut reg = Registry::new(vec![check(5, 2, 3), check(3, 1, 4)]);
    assert_eq!(reg.len(), 2);
    assert_eq!(reg.update_fail_count(1, 4), Ok(()));
    let snap = reg.snapshot();
    assert_eq!(snap.len(), 2);
    assert_eq!(snap[0].fail_count(), 0);
    assert_eq!(snap[1].fail_count(), 4);
    assert!(!snap[1].is_healthy());
}

#[test]
fn registry_rejects_out_of_range_index() {
    let mut reg = Registry::new(vec![check(5, 2, 3)]);
    assert_eq!(reg.update_fail_count(1, 1), Err(RegistryError::OutOfRange));
    assert_eq!(reg.snapshot()[0].fail_count(), 0);
}

#[test]
fn registry_rejects_count_above_ceiling() {
    let mut reg = Registry::new(vec![check(5, 2, 3)]);
    assert_eq!(reg.update_fail_count(0, 4), Err(RegistryError::AboveCeiling));
    assert_eq!(reg.snapshot()[0].fail_count(), 0);
}

#[test]
fn due_indices_follow_each_interval() {
    let checks = vec![check(5, 2, 3), check(3, 2, 3), check(1, 2, 3)];
    assert_eq!(due_indices(&checks, 15), vec![0, 1, 2]);
    assert_eq!(due_indices(&checks, 10), vec![0, 2]);
    assert_eq!(due_indices(&checks, 7), vec![2]);
}

#[test]
fn plan_updates_only_changed_due_checks() {
    let mut busy = check(1, 2, 3);
    busy.set_the_new_fail_count(2);
    let checks = vec![check(5, 2, 3), busy, check(2, 2, 3), check(3, 2, 3)];
    // index 0: due, success at zero, unchanged; index 1: due, success, 2 -> 1;
    // index 2: due, failure, 0 -> 1; index 3: not due at 10.
    let plan = plan_updates(&checks, 10, &vec![true, true, false, false]);
    assert_eq!(plan, vec![(1, 1), (2, 1)]);
}

#[test]
fn poll_counts_unreachable_endpoint_as_failure() {
    let checks = vec![unreachable_check(0), unreachable_check(3)];
    assert_eq!(poll_updates(&checks, 4), vec![(0, 1)]);
}

#[test]
fn probe_of_refused_connection_is_false() {
    assert_eq!(fetch_status(&"http://127.0.0.1:1/".to_string(), 2), None);
    assert_eq!(fetch_status(&"http://exa mple:80/".to_string(), 2), None);
    assert!(!outcome_ok(fetch_status(&"http://127.0.0.1:1/".to_string(), 2)));
    let c = unreachable_check(1);
    assert!(!c.is_ok());
    assert_eq!(c.get_the_new_fail_count(), 2);
}

#[test]
fn success_status_range() {
    assert!(!is_success_status(199));
    assert!(is_success_status(200));
    assert!(is_success_status(204));
    assert!(is_success_status(299));
    assert!(!is_success_status(300));
    assert!(!is_success_status(404));
    assert!(!is_success_status(503));
}

#[test]
fn report_lines_number_from_one() {
    let mut sick = check(5, 2, 3);
    sick.set_the_new_fail_count(3);
    assert_eq!(status_line(0, &check(5, 2, 3)), "1) http://example.com:8080/health is healthy");
    assert_eq!(status_line(9, &sick), "10) http://example.com:8080/health is unhealthy");
    let lines = status_lines(&vec![check(5, 2, 3), sick]);
    assert_eq!(lines, vec![
        "1) http://example.com:8080/health is healthy".to_string(),
        "2) http://example.com:8080/health is unhealthy".to_string(),
    ]);
}

#[test]
fn header_carries_epoch_seconds() {
    assert_eq!(header_line(1_700_000_000), "1700000000 Checking health");
    assert_eq!(header_line(0), "0 Checking health");
}

#[test]
fn decimal_of_extremes() {
    let mut s = String::from("n=");
    push_decimal(&mut s, u64::MAX);
    assert_eq!(s, "n=18446744073709551615");
    let mut z = String::new();
    push_decimal(&mut z, 0);
    assert_eq!(z, "0");
}

#[test]
fn loaded_checks_start_with_zero_fail_count() {
    assert_eq!(default_fail_count(), 0);
    assert_eq!(check(5, 2, 3).fail_count(), default_fail_count());
}

#[test]
fn outcome_ok_needs_a_2xx_response() {
    assert!(!outcome_ok(None));
    assert!(outcome_ok(Some(200)));
    assert!(outcome_ok(Some(299)));
    assert!(!outcome_ok(Some(199)));
    assert!(!outcome_ok(Some(300)));
    assert!(!outcome_ok(Some(500)));
}

#[test]
fn timeout_above_bound_is_rejected() {
    let r = HttpCheck::new("a".to_string(), "/".to_string(), "80".to_string(), u64::MAX, 5, 2, 3);
    assert_eq!(r.err(), Some(ConfigError::TimeoutTooLarge));
    let r = HttpCheck::new("a".to_string(), "/".to_string(), "80".to_string(), MAX_TIMEOUT_SEC + 1, 5, 2, 3);
    assert_eq!(r.err(), Some(ConfigError::TimeoutTooLarge));
    let ok = HttpCheck::new("a".to_string(), "/".to_string(), "80".to_string(), MAX_TIMEOUT_SEC, 5, 2, 3);
    assert!(ok.is_ok());
}

#[test]
fn zero_interval_is_reported_before_other_faults() {
    let r = HttpCheck::new("a".to_string(), "/".to_string(), "80".to_string(), u64::MAX, 0, 4, 3);
    assert_eq!(r.err(), Some(ConfigError::ZeroInterval));
}

#[test]
fn largest_timeout_probe_fails_without_panicking() {
    assert_eq!(fetch_status(&"http://127.0.0.1:1/".to_string(), MAX_TIMEOUT_SEC), None);
}
