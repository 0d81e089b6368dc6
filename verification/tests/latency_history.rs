use healthmon::check::{Check, CheckType, HttpCheck, HttpMethod, ProbeOutcome};
use healthmon::service::{LatencyHistory, Service};

fn test_check() -> Check {
    Check::new(
        None,
        "0 * * * * *".to_string(),
        CheckType::Http(HttpCheck {
            method: HttpMethod::GET,
            is_insecure: false,
            url: "http://127.0.0.1".to_string(),
            timeout: 10,
            headers: None,
            accept_codes: vec![200],
        }),
    )
}

#[test]
fn window_of_five_keeps_third_through_seventh() {
    let mut h = LatencyHistory::new(5);
    for d in [11, 22, 33, 44, 55, 66, 77] {
        h.record(d);
    }
    assert_eq!(h.durations, vec![33, 44, 55, 66, 77]);
}

#[test]
fn eviction_is_oldest_first() {
    let mut h = LatencyHistory::new(2);
    h.record(1);
    h.record(2);
    h.record(3);
    assert_eq!(h.durations, vec![2, 3]);
}

#[test]
fn zero_capacity_grows_without_bound() {
    let mut h = LatencyHistory::new(0);
    for d in 0..100 {
        h.record(d);
    }
    assert_eq!(h.durations.len(), 100);
    assert_eq!(h.durations[0], 0);
    assert_eq!(h.durations[99], 99);
}

#[test]
fn empty_queries_report_no_value() {
    let h = LatencyHistory::new(4);
    assert_eq!(h.min(), None);
    assert_eq!(h.max(), None);
    assert_eq!(h.avg(), None);
    assert_eq!(h.last(), None);
}

#[test]
fn queries_over_known_values() {
    let mut h = LatencyHistory::new(10);
    for d in [30, 10, 21] {
        h.record(d);
    }
    assert_eq!(h.min(), Some(10));
    assert_eq!(h.max(), Some(30));
    // Integer division: (30 + 10 + 21) / 3 == 20.
    assert_eq!(h.avg(), Some(20));
    assert_eq!(h.last(), Some(21));
}

#[test]
fn service_records_latency_only_on_success() {
    let mut svc = Service::new("web".to_string(), test_check(), None, None, None, Some(5));
    svc.run_check_cycle(&ProbeOutcome::Success, 40);
    svc.run_check_cycle(
        &ProbeOutcome::Failure(healthmon::check::ProbeFailReason::TimedOut),
        999,
    );
    svc.run_check_cycle(&ProbeOutcome::Success, 20);
    assert_eq!(svc.lats.durations, vec![40, 20]);
    assert_eq!(svc.lat_min(), Some(20));
    assert_eq!(svc.lat_max(), Some(40));
    assert_eq!(svc.lat_avg(), Some(30));
    assert_eq!(svc.lat_last(), Some(20));
}

#[test]
fn service_window_scenario() {
    let mut svc = Service::new("web".to_string(), test_check(), None, None, None, Some(5));
    for d in [1, 2, 3, 4, 5, 6, 7] {
        svc.run_check_cycle(&ProbeOutcome::Success, d);
    }
    assert_eq!(svc.lats.durations, vec![3, 4, 5, 6, 7]);
}

#[test]
fn empty_service_latency_queries() {
    let svc = Service::new("web".to_string(), test_check(), None, None, None, None);
    assert_eq!(svc.lat_min(), None);
    assert_eq!(svc.lat_max(), None);
    assert_eq!(svc.lat_avg(), None);
    assert_eq!(svc.lat_last(), None);
}
