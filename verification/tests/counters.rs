use cruncher_runtime::counter::requests_duration::RequestsDurationCounter;
use cruncher_runtime::counter::{CounterRegistry, UsageCounter};
use cruncher_runtime::error::ErrorKind;

fn registry() -> CounterRegistry {
    CounterRegistry::new()
        .with_counter("hash".to_string(), UsageCounter::Input { value: 10 })
        .with_counter(
            "time".to_string(),
            UsageCounter::RequestsDuration { counter: RequestsDurationCounter::new() },
        )
        .with_counter("other".to_string(), UsageCounter::Input { value: 30 })
}

#[test]
fn one_activation_adds_its_length() {
    let mut c = RequestsDurationCounter::new();
    assert_eq!(c.count_at(5), Some(0));
    assert!(c.on_request_at(1_000));
    assert!(c.on_response_at(4_500));
    assert_eq!(c.count_at(4_500), Some(3_500));
    assert_eq!(c.count_at(9_999_999), Some(3_500));
    assert!(c.on_request_at(10_000));
    assert!(c.on_response_at(10_250));
    assert_eq!(c.count_at(0), Some(3_750));
    assert_eq!(c.active_requests_count, 0);
    assert_eq!(c.first_active_request_start_time, None);
}

#[test]
fn reading_while_open_shows_time_so_far() {
    let mut c = RequestsDurationCounter::new();
    assert!(c.on_request_at(100));
    assert_eq!(c.count_at(160), Some(60));
    assert_eq!(c.count_at(160), Some(60));
    assert_eq!(c.duration, 0);
    assert_eq!(c.active_requests_count, 1);
    assert!(c.on_response_at(200));
    assert_eq!(c.count_at(1_000), Some(100));
}

#[test]
fn overlapping_requests_are_counted_once() {
    let mut c = RequestsDurationCounter::new();
    assert!(c.on_request_at(10));
    assert!(c.on_request_at(20));
    assert_eq!(c.first_active_request_start_time, Some(10));
    assert!(c.on_response_at(30));
    assert_eq!(c.duration, 0);
    assert_eq!(c.count_at(35), Some(25));
    assert!(c.on_response_at(50));
    assert_eq!(c.count_at(1_000), Some(40));
}

#[test]
fn response_without_request_is_refused() {
    let mut c = RequestsDurationCounter::new();
    assert!(!c.on_response_at(10));
    assert_eq!(c.count_at(10), Some(0));
    assert_eq!(c.active_requests_count, 0);
}

#[test]
fn full_counter_refuses_another_request() {
    let mut c = RequestsDurationCounter {
        duration: 0,
        active_requests_count: u16::MAX,
        first_active_request_start_time: Some(1),
    };
    assert!(!c.on_request_at(2));
    assert_eq!(c.active_requests_count, u16::MAX);
    assert!(c.on_response_at(3));
    assert_eq!(c.active_requests_count, u16::MAX - 1);
}

#[test]
fn value_that_does_not_fit_is_not_given() {
    let mut c = RequestsDurationCounter {
        duration: i64::MAX,
        active_requests_count: 1,
        first_active_request_start_time: Some(0),
    };
    assert_eq!(c.count_at(1), None);
    assert_eq!(c.count_at(0), Some(i64::MAX));
    assert_eq!(c.count_at(-5), Some(i64::MAX - 5));
    assert!(!c.on_response_at(1));
    assert_eq!(c.active_requests_count, 1);
    assert!(c.on_response_at(0));
    assert_eq!(c.duration, i64::MAX);
    let far = RequestsDurationCounter {
        duration: 0,
        active_requests_count: 1,
        first_active_request_start_time: Some(i64::MIN),
    };
    assert_eq!(far.count_at(i64::MAX), None);
    assert_eq!(far.count_at(-1), Some(i64::MAX));
}

#[test]
fn counting_by_the_clock() {
    let mut c = RequestsDurationCounter::new();
    assert!(!c.on_response());
    assert!(c.on_request());
    let start = c.first_active_request_start_time.unwrap();
    assert!(start > 1_577_836_800_000_000);
    let seen = c.count().unwrap();
    assert!(seen >= 0);
    assert!(c.on_response());
    assert!(c.duration >= seen);
    assert_eq!(c.count(), Some(c.duration));
}

#[test]
fn sampling_keeps_registration_order() {
    let r = registry();
    assert_eq!(r.len(), 3);
    assert_eq!(r.get_counters_at(0).unwrap(), vec![10, 0, 30]);
    let names: Vec<&str> = r.entries.iter().map(|e| e.name.as_str()).collect();
    assert_eq!(names, vec!["hash", "time", "other"]);
    let r = r.with_counter("last".to_string(), UsageCounter::Input { value: -4 });
    assert_eq!(r.get_counters_at(0).unwrap(), vec![10, 0, 30, -4]);
    assert_eq!(r.get_counters_at(0).unwrap(), vec![10, 0, 30, -4]);
}

#[test]
fn one_breach_is_enough() {
    let mut r = registry();
    assert!(r.set_limit("other", 29));
    assert!(r.set_limit("hash", 10));
    let error = r.get_counters_at(0).unwrap_err();
    assert_eq!(error.kind, ErrorKind::UsageLimitExceeded);
    assert_eq!(error.detail, "other");
    assert_eq!(error.text(), "Usage limit exceeded: other");
    assert!(r.set_limit("other", 30));
    assert_eq!(r.get_counters_at(0).unwrap(), vec![10, 0, 30]);
    assert!(!r.set_limit("absent", 1));
}

#[test]
fn first_fault_decides() {
    let mut r = registry();
    assert!(r.on_request_at(1, i64::MIN));
    assert!(r.set_limit("other", 0));
    let error = r.get_counters_at(i64::MAX).unwrap_err();
    assert_eq!(error.kind, ErrorKind::CounterSampling);
    assert_eq!(error.detail, "time");
    assert_eq!(error.text(), "Counter sampling failed: time");
    let error = r.get_counters_at(i64::MIN).unwrap_err();
    assert_eq!(error.kind, ErrorKind::UsageLimitExceeded);
    assert_eq!(error.detail, "other");
}

#[test]
fn limit_by_name_reaches_every_counter_of_that_name() {
    let mut r = CounterRegistry::new()
        .with_counter("a".to_string(), UsageCounter::Input { value: 1 })
        .with_counter("b".to_string(), UsageCounter::Input { value: 2 })
        .with_counter("a".to_string(), UsageCounter::Input { value: 3 });
    assert!(r.set_limit("a", 2));
    assert_eq!(r.entries[0].limit, Some(2));
    assert_eq!(r.entries[1].limit, None);
    assert_eq!(r.entries[2].limit, Some(2));
    let error = r.get_counters_at(0).unwrap_err();
    assert_eq!(error.detail, "a");
    assert_eq!(error.kind, ErrorKind::UsageLimitExceeded);
}

#[test]
fn input_is_set_only_on_input_counters() {
    let mut r = registry();
    assert!(r.set_input(0, 77));
    assert!(!r.set_input(1, 5));
    assert!(!r.set_input(3, 5));
    assert_eq!(r.get_counters_at(0).unwrap(), vec![77, 0, 30]);
}

#[test]
fn requests_reach_the_duration_counter_through_the_registry() {
    let mut r = registry();
    assert!(!r.on_request_at(0, 5));
    assert!(!r.on_request_at(9, 5));
    assert!(!r.on_response_at(1, 5));
    assert!(r.on_request_at(1, 1_000_000));
    assert_eq!(r.get_counters_at(1_500_000).unwrap(), vec![10, 500_000, 30]);
    assert!(r.on_response_at(1, 3_000_000));
    assert_eq!(r.get_counters_at(9_000_000).unwrap(), vec![10, 2_000_000, 30]);
    assert!(!r.on_response_at(1, 4_000_000));
}

#[test]
fn sampling_by_the_clock() {
    let mut r = registry();
    assert_eq!(r.get_counters().unwrap(), vec![10, 0, 30]);
    assert!(r.on_request_at(1, 0));
    let sampled = r.get_counters().unwrap();
    assert!(sampled[1] > 1_577_836_800_000_000);
}
