use cruncher_runtime::activity_loop::{ActivityLoop, LoopEvent, LoopStep};
use cruncher_runtime::counter::requests_duration::RequestsDurationCounter;
use cruncher_runtime::counter::{CounterRegistry, UsageCounter};
use cruncher_runtime::error::ErrorKind;
use cruncher_runtime::process::ProcessState;
use cruncher_runtime::state::{State, StatePair, Transition};
use cruncher_runtime::state::ActivityState;
use cruncher_runtime::unit::{ExeUnit, Report};

fn unit_with(value: i64) -> ExeUnit<u32> {
    let registry = CounterRegistry::new()
        .with_counter("golem.usage.tera-hash".to_string(), UsageCounter::Input { value })
        .with_counter(
            "golem.usage.duration_sec".to_string(),
            UsageCounter::RequestsDuration { counter: RequestsDurationCounter::new() },
        );
    ExeUnit::new("activity".to_string(), registry, 0)
}

#[test]
fn new_unit_reports_initialized_first() {
    let mut unit = unit_with(0);
    assert_eq!(unit.activity_id, "activity");
    assert_eq!(unit.state.state, StatePair(State::Initialized, None));
    let reports = unit.take_reports();
    assert_eq!(reports.len(), 1);
    match &reports[0] {
        Report::State { state } => {
            assert_eq!(state.state, StatePair(State::Initialized, None));
            assert_eq!(state.reason, None);
            assert_eq!(state.error_message, None);
        }
        _ => panic!("the first report is the state"),
    }
    assert!(unit.take_reports().is_empty());
}

#[test]
fn tick_reports_usage_and_waits() {
    let mut unit = unit_with(1_500_000);
    let _ = unit.take_reports();
    let lp = ActivityLoop::new();
    assert_eq!(lp.interval_millis, 1000);
    assert!(matches!(lp.turn_at(&mut unit, LoopEvent::Tick, 10), LoopStep::Wait));
    assert!(matches!(lp.turn_at(&mut unit, LoopEvent::Tick, 20), LoopStep::Wait));
    let reports = unit.take_reports();
    assert_eq!(reports.len(), 2);
    for report in &reports {
        match report {
            Report::Usage { usage } => assert_eq!(usage, &vec![1_500_000, 0]),
            _ => panic!("a tick reports usage"),
        }
    }
    assert_eq!(unit.state.state, StatePair(State::Initialized, None));
}

#[test]
fn limit_below_usage_terminates_with_the_reason() {
    let mut unit = unit_with(3_500_000);
    assert!(unit.counters.set_limit("golem.usage.tera-hash", 3_000_000));
    let _ = unit.take_reports();
    match ActivityLoop::new().turn_at(&mut unit, LoopEvent::Tick, 10) {
        LoopStep::Exit { runtime, cause } => {
            assert_eq!(runtime, None);
            let cause = cause.unwrap();
            assert_eq!(cause.kind, ErrorKind::UsageLimitExceeded);
            assert!(!cause.kind.is_fatal());
            assert_eq!(cause.text(), "Usage limit exceeded: golem.usage.tera-hash");
        }
        _ => panic!("the loop must be left"),
    }
    assert_eq!(unit.state.state, StatePair(State::Terminated, None));
    let reports = unit.take_reports();
    assert_eq!(reports.len(), 1);
    match &reports[0] {
        Report::State { state } => {
            assert_eq!(state.state, StatePair(State::Terminated, None));
            assert_eq!(
                state.reason,
                Some("Usage limit exceeded: golem.usage.tera-hash".to_string())
            );
            assert_eq!(state.error_message, None);
        }
        _ => panic!("the termination is reported"),
    }
}

#[test]
fn counter_that_cannot_be_sampled_is_fatal() {
    let mut unit = unit_with(0);
    assert!(unit.counters.on_request_at(1, i64::MIN));
    let _ = unit.take_reports();
    match ActivityLoop::new().turn_at(&mut unit, LoopEvent::Tick, i64::MAX) {
        LoopStep::Exit { runtime, cause } => {
            assert_eq!(runtime, None);
            let cause = cause.unwrap();
            assert_eq!(cause.kind, ErrorKind::CounterSampling);
            assert!(cause.kind.is_fatal());
        }
        _ => panic!("the loop must be left"),
    }
    let reports = unit.take_reports();
    match &reports[0] {
        Report::State { state } => {
            assert_eq!(state.reason, None);
            assert_eq!(
                state.error_message,
                Some("Counter sampling failed: golem.usage.duration_sec".to_string())
            );
        }
        _ => panic!("the termination is reported"),
    }
}

#[test]
fn process_exit_ends_the_loop_with_an_error() {
    let mut unit = unit_with(0);
    assert!(unit.supervisor.start(Ok(11)).is_ok());
    let _ = unit.take_reports();
    let event = LoopEvent::ProcessExited { status: "exit status: 1".to_string() };
    match ActivityLoop::new().turn_at(&mut unit, event, 5) {
        LoopStep::Exit { runtime, cause } => {
            assert_eq!(runtime, Some(11));
            let cause = cause.unwrap();
            assert_eq!(cause.kind, ErrorKind::ProcessExit);
            assert!(cause.kind.is_fatal());
            assert_eq!(cause.text(), "Process exited: exit status: 1");
        }
        _ => panic!("the loop must be left"),
    }
    assert!(matches!(unit.supervisor.state, ProcessState::Stopped));
    assert_eq!(unit.state.state, StatePair(State::Terminated, None));
    assert_eq!(unit.state.reason, Some("Process exited: exit status: 1".to_string()));
    assert_eq!(unit.state.error_message, Some("Process exited: exit status: 1".to_string()));
    assert_eq!(unit.supervisor.stop(), None);
}

#[test]
fn stale_process_exit_is_ignored() {
    let mut unit = unit_with(0);
    let _ = unit.take_reports();
    let event = LoopEvent::ProcessExited { status: "gone".to_string() };
    assert!(matches!(ActivityLoop::new().turn_at(&mut unit, event, 5), LoopStep::Wait));
    assert!(unit.supervisor.is_deployed());
    assert_eq!(unit.state.state, StatePair(State::Initialized, None));
    assert!(unit.take_reports().is_empty());
}

#[test]
fn signal_stops_the_runtime_and_terminates() {
    let mut unit = unit_with(0);
    assert!(unit.supervisor.start(Ok(4)).is_ok());
    match ActivityLoop::new().turn_at(&mut unit, LoopEvent::Signal, 5) {
        LoopStep::Exit { runtime, cause } => {
            assert_eq!(runtime, Some(4));
            assert!(cause.is_none());
        }
        _ => panic!("the loop must be left"),
    }
    assert_eq!(unit.state.state, StatePair(State::Terminated, None));
    // a second trigger converges to the same state and reports nothing new
    let _ = unit.take_reports();
    match ActivityLoop::new().turn_at(&mut unit, LoopEvent::Signal, 6) {
        LoopStep::Exit { runtime, cause } => {
            assert_eq!(runtime, None);
            assert!(cause.is_none());
        }
        _ => panic!("the loop must be left"),
    }
    assert!(unit.take_reports().is_empty());
    match ActivityLoop::new().turn_at(&mut unit, LoopEvent::Tick, 7) {
        LoopStep::Exit { runtime, cause } => {
            assert_eq!(runtime, None);
            assert!(cause.is_none());
        }
        _ => panic!("a stopped supervisor ends the loop"),
    }
    assert!(unit.take_reports().is_empty());
}

#[test]
fn redundant_termination_is_no_error() {
    let mut unit = unit_with(0);
    let _ = unit.take_reports();
    let terminated = || ActivityState::from_pair(StatePair(State::Terminated, None));
    assert_eq!(unit.set_state(terminated()), Transition::Applied);
    assert_eq!(unit.set_state(terminated()), Transition::Redundant);
    assert_eq!(
        unit.set_state(ActivityState::from_pair(StatePair(State::Ready, None))),
        Transition::Rejected
    );
    assert_eq!(unit.take_reports().len(), 1);
}

#[test]
fn usage_is_not_reported_over_the_limit() {
    let mut unit = unit_with(5);
    assert!(unit.counters.set_limit("golem.usage.tera-hash", 4));
    let _ = unit.take_reports();
    let error = unit.report_usage_at(0).unwrap_err();
    assert_eq!(error.kind, ErrorKind::UsageLimitExceeded);
    assert!(unit.take_reports().is_empty());
    assert!(unit.counters.set_limit("golem.usage.tera-hash", 5));
    assert!(unit.report_usage_at(0).is_ok());
    assert_eq!(unit.take_reports().len(), 1);
}

#[test]
fn turn_by_the_clock() {
    let mut unit = unit_with(1);
    let _ = unit.take_reports();
    assert!(matches!(ActivityLoop::new().turn(&mut unit, LoopEvent::Tick), LoopStep::Wait));
    assert_eq!(unit.take_reports().len(), 1);
}
