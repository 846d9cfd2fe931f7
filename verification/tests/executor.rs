use cruncher_runtime::agreement::AgreementDesc;
use cruncher_runtime::counter::{CounterRegistry, UsageCounter, UNITS_PER_ONE};
use cruncher_runtime::error::ErrorKind;
use cruncher_runtime::executor::{BatchRun, Phase, Request};
use cruncher_runtime::process::ProcessState;
use cruncher_runtime::script::{CommandResult, ExeScriptCommand, ExeScriptCommandResult};
use cruncher_runtime::state::{State, StatePair};
use cruncher_runtime::unit::{ExeUnit, Report};

fn two_counter_unit() -> ExeUnit<u32> {
    let desc = AgreementDesc {
        counters: vec![
            "golem.usage.tera-hash".to_string(),
            "golem.usage.duration_sec".to_string(),
        ],
    };
    let layout = desc.usage_layout().unwrap();
    let registry = desc.registry().unwrap();
    ExeUnit::new("activity-1".to_string(), registry, layout.tera_hash_pos)
}

fn set_hash(text: &str) -> ExeScriptCommand {
    let input = text
        .parse::<f64>()
        .ok()
        .map(|v| (v * UNITS_PER_ONE as f64).round() as i64);
    ExeScriptCommand::Run {
        entry_point: "set_hash".to_string(),
        args: vec![text.to_string()],
        input,
    }
}

fn drive(run: &mut BatchRun, unit: &mut ExeUnit<u32>, now: i64) -> Result<String, String> {
    let mut stopped: Vec<u32> = Vec::new();
    let mut request = run.step_at(unit, now);
    for _ in 0..1000 {
        request = match request {
            Request::Next => run.step_at(unit, now),
            Request::StartRuntime { .. } => run.started_at(unit, Ok(42), now),
            Request::Shutdown { runtime } => {
                if let Some(handle) = runtime {
                    stopped.push(handle);
                }
                run.step_at(unit, now)
            }
            Request::Finished { outcome } => {
                return outcome.map_err(|e| e.text());
            }
        };
    }
    panic!("the batch did not finish");
}

fn indexes(results: &[ExeScriptCommandResult]) -> Vec<u32> {
    results.iter().map(|r| r.index).collect()
}

#[test]
fn start_set_hash_terminate_runs_through() {
    let mut unit = two_counter_unit();
    let script = vec![
        ExeScriptCommand::Start { args: vec![] },
        set_hash("3.5"),
        ExeScriptCommand::Terminate,
    ];
    let mut run = unit.exec("batch-1".to_string(), script);
    assert_eq!(drive(&mut run, &mut unit, 1_000), Ok("batch-1".to_string()));

    let results = unit.get_exec_batch_results("batch-1").unwrap();
    assert_eq!(results.len(), 3);
    assert_eq!(indexes(&results), vec![0, 1, 2]);
    assert!(results.iter().all(|r| r.result == CommandResult::Success));
    assert_eq!(unit.state.state, StatePair(State::Terminated, None));
    assert!(matches!(unit.supervisor.state, ProcessState::Stopped));

    let reports = unit.take_reports();
    let usages: Vec<&Vec<i64>> = reports
        .iter()
        .filter_map(|r| match r {
            Report::Usage { usage } => Some(usage),
            _ => None,
        })
        .collect();
    let last = usages.last().expect("usage was reported");
    assert_eq!(last[0] as f64 / UNITS_PER_ONE as f64, 3.5);
    assert_eq!(last[1], 0);
    let states: Vec<StatePair> = reports
        .iter()
        .filter_map(|r| match r {
            Report::State { state } => Some(state.state),
            _ => None,
        })
        .collect();
    assert_eq!(
        states,
        vec![
            StatePair(State::Initialized, None),
            StatePair(State::Initialized, Some(State::Ready)),
            StatePair(State::Ready, None),
            StatePair(State::Terminated, None),
        ]
    );
    assert!(unit.take_reports().is_empty());
}

#[test]
fn result_entries_follow_the_command_kind() {
    let mut unit = two_counter_unit();
    let script = vec![
        ExeScriptCommand::Deploy,
        ExeScriptCommand::Start { args: vec!["--fast".to_string()] },
        set_hash("1"),
        ExeScriptCommand::Terminate,
    ];
    let mut run = unit.exec("b".to_string(), script);
    assert!(drive(&mut run, &mut unit, 77).is_ok());
    let results = unit.get_exec_batch_results("b").unwrap();
    assert_eq!(results.len(), 4);
    assert_eq!(results[0].is_batch_finished, false);
    assert_eq!(results[0].message, None);
    assert_eq!(results[1].is_batch_finished, true);
    assert_eq!(results[1].stdout, None);
    assert_eq!(results[2].is_batch_finished, true);
    assert_eq!(results[2].stdout, Some(String::new()));
    assert_eq!(results[2].stderr, Some(String::new()));
    assert_eq!(results[2].message, Some("Ok".to_string()));
    assert_eq!(results[3].is_batch_finished, false);
    assert!(results.iter().all(|r| r.event_date == 77));
}

#[test]
fn unrecognized_first_command_fails_the_batch_and_changes_no_state() {
    let mut unit = two_counter_unit();
    let _ = unit.take_reports();
    let script = vec![
        ExeScriptCommand::Other { name: "Sign".to_string() },
        ExeScriptCommand::Start { args: vec![] },
    ];
    let mut run = unit.exec("batch-2".to_string(), script);
    let outcome = drive(&mut run, &mut unit, 5);
    assert_eq!(
        outcome,
        Err("Unsupported command: invalid command for ai runtime: Sign".to_string())
    );
    let results = unit.get_exec_batch_results("batch-2").unwrap();
    assert_eq!(results.len(), 1);
    assert_eq!(results[0].index, 0);
    assert_eq!(results[0].result, CommandResult::Failure);
    assert!(results[0].is_batch_finished);
    assert_eq!(
        results[0].message,
        Some("Unsupported command: invalid command for ai runtime: Sign".to_string())
    );
    assert_eq!(unit.state.state, StatePair(State::Initialized, None));
    assert!(unit.supervisor.is_deployed());
    assert!(unit.take_reports().is_empty());
    assert_eq!(run.failure.as_ref().unwrap().kind, ErrorKind::UnsupportedCommand);
}

#[test]
fn unknown_entry_point_is_named_in_quotes() {
    let mut unit = two_counter_unit();
    let script = vec![
        ExeScriptCommand::Deploy,
        ExeScriptCommand::Run {
            entry_point: "mine \"now\"".to_string(),
            args: vec![],
            input: None,
        },
        ExeScriptCommand::Terminate,
    ];
    let mut run = unit.exec("b3".to_string(), script);
    let outcome = drive(&mut run, &mut unit, 9);
    assert_eq!(
        outcome,
        Err(
            "Unsupported command: invalid command for cruncher runtime: \"mine \\\"now\\\"\""
                .to_string()
        )
    );
    let results = unit.get_exec_batch_results("b3").unwrap();
    assert_eq!(results.len(), 2);
    assert_eq!(indexes(&results), vec![0, 1]);
    assert_eq!(results[0].result, CommandResult::Success);
    assert_eq!(results[1].result, CommandResult::Failure);
    assert!(results[1].is_batch_finished);
    assert_eq!(run.cursor, 1);
    assert_eq!(unit.state.state, StatePair(State::Initialized, None));
}

#[test]
fn failed_start_fails_the_batch_and_leaves_the_activity_unready() {
    let mut unit = two_counter_unit();
    let script = vec![ExeScriptCommand::Start { args: vec![] }, ExeScriptCommand::Terminate];
    let mut run = unit.exec("b4".to_string(), script);
    match run.step_at(&mut unit, 1) {
        Request::StartRuntime { args } => assert!(args.is_empty()),
        _ => panic!("a start must be asked for"),
    }
    assert_eq!(run.phase, Phase::Starting);
    assert_eq!(unit.state.state, StatePair(State::Initialized, Some(State::Ready)));
    // asking again changes nothing
    assert!(matches!(run.step_at(&mut unit, 2), Request::StartRuntime { .. }));
    assert!(matches!(
        run.started_at(&mut unit, Err("boom".to_string()), 3),
        Request::Next
    ));
    assert_eq!(unit.state.state, StatePair(State::Initialized, None));
    assert!(unit.supervisor.is_deployed());
    match run.step_at(&mut unit, 4) {
        Request::Finished { outcome } => {
            let error = outcome.unwrap_err();
            assert_eq!(error.kind, ErrorKind::StartFailure);
            assert_eq!(error.text(), "Failed to start runtime: boom");
        }
        _ => panic!("the batch must be over"),
    }
    let results = unit.get_exec_batch_results("b4").unwrap();
    assert_eq!(results.len(), 1);
    assert_eq!(results[0].index, 0);
    assert_eq!(results[0].result, CommandResult::Failure);
    assert_eq!(results[0].message, Some("Failed to start runtime: boom".to_string()));
    assert_eq!(results[0].event_date, 3);
}

#[test]
fn second_start_is_refused_without_starting_anything() {
    let mut unit = two_counter_unit();
    let script = vec![
        ExeScriptCommand::Start { args: vec![] },
        ExeScriptCommand::Start { args: vec![] },
    ];
    let mut run = unit.exec("b5".to_string(), script);
    let outcome = drive(&mut run, &mut unit, 1);
    assert_eq!(
        outcome,
        Err("Failed to start runtime: runtime is not deployed".to_string())
    );
    assert!(unit.supervisor.is_working());
    assert_eq!(unit.supervisor.handle(), Some(&42));
    let results = unit.get_exec_batch_results("b5").unwrap();
    assert_eq!(results.len(), 2);
    assert_eq!(results[0].result, CommandResult::Success);
    assert_eq!(results[1].result, CommandResult::Failure);
}

#[test]
fn start_on_a_terminated_activity_is_refused() {
    let mut unit = two_counter_unit();
    let mut first = unit.exec("t".to_string(), vec![ExeScriptCommand::Terminate]);
    assert!(drive(&mut first, &mut unit, 1).is_ok());
    let mut unit2 = two_counter_unit();
    unit2.state.state = StatePair(State::Terminated, None);
    let mut run = unit2.exec("s".to_string(), vec![ExeScriptCommand::Start { args: vec![] }]);
    assert_eq!(
        drive(&mut run, &mut unit2, 1),
        Err("Failed to start runtime: activity is terminated".to_string())
    );
    let mut again = unit.exec("s".to_string(), vec![ExeScriptCommand::Start { args: vec![] }]);
    assert_eq!(
        drive(&mut again, &mut unit, 1),
        Err("Failed to start runtime: runtime is not deployed".to_string())
    );
}

#[test]
fn unasked_start_outcome_is_handed_back() {
    let mut unit = two_counter_unit();
    let mut run = unit.exec("b6".to_string(), vec![ExeScriptCommand::Deploy]);
    match run.started_at(&mut unit, Ok(5), 1) {
        Request::Shutdown { runtime } => assert_eq!(runtime, Some(5)),
        _ => panic!("the process must be handed back"),
    }
    assert!(matches!(
        run.started_at(&mut unit, Err("x".to_string()), 1),
        Request::Next
    ));
    assert!(unit.supervisor.is_deployed());
    assert_eq!(run.cursor, 0);
    assert!(unit.get_exec_batch_results("b6").unwrap().is_empty());
}

#[test]
fn set_hash_without_a_number_keeps_the_old_usage() {
    let mut unit = two_counter_unit();
    let script = vec![set_hash("2.25"), set_hash("fast"), ExeScriptCommand::Run {
        entry_point: "set_hash".to_string(),
        args: vec![],
        input: None,
    }];
    let mut run = unit.exec("b7".to_string(), script);
    assert!(drive(&mut run, &mut unit, 3).is_ok());
    match unit.counters.entries[0].counter {
        UsageCounter::Input { value } => assert_eq!(value, 2_250_000),
        _ => panic!("the hash rate is an input counter"),
    }
    assert_eq!(unit.counters.get_counters_at(3).unwrap(), vec![2_250_000, 0]);
    assert_eq!(unit.get_exec_batch_results("b7").unwrap().len(), 3);
}

#[test]
fn empty_batch_finishes_at_once() {
    let mut unit = two_counter_unit();
    let mut run = unit.exec("empty".to_string(), vec![]);
    match run.step_at(&mut unit, 0) {
        Request::Finished { outcome } => assert_eq!(outcome.unwrap(), "empty"),
        _ => panic!("an empty batch is over at its first step"),
    }
    assert!(run.is_finished());
    assert!(unit.get_exec_batch_results("empty").unwrap().is_empty());
}

#[test]
fn unknown_batch_is_not_found() {
    let mut unit = two_counter_unit();
    let error = unit.get_exec_batch_results("nope").unwrap_err();
    assert_eq!(error.kind, ErrorKind::NotFound);
    assert_eq!(error.detail, "Batch id=nope");
    assert_eq!(error.text(), "Not found: Batch id=nope");
    let _run = unit.exec("nope".to_string(), vec![ExeScriptCommand::Deploy]);
    assert!(unit.get_exec_batch_results("nope").unwrap().is_empty());
    assert!(unit.batches.contains("nope"));
    let mut other = unit.exec("other".to_string(), vec![ExeScriptCommand::Deploy]);
    assert!(drive(&mut other, &mut unit, 1).is_ok());
    assert!(unit.get_exec_batch_results("nope").unwrap().is_empty());
    assert_eq!(unit.get_exec_batch_results("other").unwrap().len(), 1);
}

#[test]
fn steps_by_the_clock_stamp_the_results() {
    let mut unit = two_counter_unit();
    let mut run = unit.exec("clock".to_string(), vec![
        ExeScriptCommand::Start { args: vec![] },
        ExeScriptCommand::Deploy,
    ]);
    assert!(matches!(run.step(&mut unit), Request::StartRuntime { .. }));
    assert!(matches!(run.started(&mut unit, Ok(1)), Request::Next));
    assert!(matches!(run.step(&mut unit), Request::Next));
    assert!(matches!(run.step(&mut unit), Request::Finished { .. }));
    let results = unit.get_exec_batch_results("clock").unwrap();
    assert_eq!(results.len(), 2);
    // later than the year 2020, and in order
    assert!(results[0].event_date > 1_577_836_800_000_000);
    assert!(results[0].event_date <= results[1].event_date);
}

#[test]
fn registry_without_counters_still_runs_batches() {
    let mut unit: ExeUnit<u32> = ExeUnit::new("a".to_string(), CounterRegistry::new(), 0);
    let mut run = unit.exec("x".to_string(), vec![set_hash("3")]);
    assert!(drive(&mut run, &mut unit, 1).is_ok());
    assert!(unit.counters.get_counters_at(1).unwrap().is_empty());
}
