use cruncher_runtime::process::{ProcessState, ProcessSupervisor, StartRefusal};

#[test]
fn stop_before_start_gives_nothing() {
    let mut supervisor: ProcessSupervisor<u32> = ProcessSupervisor::new();
    assert!(supervisor.report().is_some());
    assert!(supervisor.stop().is_none());
    assert!(matches!(supervisor.state, ProcessState::Stopped));
    assert!(supervisor.report().is_none());
}

#[test]
fn stop_twice_hands_the_process_out_once() {
    let mut supervisor: ProcessSupervisor<u32> = ProcessSupervisor::new();
    assert!(supervisor.start(Ok(7)).is_ok());
    assert!(supervisor.is_working());
    assert_eq!(supervisor.handle(), Some(&7));
    assert_eq!(supervisor.stop(), Some(7));
    assert_eq!(supervisor.stop(), None);
    assert!(supervisor.report().is_none());
}

#[test]
fn failed_start_leaves_supervisor_deployed() {
    let mut supervisor: ProcessSupervisor<u32> = ProcessSupervisor::new();
    match supervisor.start(Err("no binary".to_string())) {
        Err(StartRefusal::Failed { error }) => {
            assert_eq!(error.text(), "Failed to start runtime: no binary");
        }
        _ => panic!("a failed start must be refused as failed"),
    }
    assert!(supervisor.is_deployed());
}

#[test]
fn start_after_stop_is_refused_and_hands_the_process_back() {
    let mut supervisor: ProcessSupervisor<u32> = ProcessSupervisor::new();
    assert!(supervisor.stop().is_none());
    match supervisor.start(Ok(9)) {
        Err(StartRefusal::NotDeployed { handle }) => assert_eq!(handle, Some(9)),
        _ => panic!("a stopped supervisor takes no process"),
    }
    assert!(!supervisor.is_working());
}

#[test]
fn exit_of_the_process_is_seen_once() {
    let mut supervisor: ProcessSupervisor<u32> = ProcessSupervisor::new();
    assert_eq!(supervisor.exited(), None);
    assert!(supervisor.is_deployed());
    assert!(supervisor.start(Ok(3)).is_ok());
    assert_eq!(supervisor.exited(), Some(3));
    assert_eq!(supervisor.exited(), None);
    assert_eq!(supervisor.stop(), None);
}

#[test]
fn running_process_can_be_reached_for_polling() {
    let mut supervisor: ProcessSupervisor<u32> = ProcessSupervisor::new();
    assert!(supervisor.handle_mut().is_none());
    assert!(supervisor.handle().is_none());
    assert!(supervisor.start(Ok(1)).is_ok());
    if let Some(handle) = supervisor.handle_mut() {
        *handle = 2;
    }
    assert_eq!(supervisor.handle(), Some(&2));
    assert_eq!(supervisor.stop(), Some(2));
    assert!(supervisor.handle_mut().is_none());
}
