use ekiden_worker_host::lifecycle::{next_step, Action, Lifecycle, Phase, Status, Step, Termination};

const ORDER: [Step; 13] = [
    Step::ParseArguments,
    Step::BuildRegistry,
    Step::InstallCollector,
    Step::StartTracing,
    Step::CheckArtifact,
    Step::ObtainEnvironment,
    Step::Connect,
    Step::CreateProtocol,
    Step::OpenCache,
    Step::BuildWorker,
    Step::BindWorker,
    Step::AwaitShutdown,
    Step::Finish,
];

/// Drives a lifecycle, failing the named step, and returns the steps performed
/// and the exit code.
fn drive(fail_at: Option<Step>) -> (Vec<Step>, i32) {
    let mut l = Lifecycle::new();
    let mut performed = Vec::new();
    loop {
        match l.next_action() {
            Action::Perform(s) => {
                performed.push(s);
                l.report(fail_at != Some(s));
            }
            Action::Exit(code) => return (performed, code),
        }
    }
}

#[test]
fn steps_run_in_order() {
    let (performed, code) = drive(None);
    assert_eq!(performed, ORDER.to_vec());
    assert_eq!(code, 0);
}

#[test]
fn connect_comes_after_artifact_check() {
    for fail in ORDER.iter() {
        let (performed, _) = drive(Some(*fail));
        if let Some(c) = performed.iter().position(|s| *s == Step::Connect) {
            let a = performed.iter().position(|s| *s == Step::CheckArtifact).unwrap();
            assert!(a < c);
        }
    }
}

#[test]
fn scenario_serving_then_host_close_exits_zero() {
    let mut l = Lifecycle::new();
    assert_eq!(l.phase(), Phase::Unstarted);
    for _ in 0..11 {
        l.report(true);
    }
    assert_eq!(l.phase(), Phase::Serving);
    assert_eq!(l.next_action(), Action::Perform(Step::AwaitShutdown));
    // The shutdown signal resolves.
    l.report(true);
    assert_eq!(l.phase(), Phase::ShuttingDown);
    l.report(true);
    assert_eq!(l.phase(), Phase::Terminated);
    assert_eq!(l.status(), Status::Exited(Termination::Graceful));
    assert_eq!(l.next_action(), Action::Exit(0));
}

#[test]
fn scenario_missing_artifact_exits_before_connect() {
    let (performed, code) = drive(Some(Step::CheckArtifact));
    assert_ne!(code, 0);
    assert!(!performed.contains(&Step::Connect));
    assert_eq!(*performed.last().unwrap(), Step::CheckArtifact);
}

#[test]
fn scenario_unwritable_cache_exits_after_connect_before_worker() {
    let (performed, code) = drive(Some(Step::OpenCache));
    assert_ne!(code, 0);
    assert!(performed.contains(&Step::Connect));
    assert!(!performed.contains(&Step::BuildWorker));
}

#[test]
fn each_failure_terminates_nonzero() {
    for fail in ORDER.iter() {
        let mut l = Lifecycle::new();
        let mut reached = false;
        while let Action::Perform(s) = l.next_action() {
            if s == *fail {
                reached = true;
                l.report(false);
                assert_eq!(l.status(), Status::Exited(Termination::Failed(s)));
            } else {
                l.report(true);
            }
        }
        assert!(reached);
        assert_eq!(l.next_action(), Action::Exit(1));
        assert_eq!(l.phase(), Phase::Terminated);
    }
}

#[test]
fn ended_process_ignores_reports() {
    let mut l = Lifecycle::new();
    l.report(false);
    l.report(true);
    assert_eq!(l.status(), Status::Exited(Termination::Failed(Step::ParseArguments)));
}

#[test]
fn phases_of_steps() {
    let mut l = Lifecycle::new();
    let expected = [
        Phase::Unstarted,
        Phase::Configuring,
        Phase::Configuring,
        Phase::Configuring,
        Phase::Configuring,
        Phase::Connecting,
        Phase::Connecting,
        Phase::Composing,
        Phase::Composing,
        Phase::Composing,
        Phase::Composing,
        Phase::Serving,
        Phase::ShuttingDown,
        Phase::Terminated,
    ];
    for p in expected.iter() {
        assert_eq!(l.phase(), *p);
        l.report(true);
    }
    assert_eq!(next_step(Step::Finish), None);
    assert_eq!(next_step(Step::CheckArtifact), Some(Step::ObtainEnvironment));
}
