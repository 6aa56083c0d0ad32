//! The worker process's startup sequence as a state machine.
//!
//! The driver asks for the next action, performs it, and reports whether it
//! succeeded. Steps run strictly in order; a failed step ends the process with
//! a non-zero status, and the only graceful end is the shutdown signal
//! resolving while the process serves.
use vstd::prelude::*;

verus! {

/// One step of the startup sequence, in the order in which they run.
#[derive(Clone, Copy, Debug, PartialEq, Eq, Structural)]
pub enum Step {
    /// Resolve the command line: runtime artifact, host socket, cache directory.
    ParseArguments,
    /// Build the component registry from the configuration.
    BuildRegistry,
    /// Install the metric collector as the process-wide collector.
    InstallCollector,
    /// Start the tracing exporter in the background.
    StartTracing,
    /// Check that the runtime artifact exists on the local filesystem.
    CheckArtifact,
    /// Obtain the execution environment.
    ObtainEnvironment,
    /// Connect the transport channel to the host socket.
    Connect,
    /// Build the protocol handler and its shutdown signal over the channel.
    CreateProtocol,
    /// Open the local cache layer and compose it with the remote layer.
    OpenCache,
    /// Build the worker over the storage composition and the protocol handler.
    BuildWorker,
    /// Bind the worker into the protocol handler's request router.
    BindWorker,
    /// Block until the shutdown signal resolves.
    AwaitShutdown,
    /// Log termination and exit.
    Finish,
}

/// The coarse phase of the process.
#[derive(Clone, Copy, Debug, PartialEq, Eq, Structural)]
pub enum Phase {
    Unstarted,
    Configuring,
    Connecting,
    Composing,
    Serving,
    ShuttingDown,
    Terminated,
}

/// How the process ended.
#[derive(Clone, Copy, Debug, PartialEq, Eq, Structural)]
pub enum Termination {
    /// The shutdown signal resolved and the process finished.
    Graceful,
    /// The given step failed.
    Failed(Step),
}

/// Where the process stands: a step still to perform, or its end.
#[derive(Clone, Copy, Debug, PartialEq, Eq, Structural)]
pub enum Status {
    Running(Step),
    Exited(Termination),
}

/// What the driver must do next.
#[derive(Clone, Copy, Debug, PartialEq, Eq, Structural)]
pub enum Action {
    /// Perform the step and report its outcome.
    Perform(Step),
    /// Exit the process with the given status code.
    Exit(i32),
}

/// Position of a step in the sequence, counting from zero.
pub open spec fn step_index(s: Step) -> nat {
    match s {
        Step::ParseArguments => 0,
        Step::BuildRegistry => 1,
        Step::InstallCollector => 2,
        Step::StartTracing => 3,
        Step::CheckArtifact => 4,
        Step::ObtainEnvironment => 5,
        Step::Connect => 6,
        Step::CreateProtocol => 7,
        Step::OpenCache => 8,
        Step::BuildWorker => 9,
        Step::BindWorker => 10,
        Step::AwaitShutdown => 11,
        Step::Finish => 12,
    }
}

/// The step at position `i` of the sequence (the last one from position 12 on).
pub open spec fn step_at(i: nat) -> Step {
    if i == 0 {
        Step::ParseArguments
    } else if i == 1 {
        Step::BuildRegistry
    } else if i == 2 {
        Step::InstallCollector
    } else if i == 3 {
        Step::StartTracing
    } else if i == 4 {
        Step::CheckArtifact
    } else if i == 5 {
        Step::ObtainEnvironment
    } else if i == 6 {
        Step::Connect
    } else if i == 7 {
        Step::CreateProtocol
    } else if i == 8 {
        Step::OpenCache
    } else if i == 9 {
        Step::BuildWorker
    } else if i == 10 {
        Step::BindWorker
    } else if i == 11 {
        Step::AwaitShutdown
    } else {
        Step::Finish
    }
}

/// The phase that a step belongs to.
pub open spec fn step_phase(s: Step) -> Phase {
    match s {
        Step::ParseArguments => Phase::Unstarted,
        Step::BuildRegistry | Step::InstallCollector | Step::StartTracing
        | Step::CheckArtifact => Phase::Configuring,
        Step::ObtainEnvironment | Step::Connect => Phase::Connecting,
        Step::CreateProtocol | Step::OpenCache | Step::BuildWorker
        | Step::BindWorker => Phase::Composing,
        Step::AwaitShutdown => Phase::Serving,
        Step::Finish => Phase::ShuttingDown,
    }
}

/// The phase of a status.
pub open spec fn status_phase(st: Status) -> Phase {
    match st {
        Status::Running(s) => step_phase(s),
        Status::Exited(_) => Phase::Terminated,
    }
}

/// The status where a process starts.
pub open spec fn initial_status() -> Status {
    Status::Running(Step::ParseArguments)
}

/// The status after reporting outcome `ok` in status `st`: a success moves to
/// the next step (the last one ends gracefully), a failure ends the process,
/// and an ended process stays as it is.
pub open spec fn advance(st: Status, ok: bool) -> Status {
    match st {
        Status::Running(s) => if !ok {
            Status::Exited(Termination::Failed(s))
        } else if s == Step::Finish {
            Status::Exited(Termination::Graceful)
        } else {
            Status::Running(step_at(step_index(s) + 1))
        },
        Status::Exited(t) => Status::Exited(t),
    }
}

/// The status reached from the start after the outcomes `events`, in order.
pub open spec fn run(events: Seq<bool>) -> Status
    decreases events.len(),
{
    if events.len() == 0 {
        initial_status()
    } else {
        advance(run(events.drop_last()), events.last())
    }
}

/// The process exit code of a termination: zero only when graceful.
pub open spec fn exit_code(t: Termination) -> i32 {
    match t {
        Termination::Graceful => 0,
        Termination::Failed(_) => 1,
    }
}

/// The action the driver owes in status `st`.
pub open spec fn action_of(st: Status) -> Action {
    match st {
        Status::Running(s) => Action::Perform(s),
        Status::Exited(t) => Action::Exit(exit_code(t)),
    }
}

/// The step that follows `s`, or `None` after the last one.
pub fn next_step(s: Step) -> (r: Option<Step>)
    ensures
        s == Step::Finish ==> r is None,
        s != Step::Finish ==> r == Some(step_at(step_index(s) + 1)),
{
    match s {
        Step::ParseArguments => Some(Step::BuildRegistry),
        Step::BuildRegistry => Some(Step::InstallCollector),
        Step::InstallCollector => Some(Step::StartTracing),
        Step::StartTracing => Some(Step::CheckArtifact),
        Step::CheckArtifact => Some(Step::ObtainEnvironment),
        Step::ObtainEnvironment => Some(Step::Connect),
        Step::Connect => Some(Step::CreateProtocol),
        Step::CreateProtocol => Some(Step::OpenCache),
        Step::OpenCache => Some(Step::BuildWorker),
        Step::BuildWorker => Some(Step::BindWorker),
        Step::BindWorker => Some(Step::AwaitShutdown),
        Step::AwaitShutdown => Some(Step::Finish),
        Step::Finish => None,
    }
}

/// The phase that a step belongs to.
pub fn phase_of_step(s: Step) -> (r: Phase)
    ensures
        r == step_phase(s),
{
    match s {
        Step::ParseArguments => Phase::Unstarted,
        Step::BuildRegistry | Step::InstallCollector | Step::StartTracing
        | Step::CheckArtifact => Phase::Configuring,
        Step::ObtainEnvironment | Step::Connect => Phase::Connecting,
        Step::CreateProtocol | Step::OpenCache | Step::BuildWorker
        | Step::BindWorker => Phase::Composing,
        Step::AwaitShutdown => Phase::Serving,
        Step::Finish => Phase::ShuttingDown,
    }
}

/// The startup state machine of one process.
pub struct Lifecycle {
    status: Status,
}

impl Lifecycle {
    /// Where the process stands.
    pub closed spec fn status_spec(&self) -> Status {
        self.status
    }

    /// A process that has not resolved its configuration yet.
    pub fn new() -> (r: Lifecycle)
        ensures
            r.status_spec() == initial_status(),
            r.status_spec() == run(Seq::empty()),
    {
        Lifecycle { status: Status::Running(Step::ParseArguments) }
    }

    /// Where the process stands.
    pub fn status(&self) -> (r: Status)
        ensures
            r == self.status_spec(),
    {
        self.status
    }

    /// The coarse phase of the process.
    pub fn phase(&self) -> (r: Phase)
        ensures
            r == status_phase(self.status_spec()),
    {
        match self.status {
            Status::Running(s) => phase_of_step(s),
            Status::Exited(_) => Phase::Terminated,
        }
    }

    /// The action the driver must take now.
    pub fn next_action(&self) -> (r: Action)
        ensures
            r == action_of(self.status_spec()),
    {
        match self.status {
            Status::Running(s) => Action::Perform(s),
            Status::Exited(Termination::Graceful) => Action::Exit(0),
            Status::Exited(Termination::Failed(_)) => Action::Exit(1),
        }
    }

    /// Records the outcome of the step just performed. For the step that
    /// awaits shutdown, success means that the shutdown signal resolved.
    pub fn report(&mut self, ok: bool)
        ensures
            final(self).status_spec() == advance(old(self).status_spec(), ok),
    {
        match self.status {
            Status::Running(s) => {
                if !ok {
                    self.status = Status::Exited(Termination::Failed(s));
                } else {
                    match next_step(s) {
                        Some(n) => {
                            self.status = Status::Running(n);
                        },
                        None => {
                            self.status = Status::Exited(Termination::Graceful);
                        },
                    }
                }
            },
            Status::Exited(_) => {},
        }
    }
}

proof fn lemma_step_at_index(s: Step)
    ensures
        step_at(step_index(s)) == s,
        step_index(s) <= 12,
{
}

/// A process still running has seen only successes, one for each step
/// before the current one.
pub proof fn lemma_running_means_all_succeeded(events: Seq<bool>)
    requires
        run(events) is Running,
    ensures
        events.len() == step_index(run(events)->Running_0),
        forall|j: int| 0 <= j < events.len() ==> #[trigger] events[j],
    decreases events.len(),
{
    if events.len() > 0 {
        let prev = events.drop_last();
        assert(run(prev) is Running);
        lemma_running_means_all_succeeded(prev);
        let s = run(prev)->Running_0;
        lemma_step_at_index(s);
        assert forall|j: int| 0 <= j < events.len() implies #[trigger] events[j] by {
            if j < events.len() - 1 {
                assert(events[j] == prev[j]);
            }
        }
    }
}

/// From the start, `k` successes in a row reach step `k`.
pub proof fn lemma_successes_reach_step(events: Seq<bool>)
    requires
        events.len() <= 12,
        forall|j: int| 0 <= j < events.len() ==> #[trigger] events[j],
    ensures
        run(events) == Status::Running(step_at(events.len())),
    decreases events.len(),
{
    if events.len() > 0 {
        let prev = events.drop_last();
        assert forall|j: int| 0 <= j < prev.len() implies #[trigger] prev[j] by {
            assert(prev[j] == events[j]);
        }
        lemma_successes_reach_step(prev);
        assert(events.last());
    }
}

/// Every step is fatal on failure: a failed step ends the process at once,
/// with a non-zero exit code, and an ended process stays ended.
pub proof fn lemma_failure_is_fatal(st: Status, ok: bool)
    ensures
        st is Running ==> advance(st, false) == Status::Exited(
            Termination::Failed(st->Running_0),
        ),
        st is Running ==> action_of(advance(st, false)) != Action::Exit(0),
        st is Exited ==> advance(st, ok) == st,
{
}

/// The process serves only once every earlier step has succeeded, the
/// worker's binding last; and it ends gracefully only from serving, when the
/// shutdown signal resolves and the final step completes.
pub proof fn lemma_serving_follows_binding(events: Seq<bool>)
    ensures
        run(events) == Status::Running(Step::AwaitShutdown) ==> (events.len() == 11 && forall|
            j: int,
        |
            0 <= j < 11 ==> #[trigger] events[j]),
        run(events) == Status::Running(Step::AwaitShutdown) ==> run(events.take(10))
            == Status::Running(Step::BindWorker),
        run(events) == Status::Exited(Termination::Graceful) ==> (events.len() >= 13 && run(
            events.take(11),
        ) == Status::Running(Step::AwaitShutdown) && events[11] && events[12]),
{
    if run(events) == Status::Running(Step::AwaitShutdown) {
        lemma_running_means_all_succeeded(events);
        let pre = events.take(10);
        assert forall|j: int| 0 <= j < pre.len() implies #[trigger] pre[j] by {
            assert(pre[j] == events[j]);
        }
        lemma_successes_reach_step(pre);
    }
    if run(events) == Status::Exited(Termination::Graceful) {
        lemma_graceful_end(events);
    }
}

proof fn lemma_graceful_end(events: Seq<bool>)
    requires
        run(events) == Status::Exited(Termination::Graceful),
    ensures
        events.len() >= 13,
        run(events.take(11)) == Status::Running(Step::AwaitShutdown),
        events[11],
        events[12],
    decreases events.len(),
{
    let prev = events.drop_last();
    if run(prev) == Status::Exited(Termination::Graceful) {
        lemma_graceful_end(prev);
        assert(prev.take(11) == events.take(11));
        assert(prev[11] == events[11]);
        assert(prev[12] == events[12]);
    } else {
        assert(run(prev) == Status::Running(Step::Finish));
        lemma_running_means_all_succeeded(prev);
        let pre = events.take(11);
        assert forall|j: int| 0 <= j < pre.len() implies #[trigger] pre[j] by {
            assert(pre[j] == events[j]);
            assert(events[j] == prev[j]);
        }
        lemma_successes_reach_step(pre);
        assert(events[11] == prev[11]);
    }
}

/// No connection is attempted before the artifact check has succeeded: in
/// every run that reaches the connect step, an earlier report was the
/// artifact check's, and it was a success.
pub proof fn lemma_connect_follows_artifact_check(events: Seq<bool>)
    requires
        run(events) == Status::Running(Step::Connect),
    ensures
        exists|j: int|
            0 <= j < events.len() && run(#[trigger] events.take(j)) == Status::Running(
                Step::CheckArtifact,
            ) && events[j],
{
    lemma_running_means_all_succeeded(events);
    let pre = events.take(4);
    assert forall|j: int| 0 <= j < pre.len() implies #[trigger] pre[j] by {
        assert(pre[j] == events[j]);
    }
    lemma_successes_reach_step(pre);
    assert(events[4]);
}

} // verus!
