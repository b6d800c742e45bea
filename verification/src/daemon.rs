//! The supervisor of the dashboard worker.
//!
//! The supervisor never touches the operating system itself. It is a state
//! machine: the driver hands it a request or the answer to the work it was
//! last asked to do, and the supervisor moves to its next state and says what
//! the driver has to do next. One request is driven to its end before the next
//! is made; a request that arrives in between is turned down and changes
//! nothing.

use vstd::prelude::*;
use vstd::string::*;
use crate::health::{HealthMonitor, MonitorState};
use crate::settings::Settings;
use crate::text::{decimal, decimal_text, join_path, joined};

verus! {

/// Seconds that a worker is given to exit after it was asked to.
pub const GRACE_PERIOD_SECS: u64 = 5;

/// Seconds between the stop and the start of a restart.
pub const SETTLE_DELAY_SECS: u64 = 1;

/// What callers see of the supervisor.
#[derive(Clone, Copy, Debug, PartialEq, Eq, Structural)]
pub enum SupervisorState {
    Stopped,
    Starting,
    Running,
    Stopping,
}

/// The worker that the supervisor owns.
#[derive(Clone, Copy, Debug, PartialEq, Eq, Structural)]
pub struct ManagedProcess {
    /// Process id, as far as the operating system gave one.
    pub pid: Option<u32>,
}

/// The work a starting supervisor waits for.
#[derive(Clone, Copy, Debug, PartialEq, Eq, Structural)]
pub enum StartPhase {
    CheckingExecutable,
    OpeningLog,
    Spawning,
}

/// The work a stopping supervisor waits for.
#[derive(Clone, Copy, Debug, PartialEq, Eq, Structural)]
pub enum StopPhase {
    /// The worker was asked to exit and has the grace period to do so.
    Graceful,
    /// The worker is being killed.
    Forced,
}

/// Where the supervisor stands. A worker is held exactly while it runs or is
/// being stopped.
#[derive(Clone, Copy, Debug, PartialEq, Eq, Structural)]
pub enum Lifecycle {
    Stopped,
    /// Stopped in the middle of a restart: the settle delay runs.
    Settling,
    Starting { phase: StartPhase },
    Running { process: ManagedProcess },
    Stopping { process: ManagedProcess, phase: StopPhase, restart: bool },
}

/// Why the supervisor could not do what was asked.
#[derive(Clone, Copy, Debug, PartialEq, Eq, Structural)]
pub enum SupervisorError {
    /// The interpreter that runs the worker is not where it should be.
    ExecutableNotFound,
    /// The log could not be opened or the process could not be created.
    SpawnError,
    /// Another request is still being driven.
    Busy,
}

/// What went wrong on the way without failing the request; to be logged.
#[derive(Clone, Copy, Debug, PartialEq, Eq, Structural)]
pub enum Warning {
    /// The worker did not exit within the grace period; it is killed.
    GracefulStopTimeout,
    /// Waiting for the worker failed; the worker is taken to be gone.
    WaitFailed,
}

/// How a request ended well.
#[derive(Clone, Copy, Debug, PartialEq, Eq, Structural)]
pub enum Outcome {
    /// A worker was created; its health monitor is to be launched.
    Started,
    /// A worker was running already; nothing was done.
    AlreadyRunning,
    /// The worker is gone.
    Stopped,
    /// No worker was running; nothing was done.
    NotRunning,
}

/// What the driver tells the supervisor.
#[derive(Clone, Copy, Debug, PartialEq, Eq, Structural)]
pub enum Event {
    StartRequested,
    StopRequested,
    RestartRequested,
    ExecutableFound,
    ExecutableMissing,
    LogOpened,
    LogFailed,
    Spawned { pid: Option<u32> },
    SpawnFailed,
    /// The worker exited within the grace period.
    Exited,
    /// Waiting for the worker failed.
    WaitFailed,
    /// The grace period ran out.
    GraceExpired,
    /// The kill was carried out, whatever came of it.
    Killed,
    /// The settle delay is over.
    Settled,
}

/// What the supervisor asks of the driver.
#[derive(Clone, Copy, Debug, PartialEq, Eq, Structural)]
pub enum Action {
    /// See whether the interpreter exists; answer `ExecutableFound` or
    /// `ExecutableMissing`.
    CheckExecutable,
    /// Create or truncate the log; answer `LogOpened` or `LogFailed`.
    OpenLog,
    /// Create the worker as the launch plan says; answer `Spawned` or
    /// `SpawnFailed`.
    Spawn,
    /// Send the terminate signal to the process group, if there is one, and
    /// wait for the worker's exit; answer `Exited`, `WaitFailed` or
    /// `GraceExpired`.
    Terminate { group: Option<i32>, grace_secs: u64 },
    /// Send the kill signal to the process group, if there is one, then kill
    /// the worker itself; answer `Killed`.
    ForceKill { group: Option<i32> },
    /// Wait; answer `Settled`.
    Settle { secs: u64 },
    /// The request is done.
    Finished { outcome: Outcome },
    /// The request failed.
    Failed { error: SupervisorError },
    /// The event answers nothing that the supervisor waits for.
    Ignored,
}

/// The process group that stands for the worker and its descendants: the
/// worker's process id, where it is a positive number that a signal can be
/// sent to.
pub open spec fn group_of(process: ManagedProcess) -> Option<i32> {
    match process.pid {
        Some(pid) => if 0 < pid <= i32::MAX {
            Some(pid as i32)
        } else {
            None
        },
        None => None,
    }
}

/// The state that callers see.
pub open spec fn state_of(l: Lifecycle) -> SupervisorState {
    match l {
        Lifecycle::Stopped => SupervisorState::Stopped,
        Lifecycle::Settling => SupervisorState::Stopped,
        Lifecycle::Starting { .. } => SupervisorState::Starting,
        Lifecycle::Running { .. } => SupervisorState::Running,
        Lifecycle::Stopping { .. } => SupervisorState::Stopping,
    }
}

/// The worker that is held, if any.
pub open spec fn process_of(l: Lifecycle) -> Option<ManagedProcess> {
    match l {
        Lifecycle::Running { process } => Some(process),
        Lifecycle::Stopping { process, .. } => Some(process),
        _ => None,
    }
}

/// Whether `e` is a request, as opposed to an answer.
pub open spec fn is_request(e: Event) -> bool {
    e is StartRequested || e is StopRequested || e is RestartRequested
}

/// Where the supervisor stands once the worker is gone, and what it asks
/// then.
pub open spec fn after_stop(restart: bool) -> (Lifecycle, Action) {
    if restart {
        (Lifecycle::Settling, Action::Settle { secs: SETTLE_DELAY_SECS })
    } else {
        (Lifecycle::Stopped, Action::Finished { outcome: Outcome::Stopped })
    }
}

/// What becomes of a request.
pub open spec fn request_step(l: Lifecycle, e: Event) -> (Lifecycle, Action)
    recommends
        is_request(e),
{
    match (l, e) {
        (Lifecycle::Stopped, Event::StartRequested) => (
            Lifecycle::Starting { phase: StartPhase::CheckingExecutable },
            Action::CheckExecutable,
        ),
        (Lifecycle::Running { .. }, Event::StartRequested) => (
            l,
            Action::Finished { outcome: Outcome::AlreadyRunning },
        ),
        (Lifecycle::Stopped, Event::StopRequested) => (
            l,
            Action::Finished { outcome: Outcome::NotRunning },
        ),
        (Lifecycle::Running { process }, Event::StopRequested) => (
            Lifecycle::Stopping { process, phase: StopPhase::Graceful, restart: false },
            Action::Terminate { group: group_of(process), grace_secs: GRACE_PERIOD_SECS },
        ),
        (Lifecycle::Stopped, Event::RestartRequested) => (
            Lifecycle::Settling,
            Action::Settle { secs: SETTLE_DELAY_SECS },
        ),
        (Lifecycle::Running { process }, Event::RestartRequested) => (
            Lifecycle::Stopping { process, phase: StopPhase::Graceful, restart: true },
            Action::Terminate { group: group_of(process), grace_secs: GRACE_PERIOD_SECS },
        ),
        _ => (l, Action::Failed { error: SupervisorError::Busy }),
    }
}

/// What becomes of an answer.
pub open spec fn answer_step(l: Lifecycle, e: Event) -> (Lifecycle, Action)
    recommends
        !is_request(e),
{
    match (l, e) {
        (Lifecycle::Starting { phase: StartPhase::CheckingExecutable }, Event::ExecutableFound) => (
            Lifecycle::Starting { phase: StartPhase::OpeningLog },
            Action::OpenLog,
        ),
        (
            Lifecycle::Starting { phase: StartPhase::CheckingExecutable },
            Event::ExecutableMissing,
        ) => (Lifecycle::Stopped, Action::Failed { error: SupervisorError::ExecutableNotFound }),
        (Lifecycle::Starting { phase: StartPhase::OpeningLog }, Event::LogOpened) => (
            Lifecycle::Starting { phase: StartPhase::Spawning },
            Action::Spawn,
        ),
        (Lifecycle::Starting { phase: StartPhase::OpeningLog }, Event::LogFailed) => (
            Lifecycle::Stopped,
            Action::Failed { error: SupervisorError::SpawnError },
        ),
        (Lifecycle::Starting { phase: StartPhase::Spawning }, Event::Spawned { pid }) => (
            Lifecycle::Running { process: ManagedProcess { pid } },
            Action::Finished { outcome: Outcome::Started },
        ),
        (Lifecycle::Starting { phase: StartPhase::Spawning }, Event::SpawnFailed) => (
            Lifecycle::Stopped,
            Action::Failed { error: SupervisorError::SpawnError },
        ),
        (Lifecycle::Stopping { phase: StopPhase::Graceful, restart, .. }, Event::Exited) => {
            after_stop(restart)
        },
        (Lifecycle::Stopping { phase: StopPhase::Graceful, restart, .. }, Event::WaitFailed) => {
            after_stop(restart)
        },
        (
            Lifecycle::Stopping { process, phase: StopPhase::Graceful, restart },
            Event::GraceExpired,
        ) => (
            Lifecycle::Stopping { process, phase: StopPhase::Forced, restart },
            Action::ForceKill { group: group_of(process) },
        ),
        (Lifecycle::Stopping { phase: StopPhase::Forced, restart, .. }, Event::Killed) => {
            after_stop(restart)
        },
        (Lifecycle::Settling, Event::Settled) => (
            Lifecycle::Starting { phase: StartPhase::CheckingExecutable },
            Action::CheckExecutable,
        ),
        _ => (l, Action::Ignored),
    }
}

/// The supervisor's one transition function: from where it stands and what
/// it is told, to where it stands next and what it asks.
pub open spec fn step(l: Lifecycle, e: Event) -> (Lifecycle, Action) {
    if is_request(e) {
        request_step(l, e)
    } else {
        answer_step(l, e)
    }
}

/// What is to be logged when a supervisor that stands at `l` is told of
/// `e`.
pub open spec fn warning_of(l: Lifecycle, e: Event) -> Option<Warning> {
    match (l, e) {
        (Lifecycle::Stopping { phase: StopPhase::Graceful, .. }, Event::GraceExpired) => Some(
            Warning::GracefulStopTimeout,
        ),
        (Lifecycle::Stopping { phase: StopPhase::Graceful, .. }, Event::WaitFailed) => Some(
            Warning::WaitFailed,
        ),
        _ => None,
    }
}

/// Where the supervisor stands after it was told of `events`, one after the
/// other.
pub open spec fn run(l: Lifecycle, events: Seq<Event>) -> Lifecycle
    decreases events.len(),
{
    if events.len() == 0 {
        l
    } else {
        step(run(l, events.drop_last()), events.last()).0
    }
}

/// What the supervisor asked when it was told of the last of `events`.
pub open spec fn asked(l: Lifecycle, events: Seq<Event>) -> Action
    recommends
        events.len() > 0,
{
    step(run(l, events.drop_last()), events.last()).1
}

/// Whether `a` has the driver create, signal or kill a process.
pub open spec fn touches_process(a: Action) -> bool {
    a is Spawn || a is Terminate || a is ForceKill
}

/// A worker is held exactly while the supervisor is running or stopping.
pub proof fn lemma_worker_held_while_running_or_stopping(l: Lifecycle)
    ensures
        process_of(l) is Some <==> state_of(l) == SupervisorState::Running || state_of(l)
            == SupervisorState::Stopping,
{
}

/// A worker is asked for only by a supervisor that holds none, and is taken
/// on only by one that asked for it.
pub proof fn lemma_one_worker_at_a_time(l: Lifecycle, e: Event)
    ensures
        step(l, e).1 is Spawn ==> process_of(l) is None && process_of(step(l, e).0) is None,
        process_of(l) is None && process_of(step(l, e).0) is Some ==> l == (Lifecycle::Starting {
            phase: StartPhase::Spawning,
        }) && e is Spawned,
        process_of(l) is Some && process_of(step(l, e).0) is Some ==> process_of(step(l, e).0)
            == process_of(l),
{
}

/// As long as nobody asks for a stop or a restart, a running supervisor
/// stays as it is, with the worker it has, whatever it is told and however
/// often it is asked to start; nothing it asks then touches a process.
pub proof fn lemma_running_until_stop_requested(l: Lifecycle, events: Seq<Event>)
    requires
        l is Running,
        forall|i: int|
            0 <= i < events.len() ==> !(#[trigger] events[i] is StopRequested) && !(events[i]
                is RestartRequested),
    ensures
        run(l, events) == l,
        events.len() > 0 ==> !touches_process(asked(l, events)),
        events.len() > 0 && events.last() is StartRequested ==> asked(l, events) == (
        Action::Finished { outcome: Outcome::AlreadyRunning }),
    decreases events.len(),
{
    if events.len() > 0 {
        let before = events.drop_last();
        assert forall|i: int| 0 <= i < before.len() implies !(#[trigger] before[i]
            is StopRequested) && !(before[i] is RestartRequested) by {
            assert(before[i] == events[i]);
        }
        lemma_running_until_stop_requested(l, before);
        assert(events.last() == events[events.len() - 1]);
    }
}

/// A stop that is asked of a stopped supervisor ends at once and well: the
/// supervisor stays stopped, and no process is created, signalled or killed.
pub proof fn lemma_stop_when_stopped()
    ensures
        step(Lifecycle::Stopped, Event::StopRequested) == (
            Lifecycle::Stopped,
            Action::Finished { outcome: Outcome::NotRunning },
        ),
        !touches_process(step(Lifecycle::Stopped, Event::StopRequested).1),
{
}

/// As soon as a stop or a restart is asked of a running supervisor it no
/// longer counts as running, though it still holds the worker.
pub proof fn lemma_stopping_at_once(l: Lifecycle, e: Event)
    requires
        l is Running,
        e is StopRequested || e is RestartRequested,
    ensures
        state_of(step(l, e).0) == SupervisorState::Stopping,
        process_of(step(l, e).0) == process_of(l),
        step(l, e).1 == (Action::Terminate {
            group: group_of(l->Running_process),
            grace_secs: GRACE_PERIOD_SECS,
        }),
{
}

/// Whether `e` is one of the answers that the action `a` asks for.
pub open spec fn is_answer_to(a: Action, e: Event) -> bool {
    match a {
        Action::CheckExecutable => e is ExecutableFound || e is ExecutableMissing,
        Action::OpenLog => e is LogOpened || e is LogFailed,
        Action::Spawn => e is Spawned || e is SpawnFailed,
        Action::Terminate { .. } => e is Exited || e is WaitFailed || e is GraceExpired,
        Action::ForceKill { .. } => e is Killed,
        Action::Settle { .. } => e is Settled,
        _ => false,
    }
}

/// How many answers a supervisor may still need before the request it
/// drives is closed.
pub open spec fn answers_left(l: Lifecycle) -> nat {
    match l {
        Lifecycle::Stopped => 0,
        Lifecycle::Running { .. } => 0,
        Lifecycle::Starting { phase: StartPhase::Spawning } => 1,
        Lifecycle::Starting { phase: StartPhase::OpeningLog } => 2,
        Lifecycle::Starting { phase: StartPhase::CheckingExecutable } => 3,
        Lifecycle::Settling => 4,
        Lifecycle::Stopping { phase: StopPhase::Forced, restart, .. } => if restart {
            5
        } else {
            1
        },
        Lifecycle::Stopping { phase: StopPhase::Graceful, restart, .. } => if restart {
            6
        } else {
            2
        },
    }
}

/// A driver that answers what it is asked is never ignored, and each of its
/// answers brings the request nearer to its end: no request takes more than
/// six answers, and one is closed exactly when none is left to give.
pub proof fn lemma_answers_close_the_request(l: Lifecycle, e: Event, answer: Event)
    requires
        is_answer_to(step(l, e).1, answer),
    ensures
        !(step(step(l, e).0, answer).1 is Ignored),
        answers_left(step(step(l, e).0, answer).0) < answers_left(step(l, e).0),
        answers_left(step(l, e).0) <= 6,
        result_of(step(step(l, e).0, answer).1) is Some <==> answers_left(
            step(step(l, e).0, answer).0,
        ) == 0,
{
}

/// Whether `answers` is one of the ways in which a stop can go: the worker
/// exits in time, waiting for it fails, or the grace period runs out and the
/// worker is killed.
pub open spec fn stop_answers(answers: Seq<Event>) -> bool {
    ||| answers == seq![Event::Exited]
    ||| answers == seq![Event::WaitFailed]
    ||| answers == seq![Event::GraceExpired, Event::Killed]
}

/// A stop of a running supervisor ends with the supervisor stopped and no
/// worker held, however the worker went.
pub proof fn lemma_stop_ends_stopped(l: Lifecycle, answers: Seq<Event>)
    requires
        l is Running,
        stop_answers(answers),
    ensures
        run(l, seq![Event::StopRequested] + answers) == Lifecycle::Stopped,
        asked(l, seq![Event::StopRequested] + answers) == (Action::Finished {
            outcome: Outcome::Stopped,
        }),
{
    let events = seq![Event::StopRequested] + answers;
    let first = seq![Event::StopRequested];
    assert(first.drop_last() =~= Seq::<Event>::empty());
    assert(run(l, first) == step(run(l, first.drop_last()), first.last()).0);
    if answers.len() == 1 {
        assert(events.drop_last() =~= first);
        assert(events.last() == answers[0]);
    } else {
        let second = seq![Event::StopRequested, Event::GraceExpired];
        assert(events.drop_last() =~= second);
        assert(second.drop_last() =~= first);
        assert(events.last() == answers[1]);
        assert(second.last() == answers[0]);
    }
}

/// Whether `answers` is the way in which a start goes well: the interpreter
/// is there, the log opens and the worker is created with process id `pid`.
pub open spec fn start_answers(answers: Seq<Event>, pid: Option<u32>) -> bool {
    answers == seq![Event::ExecutableFound, Event::LogOpened, Event::Spawned { pid }]
}

/// A start of a stopped supervisor that goes well ends with the supervisor
/// running and holding the worker that was created.
pub proof fn lemma_start_ends_running(answers: Seq<Event>, pid: Option<u32>)
    requires
        start_answers(answers, pid),
    ensures
        run(Lifecycle::Stopped, seq![Event::StartRequested] + answers) == (Lifecycle::Running {
            process: ManagedProcess { pid },
        }),
        asked(Lifecycle::Stopped, seq![Event::StartRequested] + answers) == (Action::Finished {
            outcome: Outcome::Started,
        }),
{
    let l = Lifecycle::Stopped;
    let e0 = seq![Event::StartRequested];
    let e1 = seq![Event::StartRequested, Event::ExecutableFound];
    let e2 = seq![Event::StartRequested, Event::ExecutableFound, Event::LogOpened];
    let e3 = seq![Event::StartRequested] + answers;
    assert(e0.drop_last() =~= Seq::<Event>::empty());
    assert(e1.drop_last() =~= e0);
    assert(e2.drop_last() =~= e1);
    assert(e3.drop_last() =~= e2);
    assert(run(l, e0) == step(run(l, e0.drop_last()), e0.last()).0);
    assert(run(l, e1) == step(run(l, e0), e1.last()).0);
    assert(run(l, e2) == step(run(l, e1), e2.last()).0);
    assert(e3.last() == answers[2]);
}

/// A restart of a running supervisor whose start goes well ends with the
/// supervisor running and holding the new worker, however the old one went.
pub proof fn lemma_restart_ends_running(
    l: Lifecycle,
    stopping: Seq<Event>,
    starting: Seq<Event>,
    pid: Option<u32>,
)
    requires
        l is Running,
        stop_answers(stopping),
        start_answers(starting, pid),
    ensures
        ({
            let settling = run(l, seq![Event::RestartRequested] + stopping);
            &&& settling == Lifecycle::Settling
            &&& asked(l, seq![Event::RestartRequested] + stopping) == (Action::Settle {
                secs: SETTLE_DELAY_SECS,
            })
            &&& run(settling, seq![Event::Settled] + starting) == (Lifecycle::Running {
                process: ManagedProcess { pid },
            })
            &&& asked(settling, seq![Event::Settled] + starting) == (Action::Finished {
                outcome: Outcome::Started,
            })
        }),
{
    let first = seq![Event::RestartRequested];
    let events = first + stopping;
    assert(first.drop_last() =~= Seq::<Event>::empty());
    assert(run(l, first) == step(run(l, first.drop_last()), first.last()).0);
    if stopping.len() == 1 {
        assert(events.drop_last() =~= first);
        assert(events.last() == stopping[0]);
    } else {
        let second = seq![Event::RestartRequested, Event::GraceExpired];
        assert(events.drop_last() =~= second);
        assert(second.drop_last() =~= first);
        assert(events.last() == stopping[1]);
        assert(second.last() == stopping[0]);
    }
    let s = Lifecycle::Settling;
    let e0 = seq![Event::Settled];
    let e1 = seq![Event::Settled, Event::ExecutableFound];
    let e2 = seq![Event::Settled, Event::ExecutableFound, Event::LogOpened];
    let e3 = seq![Event::Settled] + starting;
    assert(e0.drop_last() =~= Seq::<Event>::empty());
    assert(e1.drop_last() =~= e0);
    assert(e2.drop_last() =~= e1);
    assert(e3.drop_last() =~= e2);
    assert(run(s, e0) == step(run(s, e0.drop_last()), e0.last()).0);
    assert(run(s, e1) == step(run(s, e0), e1.last()).0);
    assert(run(s, e2) == step(run(s, e1), e2.last()).0);
    assert(e3.last() == starting[2]);
}

/// Whether `answers` is one of the ways in which a start fails with
/// `error`: the interpreter is missing, the log does not open, or the worker
/// cannot be created.
pub open spec fn failed_start_answers(answers: Seq<Event>, error: SupervisorError) -> bool {
    ||| answers == seq![Event::ExecutableMissing] && error == SupervisorError::ExecutableNotFound
    ||| answers == seq![Event::ExecutableFound, Event::LogFailed] && error
        == SupervisorError::SpawnError
    ||| answers == seq![Event::ExecutableFound, Event::LogOpened, Event::SpawnFailed] && error
        == SupervisorError::SpawnError
}

/// A start of a stopped supervisor that fails leaves the supervisor stopped,
/// and tells why it failed.
pub proof fn lemma_failed_start_ends_stopped(answers: Seq<Event>, error: SupervisorError)
    requires
        failed_start_answers(answers, error),
    ensures
        run(Lifecycle::Stopped, seq![Event::StartRequested] + answers) == Lifecycle::Stopped,
        asked(Lifecycle::Stopped, seq![Event::StartRequested] + answers) == (Action::Failed {
            error,
        }),
{
    let l = Lifecycle::Stopped;
    let e0 = seq![Event::StartRequested];
    let e1 = seq![Event::StartRequested, Event::ExecutableFound];
    let e2 = seq![Event::StartRequested, Event::ExecutableFound, Event::LogOpened];
    let all = seq![Event::StartRequested] + answers;
    assert(e0.drop_last() =~= Seq::<Event>::empty());
    assert(e1.drop_last() =~= e0);
    assert(e2.drop_last() =~= e1);
    assert(run(l, e0) == step(run(l, e0.drop_last()), e0.last()).0);
    assert(run(l, e1) == step(run(l, e0), e1.last()).0);
    assert(run(l, e2) == step(run(l, e1), e2.last()).0);
    if answers.len() == 1 {
        assert(all.drop_last() =~= e0);
        assert(all.last() == answers[0]);
    } else if answers.len() == 2 {
        assert(all.drop_last() =~= e1);
        assert(all.last() == answers[1]);
    } else {
        assert(all.drop_last() =~= e2);
        assert(all.last() == answers[2]);
    }
}

/// How the request ended that `action` closes; `None` where `action` closes
/// no request.
pub open spec fn result_of(action: Action) -> Option<Result<(), SupervisorError>> {
    match action {
        Action::Finished { .. } => Some(Ok(())),
        Action::Failed { error } => Some(Err(error)),
        _ => None,
    }
}

/// The words for a failure of the supervisor `d`.
pub open spec fn supervisor_error_text(d: DaemonView, e: SupervisorError) -> Seq<char> {
    match e {
        SupervisorError::ExecutableNotFound => "Python not found at "@ + d.python_path,
        SupervisorError::SpawnError => "Failed to spawn ESPHome process"@,
        SupervisorError::Busy => "Another request is still in progress"@,
    }
}

impl Action {
    /// How the request ended that this action closes; `None` where it
    /// closes none.
    pub fn result(&self) -> (r: Option<Result<(), SupervisorError>>)
        ensures
            r == result_of(*self),
    {
        match self {
            Action::Finished { .. } => Some(Ok(())),
            Action::Failed { error } => Some(Err(*error)),
            _ => None,
        }
    }
}

/// Name of the worker's log in the log directory.
pub const LOG_FILE_NAME: &'static str = "dashboard.log";

/// Address that the worker binds.
pub const BIND_ADDRESS: &'static str = "127.0.0.1";

/// The places that the supervisor is told of when it is made.
#[derive(Clone, Debug, PartialEq, Eq)]
pub struct Locations {
    /// Directory of the application's own data.
    pub data_dir: String,
    /// The interpreter that runs the worker.
    pub python_path: String,
    /// Directory of the tool's commands, to be found through `PATH`.
    pub venv_bin_dir: String,
    /// The user's home directory, where there is one.
    pub home_dir: Option<String>,
}

/// The supervisor of one dashboard worker.
#[derive(Debug)]
pub struct DaemonManager {
    python_path: String,
    venv_bin_dir: String,
    config_dir: String,
    logs_dir: String,
    port: u16,
    lifecycle: Lifecycle,
}

/// What a supervisor is made of.
pub ghost struct DaemonView {
    pub python_path: Seq<char>,
    pub venv_bin_dir: Seq<char>,
    pub config_dir: Seq<char>,
    pub logs_dir: Seq<char>,
    pub port: u16,
    pub lifecycle: Lifecycle,
}

impl View for DaemonManager {
    type V = DaemonView;

    closed spec fn view(&self) -> DaemonView {
        DaemonView {
            python_path: self.python_path@,
            venv_bin_dir: self.venv_bin_dir@,
            config_dir: self.config_dir@,
            logs_dir: self.logs_dir@,
            port: self.port,
            lifecycle: self.lifecycle,
        }
    }
}

/// The directory of the device configurations: the one the user chose, else
/// `esphome` in the home directory, else `esphome` where the worker runs.
pub open spec fn chosen_config_dir(chosen: Option<String>, home: Option<String>) -> Seq<char> {
    match chosen {
        Some(dir) => dir@,
        None => match home {
            Some(h) => joined(h@, "esphome"@),
            None => "esphome"@,
        },
    }
}

/// How the worker is to be created.
#[derive(Clone, Debug, PartialEq, Eq)]
pub struct LaunchPlan {
    /// The program to run.
    pub program: String,
    /// Its arguments.
    pub args: Vec<String>,
    /// The directory it runs in.
    pub working_dir: String,
    /// Variables added to its environment, name and value.
    pub env: Vec<(String, String)>,
    /// The file that receives its standard output and standard error.
    pub log_file: String,
    /// Whether it leads a process group of its own, so that its descendants
    /// can be signalled with it.
    pub own_process_group: bool,
}

/// What a launch plan says.
pub ghost struct LaunchPlanView {
    pub program: Seq<char>,
    pub args: Seq<Seq<char>>,
    pub working_dir: Seq<char>,
    pub env: Seq<(Seq<char>, Seq<char>)>,
    pub log_file: Seq<char>,
    pub own_process_group: bool,
}

impl View for LaunchPlan {
    type V = LaunchPlanView;

    open spec fn view(&self) -> LaunchPlanView {
        LaunchPlanView {
            program: self.program@,
            args: Seq::new(self.args@.len(), |i: int| self.args@[i]@),
            working_dir: self.working_dir@,
            env: Seq::new(self.env@.len(), |i: int| (self.env@[i].0@, self.env@[i].1@)),
            log_file: self.log_file@,
            own_process_group: self.own_process_group,
        }
    }
}

/// The launch plan of the supervisor `d` where the inherited search path is
/// `inherited_path`: the interpreter runs the tool's dashboard on the
/// configuration directory, bound to the local address and the chosen port,
/// from within the configuration directory, with the marker variable set and
/// the tool's commands first on the search path.
pub open spec fn launch_plan_of(d: DaemonView, inherited_path: Seq<char>) -> LaunchPlanView {
    LaunchPlanView {
        program: d.python_path,
        args: seq![
            "-m"@,
            "esphome"@,
            "dashboard"@,
            d.config_dir,
            "--address"@,
            BIND_ADDRESS@,
            "--port"@,
            decimal_text(d.port as nat),
        ],
        working_dir: d.config_dir,
        env: seq![
            ("ESPHOME_DASHBOARD"@, "1"@),
            ("PATH"@, d.venv_bin_dir + ":"@ + inherited_path),
        ],
        log_file: joined(d.logs_dir, LOG_FILE_NAME@),
        own_process_group: true,
    }
}

/// Computes the process group of a worker.
pub fn process_group(process: ManagedProcess) -> (group: Option<i32>)
    ensures
        group == group_of(process),
{
    match process.pid {
        Some(pid) => {
            if 0 < pid && pid <= 0x7fff_ffff {
                Some(pid as i32)
            } else {
                None
            }
        },
        None => None,
    }
}

impl DaemonManager {
    /// A supervisor that holds no worker yet.
    pub fn new(settings: &Settings, locations: &Locations) -> (manager: DaemonManager)
        ensures
            manager@ == (DaemonView {
                python_path: locations.python_path@,
                venv_bin_dir: locations.venv_bin_dir@,
                config_dir: chosen_config_dir(settings.config_dir, locations.home_dir),
                logs_dir: joined(locations.data_dir@, "logs"@),
                port: settings.port,
                lifecycle: Lifecycle::Stopped,
            }),
    {
        let config_dir = match &settings.config_dir {
            Some(dir) => dir.clone(),
            None => match &locations.home_dir {
                Some(home) => join_path(home.as_str(), "esphome"),
                None => String::from_str("esphome"),
            },
        };
        DaemonManager {
            python_path: locations.python_path.clone(),
            venv_bin_dir: locations.venv_bin_dir.clone(),
            config_dir,
            logs_dir: join_path(locations.data_dir.as_str(), "logs"),
            port: settings.port,
            lifecycle: Lifecycle::Stopped,
        }
    }

    /// Tells the supervisor of `event`; returns what it asks next.
    pub fn advance(&mut self, event: Event) -> (action: Action)
        ensures
            final(self)@ == (DaemonView { lifecycle: step(old(self)@.lifecycle, event).0, ..old(self)@ }),
            action == step(old(self)@.lifecycle, event).1,
    {
        let (next, action) = match (self.lifecycle, event) {
            (Lifecycle::Stopped, Event::StartRequested) => (
                Lifecycle::Starting { phase: StartPhase::CheckingExecutable },
                Action::CheckExecutable,
            ),
            (Lifecycle::Running { .. }, Event::StartRequested) => (
                self.lifecycle,
                Action::Finished { outcome: Outcome::AlreadyRunning },
            ),
            (Lifecycle::Stopped, Event::StopRequested) => (
                self.lifecycle,
                Action::Finished { outcome: Outcome::NotRunning },
            ),
            (Lifecycle::Running { process }, Event::StopRequested) => (
                Lifecycle::Stopping { process, phase: StopPhase::Graceful, restart: false },
                Action::Terminate { group: process_group(process), grace_secs: GRACE_PERIOD_SECS },
            ),
            (Lifecycle::Stopped, Event::RestartRequested) => (
                Lifecycle::Settling,
                Action::Settle { secs: SETTLE_DELAY_SECS },
            ),
            (Lifecycle::Running { process }, Event::RestartRequested) => (
                Lifecycle::Stopping { process, phase: StopPhase::Graceful, restart: true },
                Action::Terminate { group: process_group(process), grace_secs: GRACE_PERIOD_SECS },
            ),
            (_, Event::StartRequested) => (
                self.lifecycle,
                Action::Failed { error: SupervisorError::Busy },
            ),
            (_, Event::StopRequested) => (
                self.lifecycle,
                Action::Failed { error: SupervisorError::Busy },
            ),
            (_, Event::RestartRequested) => (
                self.lifecycle,
                Action::Failed { error: SupervisorError::Busy },
            ),
            (
                Lifecycle::Starting { phase: StartPhase::CheckingExecutable },
                Event::ExecutableFound,
            ) => (Lifecycle::Starting { phase: StartPhase::OpeningLog }, Action::OpenLog),
            (
                Lifecycle::Starting { phase: StartPhase::CheckingExecutable },
                Event::ExecutableMissing,
            ) => (
                Lifecycle::Stopped,
                Action::Failed { error: SupervisorError::ExecutableNotFound },
            ),
            (Lifecycle::Starting { phase: StartPhase::OpeningLog }, Event::LogOpened) => (
                Lifecycle::Starting { phase: StartPhase::Spawning },
                Action::Spawn,
            ),
            (Lifecycle::Starting { phase: StartPhase::OpeningLog }, Event::LogFailed) => (
                Lifecycle::Stopped,
                Action::Failed { error: SupervisorError::SpawnError },
            ),
            (Lifecycle::Starting { phase: StartPhase::Spawning }, Event::Spawned { pid }) => (
                Lifecycle::Running { process: ManagedProcess { pid } },
                Action::Finished { outcome: Outcome::Started },
            ),
            (Lifecycle::Starting { phase: StartPhase::Spawning }, Event::SpawnFailed) => (
                Lifecycle::Stopped,
                Action::Failed { error: SupervisorError::SpawnError },
            ),
            (Lifecycle::Stopping { phase: StopPhase::Graceful, restart, .. }, Event::Exited) => {
                stopped(restart)
            },
            (
                Lifecycle::Stopping { phase: StopPhase::Graceful, restart, .. },
                Event::WaitFailed,
            ) => stopped(restart),
            (
                Lifecycle::Stopping { process, phase: StopPhase::Graceful, restart },
                Event::GraceExpired,
            ) => (
                Lifecycle::Stopping { process, phase: StopPhase::Forced, restart },
                Action::ForceKill { group: process_group(process) },
            ),
            (Lifecycle::Stopping { phase: StopPhase::Forced, restart, .. }, Event::Killed) => {
                stopped(restart)
            },
            (Lifecycle::Settling, Event::Settled) => (
                Lifecycle::Starting { phase: StartPhase::CheckingExecutable },
                Action::CheckExecutable,
            ),
            _ => (self.lifecycle, Action::Ignored),
        };
        self.lifecycle = next;
        action
    }

    /// Asks for a running worker.
    pub fn start(&mut self) -> (action: Action)
        ensures
            final(self)@ == (DaemonView {
                lifecycle: step(old(self)@.lifecycle, Event::StartRequested).0,
                ..old(self)@
            }),
            action == step(old(self)@.lifecycle, Event::StartRequested).1,
            old(self)@.lifecycle is Running ==> final(self)@ == old(self)@ && action == (
            Action::Finished { outcome: Outcome::AlreadyRunning }),
    {
        self.advance(Event::StartRequested)
    }

    /// Asks for the worker to be gone.
    pub fn stop(&mut self) -> (action: Action)
        ensures
            final(self)@ == (DaemonView {
                lifecycle: step(old(self)@.lifecycle, Event::StopRequested).0,
                ..old(self)@
            }),
            action == step(old(self)@.lifecycle, Event::StopRequested).1,
            old(self)@.lifecycle is Stopped ==> final(self)@ == old(self)@ && action == (
            Action::Finished { outcome: Outcome::NotRunning }),
    {
        self.advance(Event::StopRequested)
    }

    /// Asks for the worker to be stopped and, after the settle delay,
    /// started again.
    pub fn restart(&mut self) -> (action: Action)
        ensures
            final(self)@ == (DaemonView {
                lifecycle: step(old(self)@.lifecycle, Event::RestartRequested).0,
                ..old(self)@
            }),
            action == step(old(self)@.lifecycle, Event::RestartRequested).1,
    {
        self.advance(Event::RestartRequested)
    }

    /// Whether a worker runs.
    pub fn is_running(&self) -> (running: bool)
        ensures
            running == (state_of(self@.lifecycle) == SupervisorState::Running),
    {
        match self.lifecycle {
            Lifecycle::Running { .. } => true,
            _ => false,
        }
    }

    /// The state that callers see.
    pub fn state(&self) -> (state: SupervisorState)
        ensures
            state == state_of(self@.lifecycle),
    {
        match self.lifecycle {
            Lifecycle::Stopped => SupervisorState::Stopped,
            Lifecycle::Settling => SupervisorState::Stopped,
            Lifecycle::Starting { .. } => SupervisorState::Starting,
            Lifecycle::Running { .. } => SupervisorState::Running,
            Lifecycle::Stopping { .. } => SupervisorState::Stopping,
        }
    }

    /// The worker that is held, if any.
    pub fn process(&self) -> (process: Option<ManagedProcess>)
        ensures
            process == process_of(self@.lifecycle),
    {
        match self.lifecycle {
            Lifecycle::Running { process } => Some(process),
            Lifecycle::Stopping { process, .. } => Some(process),
            _ => None,
        }
    }

    /// The port of the dashboard.
    pub fn port(&self) -> (port: u16)
        ensures
            port == self@.port,
    {
        self.port
    }

    /// The directory of the device configurations.
    pub fn config_dir(&self) -> (dir: &String)
        ensures
            dir@ == self@.config_dir,
    {
        &self.config_dir
    }

    /// The directory of the worker's log.
    pub fn logs_dir(&self) -> (dir: &String)
        ensures
            dir@ == self@.logs_dir,
    {
        &self.logs_dir
    }

    /// The interpreter that runs the worker.
    pub fn python_path(&self) -> (path: &String)
        ensures
            path@ == self@.python_path,
    {
        &self.python_path
    }

    /// What is to be logged when the supervisor is told of `event` next.
    pub fn warning(&self, event: Event) -> (warning: Option<Warning>)
        ensures
            warning == warning_of(self@.lifecycle, event),
    {
        match (self.lifecycle, event) {
            (Lifecycle::Stopping { phase: StopPhase::Graceful, .. }, Event::GraceExpired) => Some(
                Warning::GracefulStopTimeout,
            ),
            (Lifecycle::Stopping { phase: StopPhase::Graceful, .. }, Event::WaitFailed) => Some(
                Warning::WaitFailed,
            ),
            _ => None,
        }
    }

    /// The file that receives what the worker writes.
    pub fn log_file(&self) -> (path: String)
        ensures
            path@ == joined(self@.logs_dir, LOG_FILE_NAME@),
    {
        join_path(self.logs_dir.as_str(), LOG_FILE_NAME)
    }

    /// The health monitor to launch beside the worker: one for the
    /// dashboard's port while a worker runs, none otherwise.
    pub fn health_monitor(&self) -> (monitor: Option<HealthMonitor>)
        ensures
            monitor is Some <==> self@.lifecycle is Running,
            monitor is Some ==> monitor->0.port_of() == self@.port && monitor->0.state_of()
                == MonitorState::Fresh,
    {
        match self.lifecycle {
            Lifecycle::Running { .. } => Some(HealthMonitor::new(self.port)),
            _ => None,
        }
    }

    /// The words for a failure of this supervisor.
    pub fn describe(&self, error: SupervisorError) -> (text: String)
        ensures
            text@ == supervisor_error_text(self@, error),
    {
        match error {
            SupervisorError::ExecutableNotFound => {
                let mut text = String::from_str("Python not found at ");
                text.append(self.python_path.as_str());
                text
            },
            SupervisorError::SpawnError => String::from_str("Failed to spawn ESPHome process"),
            SupervisorError::Busy => String::from_str("Another request is still in progress"),
        }
    }

    /// How the worker is to be created, given the search path that this
    /// process inherited.
    pub fn launch_plan(&self, inherited_path: &str) -> (plan: LaunchPlan)
        ensures
            plan@ == launch_plan_of(self@, inherited_path@),
    {
        let mut args: Vec<String> = Vec::new();
        args.push(String::from_str("-m"));
        args.push(String::from_str("esphome"));
        args.push(String::from_str("dashboard"));
        args.push(self.config_dir.clone());
        args.push(String::from_str("--address"));
        args.push(String::from_str(BIND_ADDRESS));
        args.push(String::from_str("--port"));
        args.push(decimal(self.port));
        let mut search_path = self.venv_bin_dir.clone();
        search_path.append(":");
        search_path.append(inherited_path);
        let mut env: Vec<(String, String)> = Vec::new();
        env.push((String::from_str("ESPHOME_DASHBOARD"), String::from_str("1")));
        env.push((String::from_str("PATH"), search_path));
        let plan = LaunchPlan {
            program: self.python_path.clone(),
            args,
            working_dir: self.config_dir.clone(),
            env,
            log_file: join_path(self.logs_dir.as_str(), LOG_FILE_NAME),
            own_process_group: true,
        };
        assert(plan@.args =~= launch_plan_of(self@, inherited_path@).args);
        assert(plan@.env =~= launch_plan_of(self@, inherited_path@).env);
        plan
    }
}

/// Where the supervisor stands once the worker is gone, and what it asks
/// then.
fn stopped(restart: bool) -> (r: (Lifecycle, Action))
    ensures
        r == after_stop(restart),
{
    if restart {
        (Lifecycle::Settling, Action::Settle { secs: SETTLE_DELAY_SECS })
    } else {
        (Lifecycle::Stopped, Action::Finished { outcome: Outcome::Stopped })
    }
}

} // verus!
