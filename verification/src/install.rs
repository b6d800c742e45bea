//! One attempt to bring the tool to a chosen version: stop the worker,
//! install, start the worker again, and tell the user how it went.
//!
//! The attempt is a record that the driver fills in as it carries out the
//! steps; what comes next is decided from the record alone.

use vstd::prelude::*;
use vstd::string::*;
use crate::daemon::{
    asked, failed_start_answers, lemma_failed_start_ends_stopped, lemma_start_ends_running,
    result_of, run, start_answers, state_of, supervisor_error_text, DaemonManager, DaemonView,
    stop_answers, lemma_stop_ends_stopped, Action, Event, Lifecycle, SupervisorError,
    SupervisorState,
};
use crate::notice::{message_view, Message, MessageKind, MessageView};
use crate::text::{decode_lossy, join3, lossy_text};
use crate::update::UpdateChecker;

verus! {

/// The programs that can install the tool.
#[derive(Clone, Copy, Debug, PartialEq, Eq, Structural)]
pub enum Installer {
    /// The fast installer, tried first.
    Uv,
    /// The conventional installer, tried when the fast one did not succeed.
    Pip,
}

/// How one run of an installer went.
#[derive(Clone, Debug, PartialEq, Eq)]
pub enum InstallerRun {
    /// It could not be run.
    NotLaunched,
    /// It ran; `stderr` is what it wrote to its standard error.
    Exited { success: bool, stderr: Vec<u8> },
}

/// Whether the run installed the tool.
pub open spec fn succeeded(run: InstallerRun) -> bool {
    run matches InstallerRun::Exited { success, .. } && success
}

/// What installing does next.
#[derive(Clone, Debug, PartialEq, Eq)]
pub enum InstallStep {
    /// Run this installer and record how it went.
    Run { installer: Installer },
    /// The tool is installed.
    Installed,
    /// Neither installer succeeded.
    Failed { detail: String },
}

/// What a step of installing says.
pub ghost enum InstallStepView {
    Run { installer: Installer },
    Installed,
    Failed { detail: Seq<char> },
}

impl View for InstallStep {
    type V = InstallStepView;

    open spec fn view(&self) -> InstallStepView {
        match *self {
            InstallStep::Run { installer } => InstallStepView::Run { installer },
            InstallStep::Installed => InstallStepView::Installed,
            InstallStep::Failed { detail } => InstallStepView::Failed { detail: detail@ },
        }
    }
}

/// The next step of installing: the fast installer is run first; if it does
/// not succeed the conventional one is run once; if that does not succeed
/// either, installing has failed, with what the conventional installer wrote
/// to its standard error.
pub open spec fn install_step(
    primary: Option<InstallerRun>,
    fallback: Option<InstallerRun>,
) -> InstallStepView {
    match primary {
        None => InstallStepView::Run { installer: Installer::Uv },
        Some(first) => if succeeded(first) {
            InstallStepView::Installed
        } else {
            match fallback {
                None => InstallStepView::Run { installer: Installer::Pip },
                Some(InstallerRun::NotLaunched) => InstallStepView::Failed {
                    detail: "Failed to run pip install"@,
                },
                Some(InstallerRun::Exited { success, stderr }) => if success {
                    InstallStepView::Installed
                } else {
                    InstallStepView::Failed {
                        detail: "pip install failed: "@ + lossy_text(stderr@),
                    }
                },
            }
        },
    }
}

/// Words the failure of the conventional installer, which wrote `stderr`.
pub fn failed_install_detail(stderr: &str) -> (detail: String)
    ensures
        detail@ == "pip install failed: "@ + stderr@,
{
    let mut detail = String::from_str("pip install failed: ");
    detail.append(stderr);
    detail
}

/// The arguments with which the interpreter runs `installer` for the exact
/// version `version` of the tool.
pub open spec fn install_args_of(installer: Installer, version: Seq<char>) -> Seq<Seq<char>> {
    match installer {
        Installer::Uv => seq!["-m"@, "uv"@, "pip"@, "install"@, "esphome=="@ + version],
        Installer::Pip => seq!["-m"@, "pip"@, "install"@, "esphome=="@ + version],
    }
}

/// Writes the arguments with which the interpreter runs `installer`.
pub fn install_args(installer: Installer, version: &str) -> (args: Vec<String>)
    ensures
        Seq::new(args@.len(), |i: int| args@[i]@) == install_args_of(installer, version@),
{
    let mut package = String::from_str("esphome==");
    package.append(version);
    let mut args: Vec<String> = Vec::new();
    args.push(String::from_str("-m"));
    match installer {
        Installer::Uv => {
            args.push(String::from_str("uv"));
        },
        Installer::Pip => {},
    }
    args.push(String::from_str("pip"));
    args.push(String::from_str("install"));
    args.push(package);
    assert(Seq::new(args@.len(), |i: int| args@[i]@) =~= install_args_of(installer, version@));
    args
}

/// Why an attempt to update failed.
#[derive(Clone, Debug, PartialEq, Eq)]
pub enum UpdateError {
    /// The worker could not be stopped; nothing was installed.
    StopFailed { cause: SupervisorError },
    /// Neither installer succeeded.
    InstallError { detail: String },
    /// The tool was installed, but the worker did not start again.
    PartialUpdateFailure { cause: SupervisorError },
}

/// What a failure of an attempt says.
pub ghost enum UpdateErrorView {
    StopFailed { cause: SupervisorError },
    InstallError { detail: Seq<char> },
    PartialUpdateFailure { cause: SupervisorError },
}

impl View for UpdateError {
    type V = UpdateErrorView;

    open spec fn view(&self) -> UpdateErrorView {
        match *self {
            UpdateError::StopFailed { cause } => UpdateErrorView::StopFailed { cause },
            UpdateError::InstallError { detail } => UpdateErrorView::InstallError {
                detail: detail@,
            },
            UpdateError::PartialUpdateFailure { cause } => UpdateErrorView::PartialUpdateFailure {
                cause,
            },
        }
    }
}

/// The view of how an attempt ended.
pub open spec fn result_view(r: Result<(), UpdateError>) -> Result<(), UpdateErrorView> {
    match r {
        Ok(()) => Ok(()),
        Err(e) => Err(e@),
    }
}

/// The record of one attempt.
#[derive(Clone, Debug, PartialEq, Eq)]
pub struct UpdateAttempt {
    /// The version to install.
    pub version: String,
    /// How stopping the worker ended, once it was asked for.
    pub stop: Option<Result<(), SupervisorError>>,
    /// How the fast installer went, once it was run.
    pub primary: Option<InstallerRun>,
    /// How the conventional installer went, once it was run.
    pub fallback: Option<InstallerRun>,
    /// Whether the user was told that installing failed.
    pub failure_shown: bool,
    /// How starting the worker again ended, once it was asked for.
    pub restart: Option<Result<(), SupervisorError>>,
}

/// What an attempt does next.
#[derive(Debug, PartialEq, Eq)]
pub enum CycleStep {
    /// Drive a stop of the worker to its end and record how it ended.
    StopWorker,
    /// Run this installer and record how it went.
    RunInstaller { installer: Installer },
    /// Show the message and record that it was shown.
    ShowFailure { message: Message },
    /// Drive a start of the worker to its end and record how it ended.
    StartWorker,
    /// Show the message, if there is one; the attempt is over.
    Finish { message: Option<Message>, result: Result<(), UpdateError> },
}

/// What a step of an attempt says.
pub ghost enum CycleStepView {
    StopWorker,
    RunInstaller { installer: Installer },
    ShowFailure { message: MessageView },
    StartWorker,
    Finish { message: Option<MessageView>, result: Result<(), UpdateErrorView> },
}

impl View for CycleStep {
    type V = CycleStepView;

    open spec fn view(&self) -> CycleStepView {
        match *self {
            CycleStep::StopWorker => CycleStepView::StopWorker,
            CycleStep::RunInstaller { installer } => CycleStepView::RunInstaller { installer },
            CycleStep::ShowFailure { message } => CycleStepView::ShowFailure { message: message@ },
            CycleStep::StartWorker => CycleStepView::StartWorker,
            CycleStep::Finish { message, result } => CycleStepView::Finish {
                message: message_view(message),
                result: result_view(result),
            },
        }
    }
}

/// The message for a worker that could not be stopped.
pub open spec fn stop_failed_message(d: DaemonView, cause: SupervisorError) -> MessageView {
    MessageView {
        kind: MessageKind::Error,
        title: "Update Failed"@,
        text: "Failed to stop dashboard: "@ + supervisor_error_text(d, cause),
    }
}

/// The message for an installation that failed.
pub open spec fn install_failed_message(detail: Seq<char>) -> MessageView {
    MessageView {
        kind: MessageKind::Error,
        title: "Update Failed"@,
        text: "Failed to update ESPHome: "@ + detail,
    }
}

/// The message for an update that went well.
pub open spec fn updated_message(version: Seq<char>) -> MessageView {
    MessageView {
        kind: MessageKind::Info,
        title: "Update Complete"@,
        text: "ESPHome has been updated to version "@ + version + "."@,
    }
}

/// The message for an update after which the worker did not start.
pub open spec fn partly_updated_message(
    d: DaemonView,
    version: Seq<char>,
    cause: SupervisorError,
) -> MessageView {
    MessageView {
        kind: MessageKind::Warning,
        title: "Update Partially Complete"@,
        text: "ESPHome updated to "@ + version + ", but failed to restart dashboard: "@
            + supervisor_error_text(d, cause),
    }
}

/// The next step of the attempt `a` on the worker of the supervisor `d`.
///
/// The worker is stopped first; if that fails the attempt ends there and
/// nothing is installed. Then the tool is installed. If installing fails the
/// user is told, the worker is started again all the same, and the attempt
/// ends with the installation's failure however the start went. If installing
/// succeeds the worker is started again, and the attempt ends well if the
/// worker starts and as a partial failure if it does not.
pub open spec fn cycle_step(a: UpdateAttempt, d: DaemonView) -> CycleStepView {
    match a.stop {
        None => CycleStepView::StopWorker,
        Some(Err(cause)) => CycleStepView::Finish {
            message: Some(stop_failed_message(d, cause)),
            result: Err(UpdateErrorView::StopFailed { cause }),
        },
        Some(Ok(())) => match install_step(a.primary, a.fallback) {
            InstallStepView::Run { installer } => CycleStepView::RunInstaller { installer },
            InstallStepView::Installed => match a.restart {
                None => CycleStepView::StartWorker,
                Some(Ok(())) => CycleStepView::Finish {
                    message: Some(updated_message(a.version@)),
                    result: Ok(()),
                },
                Some(Err(cause)) => CycleStepView::Finish {
                    message: Some(partly_updated_message(d, a.version@, cause)),
                    result: Err(UpdateErrorView::PartialUpdateFailure { cause }),
                },
            },
            InstallStepView::Failed { detail } => if !a.failure_shown {
                CycleStepView::ShowFailure { message: install_failed_message(detail) }
            } else {
                match a.restart {
                    None => CycleStepView::StartWorker,
                    Some(_) => CycleStepView::Finish {
                        message: None,
                        result: Err(UpdateErrorView::InstallError { detail }),
                    },
                }
            },
        },
    }
}

impl UpdateChecker {
    /// The next step of installing, given how the installers went so far.
    pub fn update_to(
        &self,
        primary: &Option<InstallerRun>,
        fallback: &Option<InstallerRun>,
    ) -> (step: InstallStep)
        ensures
            step@ == install_step(*primary, *fallback),
    {
        match primary {
            None => {
                return InstallStep::Run { installer: Installer::Uv };
            },
            Some(InstallerRun::Exited { success, .. }) => {
                if *success {
                    return InstallStep::Installed;
                }
            },
            Some(InstallerRun::NotLaunched) => {},
        }
        match fallback {
            None => InstallStep::Run { installer: Installer::Pip },
            Some(InstallerRun::NotLaunched) => InstallStep::Failed {
                detail: String::from_str("Failed to run pip install"),
            },
            Some(InstallerRun::Exited { success, stderr }) => {
                if *success {
                    InstallStep::Installed
                } else {
                    let words = decode_lossy(stderr.as_slice());
                    InstallStep::Failed { detail: failed_install_detail(words.as_str()) }
                }
            },
        }
    }
}

impl UpdateAttempt {
    /// An attempt to install `version` of which nothing is done yet.
    pub fn new(version: String) -> (attempt: UpdateAttempt)
        ensures
            attempt == (UpdateAttempt {
                version,
                stop: None,
                primary: None,
                fallback: None,
                failure_shown: false,
                restart: None,
            }),
    {
        UpdateAttempt {
            version,
            stop: None,
            primary: None,
            fallback: None,
            failure_shown: false,
            restart: None,
        }
    }

    /// The next step of this attempt on the worker of `daemon`.
    pub fn next(&self, checker: &UpdateChecker, daemon: &DaemonManager) -> (step: CycleStep)
        ensures
            step@ == cycle_step(*self, daemon@),
    {
        match self.stop {
            None => {
                return CycleStep::StopWorker;
            },
            Some(Err(cause)) => {
                let words = daemon.describe(cause);
                let mut text = String::from_str("Failed to stop dashboard: ");
                text.append(words.as_str());
                return CycleStep::Finish {
                    message: Some(
                        Message {
                            kind: MessageKind::Error,
                            title: String::from_str("Update Failed"),
                            text,
                        },
                    ),
                    result: Err(UpdateError::StopFailed { cause }),
                };
            },
            Some(Ok(())) => {},
        }
        match checker.update_to(&self.primary, &self.fallback) {
            InstallStep::Run { installer } => CycleStep::RunInstaller { installer },
            InstallStep::Installed => match self.restart {
                None => CycleStep::StartWorker,
                Some(Ok(())) => CycleStep::Finish {
                    message: Some(
                        Message {
                            kind: MessageKind::Info,
                            title: String::from_str("Update Complete"),
                            text: join3(
                                "ESPHome has been updated to version ",
                                self.version.as_str(),
                                ".",
                            ),
                        },
                    ),
                    result: Ok(()),
                },
                Some(Err(cause)) => {
                    let words = daemon.describe(cause);
                    let mut text = join3(
                        "ESPHome updated to ",
                        self.version.as_str(),
                        ", but failed to restart dashboard: ",
                    );
                    text.append(words.as_str());
                    CycleStep::Finish {
                        message: Some(
                            Message {
                                kind: MessageKind::Warning,
                                title: String::from_str("Update Partially Complete"),
                                text,
                            },
                        ),
                        result: Err(UpdateError::PartialUpdateFailure { cause }),
                    }
                },
            },
            InstallStep::Failed { detail } => {
                if !self.failure_shown {
                    let mut text = String::from_str("Failed to update ESPHome: ");
                    text.append(detail.as_str());
                    CycleStep::ShowFailure {
                        message: Message {
                            kind: MessageKind::Error,
                            title: String::from_str("Update Failed"),
                            text,
                        },
                    }
                } else {
                    match self.restart {
                        None => CycleStep::StartWorker,
                        Some(_) => CycleStep::Finish {
                            message: None,
                            result: Err(UpdateError::InstallError { detail }),
                        },
                    }
                }
            },
        }
    }
}

impl UpdateAttempt {
    /// Records how stopping the worker ended, where `action` closes the
    /// request.
    pub fn record_stop(&mut self, action: Action)
        ensures
            *final(self) == (UpdateAttempt {
                stop: if result_of(action) is Some {
                    result_of(action)
                } else {
                    old(self).stop
                },
                ..*old(self)
            }),
    {
        match action.result() {
            Some(result) => {
                self.stop = Some(result);
            },
            None => {},
        }
    }

    /// Records how starting the worker again ended, where `action` closes
    /// the request.
    pub fn record_restart(&mut self, action: Action)
        ensures
            *final(self) == (UpdateAttempt {
                restart: if result_of(action) is Some {
                    result_of(action)
                } else {
                    old(self).restart
                },
                ..*old(self)
            }),
    {
        match action.result() {
            Some(result) => {
                self.restart = Some(result);
            },
            None => {},
        }
    }

    /// Records how a run of `installer` went.
    pub fn record_run(&mut self, installer: Installer, run: InstallerRun)
        ensures
            *final(self) == match installer {
                Installer::Uv => UpdateAttempt { primary: Some(run), ..*old(self) },
                Installer::Pip => UpdateAttempt { fallback: Some(run), ..*old(self) },
            },
    {
        match installer {
            Installer::Uv => {
                self.primary = Some(run);
            },
            Installer::Pip => {
                self.fallback = Some(run);
            },
        }
    }

    /// Records that the user was told that installing failed.
    pub fn record_shown(&mut self)
        ensures
            *final(self) == (UpdateAttempt { failure_shown: true, ..*old(self) }),
    {
        self.failure_shown = true;
    }
}

/// Nothing is installed unless the worker was stopped, and the conventional
/// installer is run only after the fast one was run without success, and
/// only once.
pub proof fn lemma_install_policy(a: UpdateAttempt, d: DaemonView)
    ensures
        cycle_step(a, d) is RunInstaller ==> a.stop is Some && a.stop->0 is Ok,
        cycle_step(a, d) == (CycleStepView::RunInstaller { installer: Installer::Uv })
            ==> a.primary is None,
        cycle_step(a, d) == (CycleStepView::RunInstaller { installer: Installer::Pip })
            ==> a.primary is Some && !succeeded(a.primary->0) && a.fallback is None,
        a.stop is Some && a.stop->0 is Err ==> cycle_step(a, d) is Finish,
{
}

/// An attempt asks only for what its record does not hold yet, so that
/// recording each step as it is done brings the attempt to its end.
pub proof fn lemma_attempt_asks_for_what_is_missing(a: UpdateAttempt, d: DaemonView)
    ensures
        cycle_step(a, d) is StopWorker ==> a.stop is None,
        cycle_step(a, d) == (CycleStepView::RunInstaller { installer: Installer::Uv })
            ==> a.primary is None,
        cycle_step(a, d) == (CycleStepView::RunInstaller { installer: Installer::Pip })
            ==> a.fallback is None,
        cycle_step(a, d) is ShowFailure ==> !a.failure_shown,
        cycle_step(a, d) is StartWorker ==> a.restart is None,
{
}

/// Where neither installer succeeded and the user was told so, the attempt
/// asks for the worker to be started again. If the worker had been running
/// and that start goes well, the supervisor is running again, and the
/// attempt ends with the installation's failure.
pub proof fn lemma_failed_install_restarts_worker(
    a: UpdateAttempt,
    d: DaemonView,
    before: Lifecycle,
    stopping: Seq<Event>,
    starting: Seq<Event>,
    pid: Option<u32>,
)
    requires
        before is Running,
        stop_answers(stopping),
        a.stop == result_of(asked(before, seq![Event::StopRequested] + stopping)),
        install_step(a.primary, a.fallback) is Failed,
        a.failure_shown,
        a.restart is None,
        start_answers(starting, pid),
    ensures
        cycle_step(a, d) == CycleStepView::StartWorker,
        ({
            let stopped = run(before, seq![Event::StopRequested] + stopping);
            let events = seq![Event::StartRequested] + starting;
            let after = UpdateAttempt { restart: result_of(asked(stopped, events)), ..a };
            &&& state_of(run(stopped, events)) == SupervisorState::Running
            &&& cycle_step(after, d) == (CycleStepView::Finish {
                message: None,
                result: Err(
                    UpdateErrorView::InstallError {
                        detail: install_step(a.primary, a.fallback)->detail,
                    },
                ),
            })
        }),
{
    lemma_stop_ends_stopped(before, stopping);
    lemma_start_ends_running(starting, pid);
}

/// Where the tool was installed, the attempt asks for the worker to be
/// started again. If that start fails, the supervisor is left stopped, and
/// the attempt ends as a partial failure that names the cause and is told to
/// the user as a warning.
pub proof fn lemma_failed_restart_is_partial_failure(
    a: UpdateAttempt,
    d: DaemonView,
    before: Lifecycle,
    stopping: Seq<Event>,
    starting: Seq<Event>,
    cause: SupervisorError,
)
    requires
        before is Running,
        stop_answers(stopping),
        a.stop == result_of(asked(before, seq![Event::StopRequested] + stopping)),
        install_step(a.primary, a.fallback) is Installed,
        a.restart is None,
        failed_start_answers(starting, cause),
    ensures
        cycle_step(a, d) == CycleStepView::StartWorker,
        ({
            let stopped = run(before, seq![Event::StopRequested] + stopping);
            let events = seq![Event::StartRequested] + starting;
            let after = UpdateAttempt { restart: result_of(asked(stopped, events)), ..a };
            &&& state_of(run(stopped, events)) == SupervisorState::Stopped
            &&& cycle_step(after, d) == (CycleStepView::Finish {
                message: Some(partly_updated_message(d, a.version@, cause)),
                result: Err(UpdateErrorView::PartialUpdateFailure { cause }),
            })
        }),
{
    lemma_stop_ends_stopped(before, stopping);
    lemma_failed_start_ends_stopped(starting, cause);
}

/// Where the tool was installed and the worker started again, the attempt
/// ends well and the supervisor is running.
pub proof fn lemma_update_succeeds(
    a: UpdateAttempt,
    d: DaemonView,
    before: Lifecycle,
    stopping: Seq<Event>,
    starting: Seq<Event>,
    pid: Option<u32>,
)
    requires
        before is Running,
        stop_answers(stopping),
        a.stop == result_of(asked(before, seq![Event::StopRequested] + stopping)),
        install_step(a.primary, a.fallback) is Installed,
        a.restart is None,
        start_answers(starting, pid),
    ensures
        ({
            let stopped = run(before, seq![Event::StopRequested] + stopping);
            let events = seq![Event::StartRequested] + starting;
            let after = UpdateAttempt { restart: result_of(asked(stopped, events)), ..a };
            &&& state_of(run(stopped, events)) == SupervisorState::Running
            &&& cycle_step(after, d) == (CycleStepView::Finish {
                message: Some(updated_message(a.version@)),
                result: Ok(()),
            })
        }),
{
    lemma_stop_ends_stopped(before, stopping);
    lemma_start_ends_running(starting, pid);
}

} // verus!
