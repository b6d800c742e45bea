//! Looking for a newer version of the tool: what is installed, what the
//! package registry offers, and what the user is told.

use vstd::prelude::*;
use vstd::string::*;
use crate::notice::{
    message_view, notification_view, text_view, Message, MessageKind, MessageView, Notification,
    NotificationView, Prompt, PromptView,
};
use crate::text::{
    chars_of, decode_lossy, join3, join5, lossy_text, starts_with, trim_bounds, trimmed,
    without_prefix,
};
use crate::version::{is_newer_version, newer, parse_version, version_vector};

verus! {

/// Where the registry tells the latest version of the tool.
pub const REGISTRY_URL: &'static str = "https://pypi.org/pypi/esphome/json";

/// Seconds that the registry is given to answer.
pub const FETCH_TIMEOUT_SECS: u64 = 30;

/// Seconds after launch at which updates are first looked for in the
/// background.
pub const FIRST_CHECK_DELAY_SECS: u64 = 30;

/// Seconds from one look for updates in the background to the next.
pub const CHECK_INTERVAL_SECS: u64 = 86400;

/// What the version query may print before the version.
pub const VERSION_PREFIX: &'static str = "Version: ";

/// Why the installed version is not known.
#[derive(Clone, Copy, Debug, PartialEq, Eq, Structural)]
pub enum Undetectable {
    /// The interpreter could not be found.
    NoInterpreter,
    /// The query could not be run.
    QueryFailed,
    /// The query ran and reported failure.
    NotInstalled,
    /// The query printed nothing that holds a number.
    Unreadable,
}

/// Why the latest version is not known.
#[derive(Clone, Copy, Debug, PartialEq, Eq, Structural)]
pub enum NetworkFailure {
    /// The registry did not answer.
    Unreachable,
    /// The registry's answer does not name a version.
    Malformed,
}

/// Why a check for updates failed.
#[derive(Clone, Copy, Debug, PartialEq, Eq, Structural)]
pub enum CheckError {
    VersionUndetectable { reason: Undetectable },
    NetworkError { failure: NetworkFailure },
}

/// The words for a check that failed.
pub open spec fn check_error_text(e: CheckError) -> Seq<char> {
    match e {
        CheckError::VersionUndetectable { reason: Undetectable::NoInterpreter } => {
            "Failed to locate the Python interpreter"@
        },
        CheckError::VersionUndetectable { reason: Undetectable::QueryFailed } => {
            "Failed to run esphome version"@
        },
        CheckError::VersionUndetectable { reason: Undetectable::NotInstalled } => {
            "ESPHome not installed"@
        },
        CheckError::VersionUndetectable { reason: Undetectable::Unreadable } => {
            "Could not read the version that esphome reported"@
        },
        CheckError::NetworkError { failure: NetworkFailure::Unreachable } => {
            "Failed to fetch PyPI info"@
        },
        CheckError::NetworkError { failure: NetworkFailure::Malformed } => {
            "Failed to parse PyPI response"@
        },
    }
}

impl CheckError {
    /// The words for this failure.
    pub fn message(&self) -> (text: String)
        ensures
            text@ == check_error_text(*self),
    {
        let words = match self {
            CheckError::VersionUndetectable { reason: Undetectable::NoInterpreter } => {
                "Failed to locate the Python interpreter"
            },
            CheckError::VersionUndetectable { reason: Undetectable::QueryFailed } => {
                "Failed to run esphome version"
            },
            CheckError::VersionUndetectable { reason: Undetectable::NotInstalled } => {
                "ESPHome not installed"
            },
            CheckError::VersionUndetectable { reason: Undetectable::Unreadable } => {
                "Could not read the version that esphome reported"
            },
            CheckError::NetworkError { failure: NetworkFailure::Unreachable } => {
                "Failed to fetch PyPI info"
            },
            CheckError::NetworkError { failure: NetworkFailure::Malformed } => {
                "Failed to parse PyPI response"
            },
        };
        String::from_str(words)
    }
}

/// The version that a version query reported in `output`: what is left of
/// the output without the white space around it and without the prefix that
/// may stand before the version.
pub open spec fn reported_version(output: Seq<char>) -> Seq<char> {
    without_prefix(trimmed(output), VERSION_PREFIX@)
}

/// Reads the version that a version query printed. The version is
/// unreadable where it holds no number at all.
pub fn read_version_output(output: &str) -> (r: Result<String, Undetectable>)
    ensures
        match r {
            Ok(version) => version@ == reported_version(output@) && version_vector(
                version@,
            ).len() > 0,
            Err(reason) => reason == Undetectable::Unreadable && version_vector(
                reported_version(output@),
            ).len() == 0,
        },
{
    let chars = chars_of(output);
    let (start, end) = trim_bounds(&chars);
    let prefix = chars_of(VERSION_PREFIX);
    let from = if starts_with(&chars, start, end, &prefix) {
        start + prefix.len()
    } else {
        start
    };
    let version = output.substring_char(from, end);
    assert(version@ =~= reported_version(output@));
    if parse_version(version).len() > 0 {
        Ok(String::from_str(version))
    } else {
        Err(Undetectable::Unreadable)
    }
}

/// How the version query went.
#[derive(Clone, Debug, PartialEq, Eq)]
pub enum QueryOutput {
    /// No interpreter was found to run it.
    NoInterpreter,
    /// It could not be run.
    NotRun,
    /// It ran and reported failure.
    Failed,
    /// It ran and printed `stdout`.
    Succeeded { stdout: Vec<u8> },
}

/// The installed version, as the version query `output` tells it.
pub open spec fn installed_version_of(output: QueryOutput) -> Result<Seq<char>, CheckError> {
    match output {
        QueryOutput::NoInterpreter => Err(
            CheckError::VersionUndetectable { reason: Undetectable::NoInterpreter },
        ),
        QueryOutput::NotRun => Err(
            CheckError::VersionUndetectable { reason: Undetectable::QueryFailed },
        ),
        QueryOutput::Failed => Err(
            CheckError::VersionUndetectable { reason: Undetectable::NotInstalled },
        ),
        QueryOutput::Succeeded { stdout } => {
            let version = reported_version(lossy_text(stdout@));
            if version_vector(version).len() > 0 {
                Ok(version)
            } else {
                Err(CheckError::VersionUndetectable { reason: Undetectable::Unreadable })
            }
        },
    }
}

/// The view of the outcome of a query or of a fetch.
pub open spec fn outcome_view(r: Result<String, CheckError>) -> Result<Seq<char>, CheckError> {
    match r {
        Ok(text) => Ok(text@),
        Err(e) => Err(e),
    }
}

/// Tells the installed version from how the version query went.
pub fn installed_version(output: &QueryOutput) -> (r: Result<String, CheckError>)
    ensures
        outcome_view(r) == installed_version_of(*output),
{
    match output {
        QueryOutput::NoInterpreter => Err(
            CheckError::VersionUndetectable { reason: Undetectable::NoInterpreter },
        ),
        QueryOutput::NotRun => Err(
            CheckError::VersionUndetectable { reason: Undetectable::QueryFailed },
        ),
        QueryOutput::Failed => Err(
            CheckError::VersionUndetectable { reason: Undetectable::NotInstalled },
        ),
        QueryOutput::Succeeded { stdout } => {
            let text = decode_lossy(stdout.as_slice());
            match read_version_output(text.as_str()) {
                Ok(version) => Ok(version),
                Err(reason) => Err(CheckError::VersionUndetectable { reason }),
            }
        },
    }
}

/// The arguments with which the interpreter reports the installed version.
pub fn version_query_args() -> (args: Vec<String>)
    ensures
        args@.len() == 3,
        args@[0]@ == "-m"@,
        args@[1]@ == "esphome"@,
        args@[2]@ == "version"@,
{
    let mut args: Vec<String> = Vec::new();
    args.push(String::from_str("-m"));
    args.push(String::from_str("esphome"));
    args.push(String::from_str("version"));
    args
}

/// What the registry answered.
#[derive(Clone, Debug, PartialEq, Eq)]
pub enum RemoteResponse {
    /// Nothing, or not in time.
    Unreachable,
    /// Something that does not name a version.
    Malformed,
    /// The latest version.
    Version { latest: String },
}

/// The request that asks the registry for the latest version.
#[derive(Clone, Debug, PartialEq, Eq)]
pub struct FetchRequest {
    pub url: String,
    pub timeout_secs: u64,
}

/// What is known in the course of one check for updates. The driver fills it
/// in as the check asks.
#[derive(Clone, Debug, PartialEq, Eq)]
pub struct CheckProgress {
    /// The installed version, once it was asked for.
    pub installed: Option<Result<String, CheckError>>,
    /// The latest version, once it was asked for.
    pub latest: Option<Result<Option<String>, CheckError>>,
    /// The user's answer, once the question was put.
    pub accepted: Option<bool>,
}

/// What a check that the user asked for does next.
#[derive(Clone, Debug, PartialEq, Eq)]
pub enum UserCheckStep {
    /// Run the version query and record how it went.
    QueryInstalled,
    /// Ask the registry and record what it answered.
    FetchLatest,
    /// Put the question to the user and record the answer.
    Ask { prompt: Prompt },
    /// Show the message, if there is one; the check is over, and the
    /// version named is to be installed.
    Finish { message: Option<Message>, update_to: Option<String> },
}

/// What a step of a check that the user asked for says.
pub ghost enum UserCheckStepView {
    QueryInstalled,
    FetchLatest,
    Ask { prompt: PromptView },
    Finish { message: Option<MessageView>, update_to: Option<Seq<char>> },
}

impl View for UserCheckStep {
    type V = UserCheckStepView;

    open spec fn view(&self) -> UserCheckStepView {
        match *self {
            UserCheckStep::QueryInstalled => UserCheckStepView::QueryInstalled,
            UserCheckStep::FetchLatest => UserCheckStepView::FetchLatest,
            UserCheckStep::Ask { prompt } => UserCheckStepView::Ask { prompt: prompt@ },
            UserCheckStep::Finish { message, update_to } => UserCheckStepView::Finish {
                message: message_view(message),
                update_to: text_view(update_to),
            },
        }
    }
}

/// What a check in the background does next.
#[derive(Clone, Debug, PartialEq, Eq)]
pub enum BackgroundCheckStep {
    /// Run the version query and record how it went.
    QueryInstalled,
    /// Ask the registry and record what it answered.
    FetchLatest,
    /// Post the notification, if there is one, and log the failure, if there
    /// is one; the check is over.
    Finish { notification: Option<Notification>, failure: Option<CheckError> },
}

/// What a step of a check in the background says.
pub ghost enum BackgroundCheckStepView {
    QueryInstalled,
    FetchLatest,
    Finish { notification: Option<NotificationView>, failure: Option<CheckError> },
}

impl View for BackgroundCheckStep {
    type V = BackgroundCheckStepView;

    open spec fn view(&self) -> BackgroundCheckStepView {
        match *self {
            BackgroundCheckStep::QueryInstalled => BackgroundCheckStepView::QueryInstalled,
            BackgroundCheckStep::FetchLatest => BackgroundCheckStepView::FetchLatest,
            BackgroundCheckStep::Finish { notification, failure } => {
                BackgroundCheckStepView::Finish {
                    notification: notification_view(notification),
                    failure,
                }
            },
        }
    }
}

/// The message for a check that failed; `lead` says what was being done.
pub open spec fn failure_message(lead: Seq<char>, e: CheckError) -> MessageView {
    MessageView {
        kind: MessageKind::Error,
        title: "Update Check Failed"@,
        text: lead + check_error_text(e),
    }
}

/// The message for a registry that named no version.
pub open spec fn no_latest_message() -> MessageView {
    MessageView {
        kind: MessageKind::Error,
        title: "Update Check Failed"@,
        text: "Could not determine latest version"@,
    }
}

/// The message for a tool that is up to date.
pub open spec fn up_to_date_message(installed: Seq<char>) -> MessageView {
    MessageView {
        kind: MessageKind::Info,
        title: "No Updates Available"@,
        text: "ESPHome "@ + installed + " is the latest version."@,
    }
}

/// The question whether `latest` is to replace `installed`.
pub open spec fn update_prompt(latest: Seq<char>, installed: Seq<char>) -> PromptView {
    PromptView {
        title: "Update Available"@,
        text: "ESPHome "@ + latest + " is available.\n\nYou currently have version "@ + installed
            + ".\n\nWould you like to update now?"@,
        accept: "Update Now"@,
        decline: "Later"@,
    }
}

/// The notification that `latest` could replace `installed`.
pub open spec fn update_notification(latest: Seq<char>, installed: Seq<char>) -> NotificationView {
    NotificationView {
        title: "ESPHome Update Available"@,
        body: "ESPHome "@ + latest + " is available (you have "@ + installed
            + "). Click 'Check for Updates' in the menu to update."@,
    }
}

/// The next step of a check that the user asked for. The installed version
/// is asked for first and the latest version second; a failure of either is
/// shown and ends the check. A newer version is offered, and is installed
/// only if the user accepts; otherwise the user is told that the tool is up
/// to date.
pub open spec fn user_check(p: CheckProgress) -> UserCheckStepView {
    match p.installed {
        None => UserCheckStepView::QueryInstalled,
        Some(Err(e)) => UserCheckStepView::Finish {
            message: Some(failure_message("Could not detect installed version: "@, e)),
            update_to: None,
        },
        Some(Ok(installed)) => match p.latest {
            None => UserCheckStepView::FetchLatest,
            Some(Err(e)) => UserCheckStepView::Finish {
                message: Some(failure_message("Failed to check for updates: "@, e)),
                update_to: None,
            },
            Some(Ok(None)) => UserCheckStepView::Finish {
                message: Some(no_latest_message()),
                update_to: None,
            },
            Some(Ok(Some(latest))) => if newer(latest@, installed@) {
                match p.accepted {
                    None => UserCheckStepView::Ask { prompt: update_prompt(latest@, installed@) },
                    Some(true) => UserCheckStepView::Finish {
                        message: None,
                        update_to: Some(latest@),
                    },
                    Some(false) => UserCheckStepView::Finish { message: None, update_to: None },
                }
            } else {
                UserCheckStepView::Finish {
                    message: Some(up_to_date_message(installed@)),
                    update_to: None,
                }
            },
        },
    }
}

/// The next step of a check in the background. It asks as the other check
/// does, but shows nothing: a failure is handed back to be logged, a newer
/// version is made known by a notification, and nothing is ever installed.
pub open spec fn background_check(p: CheckProgress) -> BackgroundCheckStepView {
    match p.installed {
        None => BackgroundCheckStepView::QueryInstalled,
        Some(Err(e)) => BackgroundCheckStepView::Finish { notification: None, failure: Some(e) },
        Some(Ok(installed)) => match p.latest {
            None => BackgroundCheckStepView::FetchLatest,
            Some(Err(e)) => BackgroundCheckStepView::Finish {
                notification: None,
                failure: Some(e),
            },
            Some(Ok(None)) => BackgroundCheckStepView::Finish {
                notification: None,
                failure: None,
            },
            Some(Ok(Some(latest))) => if newer(latest@, installed@) {
                BackgroundCheckStepView::Finish {
                    notification: Some(update_notification(latest@, installed@)),
                    failure: None,
                }
            } else {
                BackgroundCheckStepView::Finish { notification: None, failure: None }
            },
        },
    }
}

/// A check that the user asked for names a version to install only if that
/// version is newer than the installed one and the user accepted it; and it
/// ends in silence only after the user answered.
pub proof fn lemma_update_only_on_acceptance(p: CheckProgress)
    ensures
        user_check(p) matches UserCheckStepView::Finish { update_to: Some(version), .. } ==> {
            &&& p.accepted == Some(true)
            &&& p.installed matches Some(Ok(installed))
            &&& p.latest matches Some(Ok(Some(latest)))
            &&& version == latest@
            &&& newer(latest@, installed@)
        },
        user_check(p) matches UserCheckStepView::Finish { message: None, .. }
            ==> p.accepted is Some,
{
}

/// A check asks only for what is not known yet, so that recording each
/// answer brings the check to its end.
pub proof fn lemma_check_asks_for_what_is_missing(p: CheckProgress)
    ensures
        user_check(p) is QueryInstalled ==> p.installed is None,
        user_check(p) is FetchLatest ==> p.latest is None,
        user_check(p) is Ask ==> p.accepted is None,
        background_check(p) is QueryInstalled ==> p.installed is None,
        background_check(p) is FetchLatest ==> p.latest is None,
{
}

/// A failure to learn the installed or the latest version is shown to the
/// user who asked, and only handed back by a check in the background.
pub proof fn lemma_failures_are_told(p: CheckProgress)
    requires
        (p.installed is Some && p.installed->0 is Err) || (p.installed is Some && p.latest is Some
            && p.latest->0 is Err),
    ensures
        user_check(p) matches UserCheckStepView::Finish { message: Some(m), update_to: None }
            && m.kind == MessageKind::Error,
        background_check(p) matches BackgroundCheckStepView::Finish {
            notification: None,
            failure: Some(_),
        },
{
}

/// Seconds to wait before the next check in the background, given how many
/// were made since launch.
pub fn next_check_delay(checks_made: u64) -> (secs: u64)
    ensures
        secs == if checks_made == 0 {
            FIRST_CHECK_DELAY_SECS
        } else {
            CHECK_INTERVAL_SECS
        },
{
    if checks_made == 0 {
        FIRST_CHECK_DELAY_SECS
    } else {
        CHECK_INTERVAL_SECS
    }
}

/// Words the message for a check that failed.
fn failed_check(lead: &str, e: CheckError) -> (m: Message)
    ensures
        m@ == failure_message(lead@, e),
{
    let words = e.message();
    let mut text = String::from_str(lead);
    text.append(words.as_str());
    Message { kind: MessageKind::Error, title: String::from_str("Update Check Failed"), text }
}

/// Asks the package registry for the latest version of the tool.
#[derive(Debug)]
pub struct UpdateChecker {
    timeout_secs: u64,
}

impl UpdateChecker {
    /// Seconds that this checker gives the registry.
    pub closed spec fn timeout(&self) -> u64 {
        self.timeout_secs
    }

    /// A checker that gives the registry the usual time.
    pub fn new() -> (checker: UpdateChecker)
        ensures
            checker.timeout() == FETCH_TIMEOUT_SECS,
    {
        UpdateChecker { timeout_secs: FETCH_TIMEOUT_SECS }
    }

    /// The request to send to the registry.
    pub fn request(&self) -> (request: FetchRequest)
        ensures
            request.url@ == REGISTRY_URL@,
            request.timeout_secs == self.timeout(),
    {
        FetchRequest { url: String::from_str(REGISTRY_URL), timeout_secs: self.timeout_secs }
    }

    /// Tells the latest version from what the registry answered.
    pub fn check(&self, response: RemoteResponse) -> (r: Result<Option<String>, CheckError>)
        ensures
            r == match response {
                RemoteResponse::Version { latest } => Ok::<Option<String>, CheckError>(
                    Some(latest),
                ),
                RemoteResponse::Unreachable => Err(
                    CheckError::NetworkError { failure: NetworkFailure::Unreachable },
                ),
                RemoteResponse::Malformed => Err(
                    CheckError::NetworkError { failure: NetworkFailure::Malformed },
                ),
            },
    {
        match response {
            RemoteResponse::Version { latest } => Ok(Some(latest)),
            RemoteResponse::Unreachable => Err(
                CheckError::NetworkError { failure: NetworkFailure::Unreachable },
            ),
            RemoteResponse::Malformed => Err(
                CheckError::NetworkError { failure: NetworkFailure::Malformed },
            ),
        }
    }

    /// The next step of a check that the user asked for, given what is
    /// known so far.
    pub fn check_for_user(&self, progress: &CheckProgress) -> (step: UserCheckStep)
        ensures
            step@ == user_check(*progress),
    {
        let installed = match &progress.installed {
            None => {
                return UserCheckStep::QueryInstalled;
            },
            Some(Err(e)) => {
                return UserCheckStep::Finish {
                    message: Some(failed_check("Could not detect installed version: ", *e)),
                    update_to: None,
                };
            },
            Some(Ok(installed)) => installed,
        };
        let latest = match &progress.latest {
            None => {
                return UserCheckStep::FetchLatest;
            },
            Some(Err(e)) => {
                return UserCheckStep::Finish {
                    message: Some(failed_check("Failed to check for updates: ", *e)),
                    update_to: None,
                };
            },
            Some(Ok(None)) => {
                return UserCheckStep::Finish {
                    message: Some(
                        Message {
                            kind: MessageKind::Error,
                            title: String::from_str("Update Check Failed"),
                            text: String::from_str("Could not determine latest version"),
                        },
                    ),
                    update_to: None,
                };
            },
            Some(Ok(Some(latest))) => latest,
        };
        if is_newer_version(latest.as_str(), installed.as_str()) {
            match progress.accepted {
                None => UserCheckStep::Ask {
                    prompt: Prompt {
                        title: String::from_str("Update Available"),
                        text: join5(
                            "ESPHome ",
                            latest.as_str(),
                            " is available.\n\nYou currently have version ",
                            installed.as_str(),
                            ".\n\nWould you like to update now?",
                        ),
                        accept: String::from_str("Update Now"),
                        decline: String::from_str("Later"),
                    },
                },
                Some(true) => UserCheckStep::Finish {
                    message: None,
                    update_to: Some(latest.clone()),
                },
                Some(false) => UserCheckStep::Finish { message: None, update_to: None },
            }
        } else {
            UserCheckStep::Finish {
                message: Some(
                    Message {
                        kind: MessageKind::Info,
                        title: String::from_str("No Updates Available"),
                        text: join3("ESPHome ", installed.as_str(), " is the latest version."),
                    },
                ),
                update_to: None,
            }
        }
    }

    /// The next step of a check in the background, given what is known so
    /// far.
    pub fn check_and_notify(&self, progress: &CheckProgress) -> (step: BackgroundCheckStep)
        ensures
            step@ == background_check(*progress),
    {
        let installed = match &progress.installed {
            None => {
                return BackgroundCheckStep::QueryInstalled;
            },
            Some(Err(e)) => {
                return BackgroundCheckStep::Finish { notification: None, failure: Some(*e) };
            },
            Some(Ok(installed)) => installed,
        };
        let latest = match &progress.latest {
            None => {
                return BackgroundCheckStep::FetchLatest;
            },
            Some(Err(e)) => {
                return BackgroundCheckStep::Finish { notification: None, failure: Some(*e) };
            },
            Some(Ok(None)) => {
                return BackgroundCheckStep::Finish { notification: None, failure: None };
            },
            Some(Ok(Some(latest))) => latest,
        };
        if is_newer_version(latest.as_str(), installed.as_str()) {
            BackgroundCheckStep::Finish {
                notification: Some(
                    Notification {
                        title: String::from_str("ESPHome Update Available"),
                        body: join5(
                            "ESPHome ",
                            latest.as_str(),
                            " is available (you have ",
                            installed.as_str(),
                            "). Click 'Check for Updates' in the menu to update.",
                        ),
                    },
                ),
                failure: None,
            }
        } else {
            BackgroundCheckStep::Finish { notification: None, failure: None }
        }
    }
}

} // verus!
