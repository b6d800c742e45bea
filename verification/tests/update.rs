use esphome_desktop::notice::{Message, MessageKind, Notification, Prompt};
use esphome_desktop::update::{
    next_check_delay, version_query_args, BackgroundCheckStep, CheckError, CheckProgress,
    NetworkFailure, RemoteResponse, Undetectable, UpdateChecker, UserCheckStep,
    FETCH_TIMEOUT_SECS, REGISTRY_URL,
};

fn nothing_known() -> CheckProgress {
    CheckProgress { installed: None, latest: None, accepted: None }
}

fn known(installed: &str, latest: &str) -> CheckProgress {
    CheckProgress {
        installed: Some(Ok(installed.to_string())),
        latest: Some(Ok(Some(latest.to_string()))),
        accepted: None,
    }
}

fn failed(text: &str) -> UserCheckStep {
    UserCheckStep::Finish {
        message: Some(Message {
            kind: MessageKind::Error,
            title: "Update Check Failed".to_string(),
            text: text.to_string(),
        }),
        update_to: None,
    }
}

#[test]
fn the_registry_is_asked_with_a_time_limit() {
    let request = UpdateChecker::new().request();
    assert_eq!(request.url, "https://pypi.org/pypi/esphome/json");
    assert_eq!(request.url, REGISTRY_URL);
    assert_eq!(request.timeout_secs, 30);
    assert_eq!(FETCH_TIMEOUT_SECS, 30);
}

#[test]
fn the_version_query_asks_the_tool() {
    assert_eq!(version_query_args(), vec!["-m", "esphome", "version"]);
}

#[test]
fn check_tells_the_latest_version_or_why_not() {
    let checker = UpdateChecker::new();
    assert_eq!(
        checker.check(RemoteResponse::Version { latest: "2024.5.0".to_string() }),
        Ok(Some("2024.5.0".to_string()))
    );
    assert_eq!(
        checker.check(RemoteResponse::Unreachable),
        Err(CheckError::NetworkError { failure: NetworkFailure::Unreachable })
    );
    assert_eq!(
        checker.check(RemoteResponse::Malformed),
        Err(CheckError::NetworkError { failure: NetworkFailure::Malformed })
    );
}

#[test]
fn failures_of_a_check_are_put_in_words() {
    let undetectable = |reason| CheckError::VersionUndetectable { reason };
    assert_eq!(
        undetectable(Undetectable::NoInterpreter).message(),
        "Failed to locate the Python interpreter"
    );
    assert_eq!(undetectable(Undetectable::QueryFailed).message(), "Failed to run esphome version");
    assert_eq!(undetectable(Undetectable::NotInstalled).message(), "ESPHome not installed");
    assert_eq!(
        undetectable(Undetectable::Unreadable).message(),
        "Could not read the version that esphome reported"
    );
    assert_eq!(
        CheckError::NetworkError { failure: NetworkFailure::Unreachable }.message(),
        "Failed to fetch PyPI info"
    );
    assert_eq!(
        CheckError::NetworkError { failure: NetworkFailure::Malformed }.message(),
        "Failed to parse PyPI response"
    );
}

#[test]
fn a_user_check_asks_for_the_installed_version_first() {
    let checker = UpdateChecker::new();
    assert_eq!(checker.check_for_user(&nothing_known()), UserCheckStep::QueryInstalled);
    // Also where the latest version is known already.
    let p = CheckProgress { latest: Some(Ok(Some("9.9".to_string()))), ..nothing_known() };
    assert_eq!(checker.check_for_user(&p), UserCheckStep::QueryInstalled);
    let p = CheckProgress { installed: Some(Ok("2024.1.0".to_string())), ..nothing_known() };
    assert_eq!(checker.check_for_user(&p), UserCheckStep::FetchLatest);
}

#[test]
fn a_user_check_shows_why_it_failed() {
    let checker = UpdateChecker::new();
    let p = CheckProgress {
        installed: Some(Err(CheckError::VersionUndetectable {
            reason: Undetectable::NotInstalled,
        })),
        ..nothing_known()
    };
    assert_eq!(
        checker.check_for_user(&p),
        failed("Could not detect installed version: ESPHome not installed")
    );
    let p = CheckProgress {
        installed: Some(Ok("2024.1.0".to_string())),
        latest: Some(Err(CheckError::NetworkError { failure: NetworkFailure::Unreachable })),
        accepted: None,
    };
    assert_eq!(
        checker.check_for_user(&p),
        failed("Failed to check for updates: Failed to fetch PyPI info")
    );
    let p = CheckProgress {
        installed: Some(Ok("2024.1.0".to_string())),
        latest: Some(Ok(None)),
        accepted: None,
    };
    assert_eq!(checker.check_for_user(&p), failed("Could not determine latest version"));
}

#[test]
fn a_user_check_offers_a_newer_version() {
    let checker = UpdateChecker::new();
    let mut p = known("2024.1.0", "2024.2.0");
    assert_eq!(
        checker.check_for_user(&p),
        UserCheckStep::Ask {
            prompt: Prompt {
                title: "Update Available".to_string(),
                text: "ESPHome 2024.2.0 is available.\n\nYou currently have version 2024.1.0.\n\nWould you like to update now?".to_string(),
                accept: "Update Now".to_string(),
                decline: "Later".to_string(),
            }
        }
    );
    p.accepted = Some(true);
    assert_eq!(
        checker.check_for_user(&p),
        UserCheckStep::Finish { message: None, update_to: Some("2024.2.0".to_string()) }
    );
    p.accepted = Some(false);
    assert_eq!(checker.check_for_user(&p), UserCheckStep::Finish { message: None, update_to: None });
}

#[test]
fn a_user_check_tells_when_nothing_is_newer() {
    let checker = UpdateChecker::new();
    let up_to_date = |installed: &str| UserCheckStep::Finish {
        message: Some(Message {
            kind: MessageKind::Info,
            title: "No Updates Available".to_string(),
            text: format!("ESPHome {installed} is the latest version."),
        }),
        update_to: None,
    };
    assert_eq!(checker.check_for_user(&known("2024.2.0", "2024.2.0")), up_to_date("2024.2.0"));
    assert_eq!(checker.check_for_user(&known("2024.3.0", "2024.2.0")), up_to_date("2024.3.0"));
    // An answer that was never asked for changes nothing.
    let p = CheckProgress { accepted: Some(true), ..known("2024.3.0", "2024.2.0") };
    assert_eq!(checker.check_for_user(&p), up_to_date("2024.3.0"));
}

#[test]
fn a_background_check_asks_in_the_same_order() {
    let checker = UpdateChecker::new();
    assert_eq!(checker.check_and_notify(&nothing_known()), BackgroundCheckStep::QueryInstalled);
    let p = CheckProgress { installed: Some(Ok("2024.1.0".to_string())), ..nothing_known() };
    assert_eq!(checker.check_and_notify(&p), BackgroundCheckStep::FetchLatest);
}

#[test]
fn a_background_check_only_notifies() {
    let checker = UpdateChecker::new();
    assert_eq!(
        checker.check_and_notify(&known("2024.1.0", "2024.2.0")),
        BackgroundCheckStep::Finish {
            notification: Some(Notification {
                title: "ESPHome Update Available".to_string(),
                body: "ESPHome 2024.2.0 is available (you have 2024.1.0). Click 'Check for Updates' in the menu to update.".to_string(),
            }),
            failure: None,
        }
    );
    // The user's answer plays no part.
    let p = CheckProgress { accepted: Some(true), ..known("2024.1.0", "2024.2.0") };
    assert!(matches!(
        checker.check_and_notify(&p),
        BackgroundCheckStep::Finish { notification: Some(_), failure: None }
    ));
    assert_eq!(
        checker.check_and_notify(&known("2024.2.0", "2024.2.0")),
        BackgroundCheckStep::Finish { notification: None, failure: None }
    );
}

#[test]
fn a_background_check_hands_failures_back_to_be_logged() {
    let checker = UpdateChecker::new();
    let e = CheckError::VersionUndetectable { reason: Undetectable::QueryFailed };
    let p = CheckProgress { installed: Some(Err(e)), ..nothing_known() };
    assert_eq!(
        checker.check_and_notify(&p),
        BackgroundCheckStep::Finish { notification: None, failure: Some(e) }
    );
    let e = CheckError::NetworkError { failure: NetworkFailure::Malformed };
    let p = CheckProgress {
        installed: Some(Ok("1.0".to_string())),
        latest: Some(Err(e)),
        accepted: None,
    };
    assert_eq!(
        checker.check_and_notify(&p),
        BackgroundCheckStep::Finish { notification: None, failure: Some(e) }
    );
    let p = CheckProgress {
        installed: Some(Ok("1.0".to_string())),
        latest: Some(Ok(None)),
        accepted: None,
    };
    assert_eq!(
        checker.check_and_notify(&p),
        BackgroundCheckStep::Finish { notification: None, failure: None }
    );
}

#[test]
fn the_first_background_check_comes_soon_and_the_others_daily() {
    assert_eq!(next_check_delay(0), 30);
    assert_eq!(next_check_delay(1), 86400);
    assert_eq!(next_check_delay(2), 86400);
    assert_eq!(next_check_delay(u64::MAX), 86400);
}
