use esphome_desktop::daemon::{
    process_group, Action, DaemonManager, Event, Locations, ManagedProcess, Outcome,
    SupervisorError, SupervisorState, Warning, BIND_ADDRESS, GRACE_PERIOD_SECS, LOG_FILE_NAME,
    SETTLE_DELAY_SECS,
};
use esphome_desktop::settings::Settings;

fn locations() -> Locations {
    Locations {
        data_dir: "/data".to_string(),
        python_path: "/data/venv/bin/python".to_string(),
        venv_bin_dir: "/data/venv/bin".to_string(),
        home_dir: Some("/home/u".to_string()),
    }
}

fn manager() -> DaemonManager {
    DaemonManager::new(&Settings::default(), &locations())
}

fn running(pid: u32) -> DaemonManager {
    let mut m = manager();
    assert_eq!(m.start(), Action::CheckExecutable);
    assert_eq!(m.advance(Event::ExecutableFound), Action::OpenLog);
    assert_eq!(m.advance(Event::LogOpened), Action::Spawn);
    assert_eq!(
        m.advance(Event::Spawned { pid: Some(pid) }),
        Action::Finished { outcome: Outcome::Started }
    );
    m
}

#[test]
fn a_new_supervisor_is_stopped() {
    let m = manager();
    assert_eq!(m.state(), SupervisorState::Stopped);
    assert!(!m.is_running());
    assert_eq!(m.process(), None);
    assert!(m.health_monitor().is_none());
    assert_eq!(m.port(), 6052);
    assert_eq!(m.python_path(), "/data/venv/bin/python");
    assert_eq!(m.logs_dir(), "/data/logs");
}

#[test]
fn the_configuration_directory_is_chosen_or_defaulted() {
    assert_eq!(manager().config_dir(), "/home/u/esphome");
    let chosen = Settings { config_dir: Some("/srv/devices".to_string()), ..Settings::default() };
    assert_eq!(DaemonManager::new(&chosen, &locations()).config_dir(), "/srv/devices");
    let homeless = Locations { home_dir: None, ..locations() };
    assert_eq!(DaemonManager::new(&Settings::default(), &homeless).config_dir(), "esphome");
}

#[test]
fn start_and_stop_on_the_default_port() {
    let mut m = manager();
    assert_eq!(m.port(), 6052);
    assert_eq!(m.start(), Action::CheckExecutable);
    assert_eq!(m.state(), SupervisorState::Starting);
    assert!(!m.is_running());
    assert_eq!(m.advance(Event::ExecutableFound), Action::OpenLog);
    assert_eq!(m.advance(Event::LogOpened), Action::Spawn);
    assert_eq!(m.state(), SupervisorState::Starting);
    assert_eq!(
        m.advance(Event::Spawned { pid: Some(4242) }),
        Action::Finished { outcome: Outcome::Started }
    );
    assert_eq!(m.state(), SupervisorState::Running);
    assert!(m.is_running());
    assert_eq!(m.process(), Some(ManagedProcess { pid: Some(4242) }));
    assert_eq!(m.health_monitor().map(|h| h.port()), Some(6052));

    assert_eq!(m.stop(), Action::Terminate { group: Some(4242), grace_secs: 5 });
    assert_eq!(m.state(), SupervisorState::Stopping);
    assert!(!m.is_running());
    assert_eq!(m.advance(Event::Exited), Action::Finished { outcome: Outcome::Stopped });
    assert_eq!(m.state(), SupervisorState::Stopped);
    assert_eq!(m.process(), None);
}

#[test]
fn a_worker_that_does_not_exit_is_killed() {
    let mut m = running(77);
    assert_eq!(m.stop(), Action::Terminate { group: Some(77), grace_secs: GRACE_PERIOD_SECS });
    assert_eq!(m.advance(Event::GraceExpired), Action::ForceKill { group: Some(77) });
    assert_eq!(m.state(), SupervisorState::Stopping);
    assert_eq!(m.process(), Some(ManagedProcess { pid: Some(77) }));
    assert_eq!(m.advance(Event::Killed), Action::Finished { outcome: Outcome::Stopped });
    assert_eq!(m.state(), SupervisorState::Stopped);
    assert_eq!(m.process(), None);
}

#[test]
fn a_failed_wait_still_ends_stopped() {
    let mut m = running(77);
    m.stop();
    assert_eq!(m.advance(Event::WaitFailed), Action::Finished { outcome: Outcome::Stopped });
    assert_eq!(m.state(), SupervisorState::Stopped);
}

#[test]
fn a_second_start_changes_nothing() {
    let mut m = running(9);
    for _ in 0..3 {
        assert_eq!(m.start(), Action::Finished { outcome: Outcome::AlreadyRunning });
        assert_eq!(m.state(), SupervisorState::Running);
        assert_eq!(m.process(), Some(ManagedProcess { pid: Some(9) }));
    }
}

#[test]
fn a_running_supervisor_ignores_stray_answers() {
    let mut m = running(9);
    for e in [
        Event::ExecutableFound,
        Event::ExecutableMissing,
        Event::LogOpened,
        Event::LogFailed,
        Event::Spawned { pid: Some(10) },
        Event::SpawnFailed,
        Event::Exited,
        Event::WaitFailed,
        Event::GraceExpired,
        Event::Killed,
        Event::Settled,
    ] {
        assert_eq!(m.advance(e), Action::Ignored);
        assert_eq!(m.process(), Some(ManagedProcess { pid: Some(9) }));
    }
}

#[test]
fn stop_when_stopped_does_nothing() {
    let mut m = manager();
    assert_eq!(m.stop(), Action::Finished { outcome: Outcome::NotRunning });
    assert_eq!(m.state(), SupervisorState::Stopped);
    assert_eq!(m.process(), None);
    assert_eq!(m.stop(), Action::Finished { outcome: Outcome::NotRunning });
}

#[test]
fn a_missing_interpreter_fails_the_start() {
    let mut m = manager();
    m.start();
    assert_eq!(
        m.advance(Event::ExecutableMissing),
        Action::Failed { error: SupervisorError::ExecutableNotFound }
    );
    assert_eq!(m.state(), SupervisorState::Stopped);
    assert_eq!(m.process(), None);
}

#[test]
fn a_log_that_does_not_open_fails_the_start() {
    let mut m = manager();
    m.start();
    m.advance(Event::ExecutableFound);
    assert_eq!(m.advance(Event::LogFailed), Action::Failed { error: SupervisorError::SpawnError });
    assert_eq!(m.state(), SupervisorState::Stopped);
}

#[test]
fn a_failed_spawn_fails_the_start() {
    let mut m = manager();
    m.start();
    m.advance(Event::ExecutableFound);
    m.advance(Event::LogOpened);
    assert_eq!(m.advance(Event::SpawnFailed), Action::Failed { error: SupervisorError::SpawnError });
    assert_eq!(m.state(), SupervisorState::Stopped);
    // The next start begins afresh.
    assert_eq!(m.start(), Action::CheckExecutable);
}

#[test]
fn requests_in_the_middle_of_a_request_are_turned_down() {
    let busy = Action::Failed { error: SupervisorError::Busy };
    let mut m = manager();
    m.start();
    assert_eq!(m.start(), busy);
    assert_eq!(m.stop(), busy);
    assert_eq!(m.restart(), busy);
    assert_eq!(m.state(), SupervisorState::Starting);
    assert_eq!(m.advance(Event::ExecutableFound), Action::OpenLog);

    let mut m = running(5);
    m.stop();
    assert_eq!(m.start(), busy);
    assert_eq!(m.stop(), busy);
    assert_eq!(m.restart(), busy);
    assert_eq!(m.advance(Event::Exited), Action::Finished { outcome: Outcome::Stopped });
}

#[test]
fn restart_stops_settles_and_starts() {
    let mut m = running(5);
    assert_eq!(m.restart(), Action::Terminate { group: Some(5), grace_secs: 5 });
    assert_eq!(m.advance(Event::GraceExpired), Action::ForceKill { group: Some(5) });
    assert_eq!(m.advance(Event::Killed), Action::Settle { secs: SETTLE_DELAY_SECS });
    assert_eq!(SETTLE_DELAY_SECS, 1);
    assert_eq!(m.state(), SupervisorState::Stopped);
    assert_eq!(m.process(), None);
    assert_eq!(m.start(), Action::Failed { error: SupervisorError::Busy });
    assert_eq!(m.advance(Event::Settled), Action::CheckExecutable);
    assert_eq!(m.advance(Event::ExecutableFound), Action::OpenLog);
    assert_eq!(m.advance(Event::LogOpened), Action::Spawn);
    assert_eq!(
        m.advance(Event::Spawned { pid: Some(6) }),
        Action::Finished { outcome: Outcome::Started }
    );
    assert_eq!(m.process(), Some(ManagedProcess { pid: Some(6) }));
}

#[test]
fn restart_of_a_stopped_supervisor_starts_it() {
    let mut m = manager();
    assert_eq!(m.restart(), Action::Settle { secs: 1 });
    assert_eq!(m.advance(Event::Settled), Action::CheckExecutable);
    assert_eq!(m.state(), SupervisorState::Starting);
}

#[test]
fn the_group_is_the_process_id_where_it_can_be_signalled() {
    assert_eq!(process_group(ManagedProcess { pid: None }), None);
    assert_eq!(process_group(ManagedProcess { pid: Some(0) }), None);
    assert_eq!(process_group(ManagedProcess { pid: Some(1) }), Some(1));
    assert_eq!(process_group(ManagedProcess { pid: Some(2147483647) }), Some(2147483647));
    assert_eq!(process_group(ManagedProcess { pid: Some(2147483648) }), None);
    assert_eq!(process_group(ManagedProcess { pid: Some(u32::MAX) }), None);

    let mut m = manager();
    m.start();
    m.advance(Event::ExecutableFound);
    m.advance(Event::LogOpened);
    m.advance(Event::Spawned { pid: None });
    assert!(m.is_running());
    assert_eq!(m.stop(), Action::Terminate { group: None, grace_secs: 5 });
    assert_eq!(m.advance(Event::GraceExpired), Action::ForceKill { group: None });
}

#[test]
fn the_launch_plan_runs_the_dashboard() {
    let settings = Settings { port: 8080, ..Settings::default() };
    let m = DaemonManager::new(&settings, &locations());
    let plan = m.launch_plan("/usr/bin:/bin");
    assert_eq!(plan.program, "/data/venv/bin/python");
    assert_eq!(
        plan.args,
        vec!["-m", "esphome", "dashboard", "/home/u/esphome", "--address", "127.0.0.1", "--port", "8080"]
    );
    assert_eq!(BIND_ADDRESS, "127.0.0.1");
    assert_eq!(plan.working_dir, "/home/u/esphome");
    assert_eq!(
        plan.env,
        vec![
            ("ESPHOME_DASHBOARD".to_string(), "1".to_string()),
            ("PATH".to_string(), "/data/venv/bin:/usr/bin:/bin".to_string()),
        ]
    );
    assert_eq!(plan.log_file, "/data/logs/dashboard.log");
    assert_eq!(LOG_FILE_NAME, "dashboard.log");
    assert!(plan.own_process_group);
}

#[test]
fn actions_tell_how_a_request_ended() {
    assert_eq!(Action::Finished { outcome: Outcome::Started }.result(), Some(Ok(())));
    assert_eq!(Action::Finished { outcome: Outcome::NotRunning }.result(), Some(Ok(())));
    assert_eq!(
        Action::Failed { error: SupervisorError::SpawnError }.result(),
        Some(Err(SupervisorError::SpawnError))
    );
    assert_eq!(Action::Spawn.result(), None);
    assert_eq!(Action::Ignored.result(), None);
    assert_eq!(Action::Settle { secs: 1 }.result(), None);
}

#[test]
fn failures_are_put_in_words() {
    let m = manager();
    assert_eq!(
        m.describe(SupervisorError::ExecutableNotFound),
        "Python not found at /data/venv/bin/python"
    );
    assert_eq!(m.describe(SupervisorError::SpawnError), "Failed to spawn ESPHome process");
    assert_eq!(m.describe(SupervisorError::Busy), "Another request is still in progress");
}

#[test]
fn a_stop_that_does_not_go_smoothly_is_to_be_logged() {
    let mut m = running(3);
    assert_eq!(m.warning(Event::GraceExpired), None);
    m.stop();
    assert_eq!(m.warning(Event::GraceExpired), Some(Warning::GracefulStopTimeout));
    assert_eq!(m.warning(Event::WaitFailed), Some(Warning::WaitFailed));
    assert_eq!(m.warning(Event::Exited), None);
    m.advance(Event::GraceExpired);
    assert_eq!(m.warning(Event::GraceExpired), None);
    assert_eq!(m.warning(Event::Killed), None);
}

#[test]
fn the_log_stands_in_the_log_directory() {
    assert_eq!(manager().log_file(), "/data/logs/dashboard.log");
}
