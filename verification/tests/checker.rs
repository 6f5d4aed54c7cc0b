use app_shell::checker::{
    event_log, initial, permits, step, CheckerAction, CheckerEvent, CheckerState,
    CHECK_INTERVAL_SECS, INITIAL_DELAY_SECS,
};

#[test]
fn initial_transition_waits_ten_seconds() {
    let t = initial();
    assert_eq!(t.state, CheckerState::InitialDelay);
    assert_eq!(t.action, CheckerAction::Sleep(10));
    assert!(t.log.is_none());
    assert_eq!(INITIAL_DELAY_SECS, 10);
}

#[test]
fn polling_interval_is_six_hours() {
    assert_eq!(CHECK_INTERVAL_SECS, 6 * 60 * 60);
}

#[test]
fn available_update_installs_and_restarts() {
    let t = step(CheckerState::InitialDelay, CheckerEvent::DelayElapsed);
    assert_eq!(t.state, CheckerState::AcquiringUpdater);
    assert_eq!(t.action, CheckerAction::AcquireUpdater);
    assert!(t.log.is_none());

    let t = step(t.state, CheckerEvent::UpdaterAcquired);
    assert_eq!(t.state, CheckerState::Checking);
    assert_eq!(t.action, CheckerAction::Check);
    assert!(t.log.is_none());

    let t = step(
        t.state,
        CheckerEvent::UpdateAvailable {
            current: "1.2.0".to_string(),
            candidate: "1.3.0".to_string(),
        },
    );
    assert_eq!(t.state, CheckerState::Installing);
    assert_eq!(t.action, CheckerAction::DownloadAndInstall);
    let state = t.state;
    let line = t.log.unwrap();
    assert!(!line.error);
    assert_eq!(line.text, "Update available: 1.2.0 -> 1.3.0");

    let t = step(state, CheckerEvent::InstallSucceeded);
    assert_eq!(t.state, CheckerState::Restarting);
    assert_eq!(t.action, CheckerAction::Restart);
    let line = t.log.unwrap();
    assert!(!line.error);
    assert_eq!(line.text, "Update installed successfully, restarting...");
}

#[test]
fn no_update_schedules_next_check() {
    let t = step(CheckerState::Checking, CheckerEvent::NoUpdate);
    assert_eq!(t.state, CheckerState::WaitingInterval);
    assert_eq!(t.action, CheckerAction::Sleep(21600));
    let line = t.log.unwrap();
    assert!(!line.error);
    assert_eq!(line.text, "No update available");
}

#[test]
fn missing_updater_is_logged_and_skips_the_iteration() {
    let t = step(
        CheckerState::AcquiringUpdater,
        CheckerEvent::UpdaterUnavailable {
            message: "updater not configured".to_string(),
        },
    );
    assert_eq!(t.state, CheckerState::WaitingInterval);
    assert_eq!(t.action, CheckerAction::Sleep(CHECK_INTERVAL_SECS));
    let line = t.log.unwrap();
    assert!(line.error);
    assert_eq!(line.text, "Failed to get updater: updater not configured");
}

#[test]
fn failed_check_is_logged_and_waits_the_full_interval() {
    let t = step(
        CheckerState::Checking,
        CheckerEvent::CheckFailed {
            message: "connection refused".to_string(),
        },
    );
    assert_eq!(t.state, CheckerState::WaitingInterval);
    assert_eq!(t.action, CheckerAction::Sleep(CHECK_INTERVAL_SECS));
    let line = t.log.unwrap();
    assert!(line.error);
    assert_eq!(line.text, "Failed to check for updates: connection refused");
}

#[test]
fn failed_install_waits_without_restart() {
    let t = step(
        CheckerState::Installing,
        CheckerEvent::InstallFailed {
            message: "signature mismatch".to_string(),
        },
    );
    assert_eq!(t.state, CheckerState::WaitingInterval);
    assert_eq!(t.action, CheckerAction::Sleep(CHECK_INTERVAL_SECS));
    let state = t.state;
    let line = t.log.unwrap();
    assert!(line.error);
    assert_eq!(line.text, "Failed to install update: signature mismatch");

    let t = step(state, CheckerEvent::DelayElapsed);
    assert_eq!(t.state, CheckerState::AcquiringUpdater);
    assert_eq!(t.action, CheckerAction::AcquireUpdater);
    assert!(t.log.is_none());
}

#[test]
fn restarting_permits_no_event() {
    assert!(!permits(&CheckerState::Restarting, &CheckerEvent::DelayElapsed));
    assert!(!permits(
        &CheckerState::Restarting,
        &CheckerEvent::InstallSucceeded
    ));
    assert!(!permits(&CheckerState::Restarting, &CheckerEvent::NoUpdate));
}

#[test]
fn permits_matches_each_pending_action() {
    assert!(permits(&CheckerState::InitialDelay, &CheckerEvent::DelayElapsed));
    assert!(!permits(&CheckerState::InitialDelay, &CheckerEvent::NoUpdate));
    assert!(permits(&CheckerState::WaitingInterval, &CheckerEvent::DelayElapsed));
    assert!(permits(
        &CheckerState::AcquiringUpdater,
        &CheckerEvent::UpdaterAcquired
    ));
    assert!(!permits(
        &CheckerState::AcquiringUpdater,
        &CheckerEvent::InstallSucceeded
    ));
    assert!(permits(&CheckerState::Checking, &CheckerEvent::NoUpdate));
    assert!(permits(
        &CheckerState::Installing,
        &CheckerEvent::InstallFailed {
            message: "disk full".to_string(),
        }
    ));
    assert!(!permits(&CheckerState::Installing, &CheckerEvent::DelayElapsed));
}

#[test]
fn silent_events_produce_no_log() {
    assert!(event_log(&CheckerEvent::DelayElapsed).is_none());
    assert!(event_log(&CheckerEvent::UpdaterAcquired).is_none());
}
