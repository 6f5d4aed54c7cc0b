use app_shell::startup::{startup_plan, StartupAction, STARTUP_DELAY_SECS};

#[test]
fn plan_sleeps_then_reveals_then_dismisses() {
    let plan = startup_plan();
    assert_eq!(
        plan,
        vec![
            StartupAction::Sleep(3),
            StartupAction::ShowMainWindow,
            StartupAction::CloseSplashWindow,
        ]
    );
}

#[test]
fn startup_delay_is_three_seconds() {
    assert_eq!(STARTUP_DELAY_SECS, 3);
}

#[test]
fn plan_reveals_exactly_once_after_full_delay() {
    let plan = startup_plan();
    let shows = plan
        .iter()
        .filter(|a| matches!(a, StartupAction::ShowMainWindow))
        .count();
    let closes = plan
        .iter()
        .filter(|a| matches!(a, StartupAction::CloseSplashWindow))
        .count();
    assert_eq!(shows, 1);
    assert_eq!(closes, 1);
    let first_reveal = plan
        .iter()
        .position(|a| {
            matches!(
                a,
                StartupAction::ShowMainWindow | StartupAction::CloseSplashWindow
            )
        })
        .unwrap();
    let full_delay = plan
        .iter()
        .position(|a| matches!(a, StartupAction::Sleep(d) if *d >= STARTUP_DELAY_SECS))
        .unwrap();
    assert!(full_delay < first_reveal);
}
