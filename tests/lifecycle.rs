use arch_testing::{
    Action, Event, Failure, Lifecycle, Phase, ServiceKind, TestRunnerConfig,
};

fn drive(lc: &mut Lifecycle, events: Vec<Event>) -> Vec<Action> {
    events.into_iter().map(|e| lc.step(e)).collect()
}

fn new_run() -> Lifecycle {
    Lifecycle::new(&TestRunnerConfig::new())
}

fn ready_events() -> Vec<Event> {
    vec![Event::Launched, Event::Ready, Event::Launched, Event::Ready, Event::Launched, Event::Ready]
}

#[test]
fn successful_run_shuts_down_each_once_in_reverse() {
    let mut lc = new_run();
    assert_eq!(lc.pending_action(), Action::Launch(ServiceKind::Bitcoin));
    let mut events = ready_events();
    events.extend([Event::TestPassed, Event::Stopped, Event::Stopped, Event::Stopped]);
    let actions = drive(&mut lc, events);
    assert_eq!(
        actions,
        vec![
            Action::AwaitReady(ServiceKind::Bitcoin),
            Action::Launch(ServiceKind::Titan),
            Action::AwaitReady(ServiceKind::Titan),
            Action::Launch(ServiceKind::Validator),
            Action::AwaitReady(ServiceKind::Validator),
            Action::RunTest { timeout_ms: 30_000 },
            Action::Shutdown(ServiceKind::Validator),
            Action::Shutdown(ServiceKind::Titan),
            Action::Shutdown(ServiceKind::Bitcoin),
            Action::Finish,
        ]
    );
    assert!(lc.passed());
    assert_eq!(lc.phase(), Phase::Done);
    assert_eq!(lc.live(), 0);
}

#[test]
fn ledger_launch_failure_skips_everything_else() {
    let mut lc = new_run();
    let actions = drive(&mut lc, vec![Event::LaunchFailed(String::from("no image")), Event::Ready]);
    assert_eq!(actions, vec![Action::Finish, Action::Finish]);
    assert!(matches!(
        lc.failure(),
        Some(Failure::Launch { kind: ServiceKind::Bitcoin, message }) if message == "no image"
    ));
    assert!(!lc.passed());
}

#[test]
fn ledger_not_ready_is_still_shut_down() {
    let mut lc = new_run();
    let actions = drive(
        &mut lc,
        vec![Event::Launched, Event::StartFailed(String::from("timeout")), Event::Stopped],
    );
    assert_eq!(
        actions,
        vec![
            Action::AwaitReady(ServiceKind::Bitcoin),
            Action::Shutdown(ServiceKind::Bitcoin),
            Action::Finish,
        ]
    );
    assert!(matches!(lc.failure(), Some(Failure::NotReady { kind: ServiceKind::Bitcoin, .. })));
    assert!(!lc.passed());
}

#[test]
fn test_failure_tears_down_all_in_reverse() {
    let mut lc = new_run();
    drive(&mut lc, ready_events());
    let actions = drive(
        &mut lc,
        vec![Event::TestFailed(String::from("boom")), Event::Stopped, Event::Stopped, Event::Stopped],
    );
    assert_eq!(
        actions,
        vec![
            Action::Shutdown(ServiceKind::Validator),
            Action::Shutdown(ServiceKind::Titan),
            Action::Shutdown(ServiceKind::Bitcoin),
            Action::Finish,
        ]
    );
    assert!(matches!(lc.failure(), Some(Failure::Test { message }) if message == "boom"));
    assert!(!lc.passed());
}

#[test]
fn validator_stop_failure_does_not_stop_teardown() {
    let mut lc = new_run();
    drive(&mut lc, ready_events());
    let actions = drive(
        &mut lc,
        vec![
            Event::TestPassed,
            Event::StopFailed(String::from("stuck")),
            Event::Stopped,
            Event::StopFailed(String::from("gone")),
        ],
    );
    assert_eq!(
        actions,
        vec![
            Action::Shutdown(ServiceKind::Validator),
            Action::Shutdown(ServiceKind::Titan),
            Action::Shutdown(ServiceKind::Bitcoin),
            Action::Finish,
        ]
    );
    let errs = lc.teardown_errors();
    assert_eq!(errs.len(), 2);
    assert_eq!(errs[0].kind, ServiceKind::Validator);
    assert_eq!(errs[0].message, "stuck");
    assert_eq!(errs[1].kind, ServiceKind::Bitcoin);
    assert!(lc.failure().is_none());
    assert!(!lc.passed());
}

#[test]
fn setup_timeout_mid_chain_tears_down_started_services() {
    let mut lc = new_run();
    let actions = drive(
        &mut lc,
        vec![Event::Launched, Event::Ready, Event::Launched, Event::SetupTimedOut, Event::Stopped, Event::Stopped],
    );
    assert_eq!(
        actions,
        vec![
            Action::AwaitReady(ServiceKind::Bitcoin),
            Action::Launch(ServiceKind::Titan),
            Action::AwaitReady(ServiceKind::Titan),
            Action::Shutdown(ServiceKind::Titan),
            Action::Shutdown(ServiceKind::Bitcoin),
            Action::Finish,
        ]
    );
    assert!(matches!(lc.failure(), Some(Failure::SetupTimeout { kind: ServiceKind::Titan })));
}

#[test]
fn test_timeout_and_clamped_budgets() {
    let mut config = TestRunnerConfig::new();
    config.setup_timeout_ms = 5_000_000;
    config.test_timeout_ms = 5_000_000;
    let mut lc = Lifecycle::new(&config);
    assert_eq!(lc.setup_budget().effective_ms, 120_000);
    assert!(lc.setup_budget().clamped);
    let actions = drive(&mut lc, ready_events());
    assert_eq!(actions[5], Action::RunTest { timeout_ms: 300_000 });
    assert_eq!(lc.step(Event::TestTimedOut), Action::Shutdown(ServiceKind::Validator));
    assert!(matches!(lc.failure(), Some(Failure::TestTimeout)));
}

#[test]
fn unexpected_event_repeats_pending_action() {
    let mut lc = new_run();
    assert_eq!(lc.step(Event::Stopped), Action::Launch(ServiceKind::Bitcoin));
    assert_eq!(lc.step(Event::Launched), Action::AwaitReady(ServiceKind::Bitcoin));
    assert_eq!(lc.step(Event::TestPassed), Action::AwaitReady(ServiceKind::Bitcoin));
    assert_eq!(lc.live(), 1);
}
