use browser_container::launch::{in_container, plan_launch, LaunchError};
use browser_container::monitor::{
    poller_step, watchdog_step, PollerAction, PollerEvent, WatchdogAction, WATCHDOG_INTERVAL_MS,
};
use browser_container::text::decimal_text;

#[test]
fn plan_without_port_fails() {
    assert!(matches!(plan_launch(None, "/tmp/x".to_string(), false), Err(LaunchError::NoFreePort)));
}

#[test]
fn headed_plan_has_only_the_port_flag() {
    let plan = plan_launch(Some(9222), "/tmp/profile".to_string(), false).unwrap();
    assert!(!plan.headless);
    assert_eq!(plan.user_data_dir, "/tmp/profile");
    assert_eq!(
        plan.args,
        vec!["--remote-debugging-port=9222".to_string(), "--no-sandbox".to_string()]
    );
}

#[test]
fn container_plan_is_headless_with_container_flags() {
    let plan = plan_launch(Some(40000), "/tmp/p".to_string(), true).unwrap();
    assert!(plan.headless);
    assert_eq!(
        plan.args,
        vec![
            "--remote-debugging-port=40000".to_string(),
            "--no-sandbox".to_string(),
            "--disable-gpu".to_string(),
            "--disable-setuid-sandbox".to_string(),
            "--disable-dev-shm-usage".to_string(),
        ]
    );
}

#[test]
fn container_switch_needs_exactly_true() {
    assert!(in_container(Some("true".to_string())));
    assert!(!in_container(Some("TRUE".to_string())));
    assert!(!in_container(Some("1".to_string())));
    assert!(!in_container(None));
}

#[test]
fn watchdog_samples_every_interval_until_gone() {
    assert_eq!(WATCHDOG_INTERVAL_MS, 100);
    assert_eq!(watchdog_step(true), WatchdogAction::SampleAfter(100));
    assert_eq!(watchdog_step(false), WatchdogAction::Stop);
}

#[test]
fn poller_runs_until_end_or_error() {
    assert_eq!(poller_step(PollerEvent::Handled), PollerAction::Continue);
    assert_eq!(poller_step(PollerEvent::Failed), PollerAction::Stop { failed: true });
    assert_eq!(poller_step(PollerEvent::Ended), PollerAction::Stop { failed: false });
}

#[test]
fn decimal_text_renders_base_ten() {
    assert_eq!(decimal_text(0), "0");
    assert_eq!(decimal_text(7), "7");
    assert_eq!(decimal_text(10), "10");
    assert_eq!(decimal_text(12345), "12345");
    assert_eq!(decimal_text(u64::MAX), u64::MAX.to_string());
}
