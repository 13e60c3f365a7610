use btc_alert::config::Config;
use btc_alert::feed::FeedError;
use btc_alert::feed::PriceSample;
use btc_alert::notify::classify_post_outcome;
use btc_alert::notify::NotifyError;
use btc_alert::scheduler::next_delay;
use btc_alert::scheduler::plan_iteration;
use btc_alert::scheduler::StepAction;

fn test_config() -> Config {
    Config::load(
        Some("70000".to_string()),
        Some("900".to_string()),
        Some("86400".to_string()),
        Some("https://example.test/hook".to_string()),
    )
    .unwrap()
}

#[test]
fn trigger_sleeps_cooldown_plus_interval() {
    let cfg = test_config();
    assert_eq!(next_delay(&cfg, true), 86400 + 900);
}

#[test]
fn no_trigger_sleeps_interval_only() {
    let cfg = test_config();
    assert_eq!(next_delay(&cfg, false), 900);
}

#[test]
fn low_price_plans_notify_and_long_sleep() {
    let cfg = test_config();
    let a = plan_iteration(&cfg, Ok(PriceSample { cents: 6500000 }));
    assert_eq!(a, StepAction::Proceed { notify: true, observed_cents: 6500000, sleep_secs: 87300 });
}

#[test]
fn high_price_plans_plain_sleep() {
    let cfg = test_config();
    let a = plan_iteration(&cfg, Ok(PriceSample { cents: 7500000 }));
    assert_eq!(a, StepAction::Proceed { notify: false, observed_cents: 7500000, sleep_secs: 900 });
}

#[test]
fn threshold_price_plans_plain_sleep() {
    let cfg = test_config();
    let a = plan_iteration(&cfg, Ok(PriceSample { cents: 7000000 }));
    assert_eq!(a, StepAction::Proceed { notify: false, observed_cents: 7000000, sleep_secs: 900 });
}

#[test]
fn fetch_failure_aborts() {
    let cfg = test_config();
    assert_eq!(plan_iteration(&cfg, Err(FeedError::Fetch)), StepAction::Abort(FeedError::Fetch));
    assert_eq!(plan_iteration(&cfg, Err(FeedError::Parse)), StepAction::Abort(FeedError::Parse));
}

#[test]
fn failed_notification_still_reaches_the_sleep() {
    // the endpoint answers 500: the failure is reported ...
    let cfg = test_config();
    let a = plan_iteration(&cfg, Ok(PriceSample { cents: 6500000 }));
    assert_eq!(a, StepAction::Proceed { notify: true, observed_cents: 6500000, sleep_secs: 87300 });
    let outcome = classify_post_outcome(Some(500));
    assert_eq!(outcome, Err(NotifyError::BadStatus(500)));
    // ... and the planned sleep stands whatever the notification outcome was,
    // since the plan takes no notification outcome at all.
    assert_eq!(next_delay(&cfg, true), 87300);
}
