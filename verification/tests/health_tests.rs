use remycord::config::CacheAutoClear;
use remycord::health::{
    usage_percent, CacheHealthMonitor, ClearCause, EvictionPolicy, FULL_PERCENT,
};

const KB: u64 = 1024;

#[test]
fn usage_is_truncated_percentage() {
    assert_eq!(usage_percent(900 * KB, 1), 87);
    assert_eq!(usage_percent(1100 * KB, 1), 107);
    assert_eq!(usage_percent(0, 1), 0);
    assert_eq!(usage_percent(1_048_576, 1), 100);
    assert_eq!(usage_percent(1_048_575, 1), 99);
    assert_eq!(usage_percent(29, 0), 255);
    assert_eq!(usage_percent(50 * 1_048_576, 100), 50);
    assert_eq!(usage_percent(29 * 1_048_576, 100), 29);
}

#[test]
fn usage_is_capped() {
    assert_eq!(usage_percent(u64::MAX, 1), 255);
    assert_eq!(usage_percent(3 * 1_048_576, 1), 255);
    assert_eq!(usage_percent(2 * 1_048_576 + 1_048_575, 1), 255);
    assert_eq!(usage_percent(2 * 1_048_576, 1), 200);
}

#[test]
fn usage_of_cache_without_room() {
    assert_eq!(usage_percent(0, 0), 0);
    assert_eq!(usage_percent(1, 0), 255);
}

#[test]
fn full_cache_is_warned_of_once_and_cleared() {
    let mut monitor = CacheHealthMonitor::new();
    let first = monitor.tick(900 * KB, 1, 80, EvictionPolicy::WhenFull, 0);
    assert_eq!(first.usage_percent, 87);
    assert!(first.warn);
    assert_eq!(first.clear, None);
    let again = monitor.tick(900 * KB, 1, 80, EvictionPolicy::WhenFull, 10);
    assert!(!again.warn);
    assert_eq!(again.clear, None);
    let second = monitor.tick(1100 * KB, 1, 80, EvictionPolicy::WhenFull, 20);
    assert!(second.usage_percent >= FULL_PERCENT);
    assert!(!second.warn);
    assert_eq!(second.clear, Some(ClearCause::Full));
    let after = monitor.tick(0, 1, 80, EvictionPolicy::WhenFull, 30);
    assert_eq!(after.usage_percent, 0);
    assert!(!after.warn);
    assert_eq!(after.clear, None);
    assert!(!monitor.is_warning_active());
}

#[test]
fn warnings_are_edge_triggered() {
    let mut monitor = CacheHealthMonitor::new();
    let mut warnings = 0;
    for bytes in [85u64, 90, 99, 50, 10, 81, 80, 100] {
        let report = monitor.check_cache_health(bytes * 1_048_576, 100, 80, EvictionPolicy::Never);
        if report.warn {
            warnings += 1;
        }
        assert_eq!(report.clear, None);
    }
    assert_eq!(warnings, 2);
    assert!(monitor.is_warning_active());
}

#[test]
fn warning_at_exact_threshold() {
    let mut monitor = CacheHealthMonitor::new();
    assert!(!monitor.check_cache_health(79 * 1_048_576, 100, 80, EvictionPolicy::Never).warn);
    assert!(monitor.check_cache_health(80 * 1_048_576, 100, 80, EvictionPolicy::Never).warn);
    assert!(!monitor.check_cache_health(80 * 1_048_576, 100, 80, EvictionPolicy::Never).warn);
}

#[test]
fn full_cache_is_cleared_only_when_policy_says_so() {
    let mut monitor = CacheHealthMonitor::new();
    assert_eq!(
        monitor.check_cache_health(95 * 1_048_576, 100, 80, EvictionPolicy::WhenFull).clear,
        Some(ClearCause::Full)
    );
    assert_eq!(
        monitor.check_cache_health(94 * 1_048_576, 100, 80, EvictionPolicy::WhenFull).clear,
        None
    );
    assert_eq!(
        monitor.check_cache_health(99 * 1_048_576, 100, 80, EvictionPolicy::Never).clear,
        None
    );
    assert_eq!(
        monitor.check_cache_health(99 * 1_048_576, 100, 80, EvictionPolicy::Periodic(5)).clear,
        None
    );
}

#[test]
fn periodic_clear_is_due_after_interval() {
    let policy = EvictionPolicy::Periodic(1800);
    assert!(!CacheHealthMonitor::check_scheduled_cache_clear(policy, 0));
    assert!(!CacheHealthMonitor::check_scheduled_cache_clear(policy, 1799));
    assert!(CacheHealthMonitor::check_scheduled_cache_clear(policy, 1800));
    assert!(CacheHealthMonitor::check_scheduled_cache_clear(policy, 100_000));
    assert!(!CacheHealthMonitor::check_scheduled_cache_clear(EvictionPolicy::Never, u64::MAX));
    assert!(!CacheHealthMonitor::check_scheduled_cache_clear(EvictionPolicy::WhenFull, u64::MAX));
    let mut monitor = CacheHealthMonitor::new();
    let report = monitor.tick(0, 100, 80, policy, 1800);
    assert_eq!(report.clear, Some(ClearCause::Scheduled));
    let early = monitor.tick(0, 100, 80, policy, 1805);
    assert_eq!(early.clear, None);
}

#[test]
fn scheduled_clear_restarts_the_interval() {
    let policy = EvictionPolicy::Periodic(1800);
    let mut monitor = CacheHealthMonitor::new();
    assert_eq!(monitor.last_clear_secs(), 0);
    assert!(!monitor.scheduled_clear(policy, 1799));
    assert_eq!(monitor.last_clear_secs(), 0);
    assert!(monitor.scheduled_clear(policy, 2000));
    assert_eq!(monitor.last_clear_secs(), 2000);
    assert!(!monitor.scheduled_clear(policy, 2001));
    assert!(!monitor.scheduled_clear(policy, 3799));
    assert_eq!(monitor.last_clear_secs(), 2000);
    assert!(monitor.scheduled_clear(policy, 3800));
    assert_eq!(monitor.last_clear_secs(), 3800);
    assert!(!monitor.scheduled_clear(policy, 100));
    assert_eq!(monitor.last_clear_secs(), 3800);
    assert!(!monitor.scheduled_clear(EvictionPolicy::Never, u64::MAX));
    assert!(!monitor.scheduled_clear(EvictionPolicy::WhenFull, u64::MAX));
    assert_eq!(monitor.last_clear_secs(), 3800);
}

#[test]
fn clear_of_a_full_cache_leaves_the_interval() {
    let mut monitor = CacheHealthMonitor::new();
    let report = monitor.tick(99 * 1_048_576, 100, 80, EvictionPolicy::WhenFull, 500);
    assert_eq!(report.clear, Some(ClearCause::Full));
    assert_eq!(monitor.last_clear_secs(), 0);
    assert!(monitor.is_warning_active());
    let report = monitor.tick(99 * 1_048_576, 100, 80, EvictionPolicy::Periodic(600), 700);
    assert_eq!(report.clear, Some(ClearCause::Scheduled));
    assert_eq!(monitor.last_clear_secs(), 700);
    assert!(monitor.is_warning_active());
}

#[test]
fn settings_stand_for_policies() {
    assert_eq!(CacheAutoClear::Never.policy(), EvictionPolicy::Never);
    assert_eq!(CacheAutoClear::WhenFull.policy(), EvictionPolicy::WhenFull);
    assert_eq!(CacheAutoClear::Every30Minutes.policy(), EvictionPolicy::Periodic(1800));
    assert_eq!(CacheAutoClear::EveryHour.policy(), EvictionPolicy::Periodic(3600));
    assert_eq!(CacheAutoClear::EveryDay.policy(), EvictionPolicy::Periodic(86400));
}
