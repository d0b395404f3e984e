use codex_gauge::decimal::PERCENT_UNIT;
use codex_gauge::model::{CodexUsageSnapshot, SnapshotSource, SnapshotStatus, UsageCredits, UsageWindow};
use codex_gauge::reset::{
    apply_reset_inference, finalize_snapshot_at, reset_period_counters, ResetStats, ResetTracking,
};
use codex_gauge::storage::{
    merge_with_last_success, refresh_delay, update_log_full, update_log_line, AppStorage,
    StateDocument,
};

fn window(name: &str, used: i64, reset_at: Option<i64>) -> UsageWindow {
    UsageWindow {
        name: name.to_string(),
        used_percent: Some(used * PERCENT_UNIT),
        remaining_percent: Some((100 - used) * PERCENT_UNIT),
        reset_at,
        window_duration_seconds: None,
    }
}

#[test]
fn update_log_never_contains_payloads() {
    let line = update_log_line("2026-01-01T00:00:00+08:00", "check", "failed", "network");
    assert!(line.contains("category=network"));
    assert!(!line.contains("Authorization"));
    assert_eq!(
        line,
        "2026-01-01T00:00:00+08:00 method=check outcome=failed category=network\n"
    );
    assert!(update_log_full(262_145));
    assert!(!update_log_full(262_144));
}

#[test]
fn storage_files_live_in_the_root() {
    let storage = AppStorage::new(Some("/data".to_string()));
    assert_eq!(storage.root, "/data/CodexGaugeNative");
    assert_eq!(storage.config_path(), "/data/CodexGaugeNative/config.json");
    assert_eq!(storage.state_path(), "/data/CodexGaugeNative/state.json");
    assert_eq!(storage.update_log_path(), "/data/CodexGaugeNative/update.log");
    assert_eq!(storage.usage_history_path(), "/data/CodexGaugeNative/usage-history.json");
    assert_eq!(AppStorage::new(None).root, "./CodexGaugeNative");
}

#[test]
fn failed_refresh_shows_last_usage_and_counts_failures() {
    let mut state = StateDocument::default();
    let mut good = CodexUsageSnapshot::empty_at(SnapshotSource::AppServer, SnapshotStatus::Success, 10);
    good.primary_window = Some(window("5h", 40, None));
    good.plan_type = Some("pro".to_string());
    let shown = merge_with_last_success(good, &mut state);
    assert_eq!(shown.plan_type.as_deref(), Some("pro"));
    assert_eq!((state.consecutive_failures, state.last_success_at), (0, Some(10)));

    let failed = CodexUsageSnapshot::empty_at(SnapshotSource::AuthJson, SnapshotStatus::RequestFailed, 20);
    let shown = merge_with_last_success(failed, &mut state);
    assert_eq!(shown.status, SnapshotStatus::RequestFailed);
    assert_eq!(shown.primary_window.as_ref().unwrap().used_percent, Some(40 * PERCENT_UNIT));
    assert_eq!(shown.plan_type.as_deref(), Some("pro"));
    assert_eq!((state.consecutive_failures, state.last_success_at), (1, Some(10)));
    assert_eq!(refresh_delay(state.consecutive_failures, 60), 30);
    assert_eq!(refresh_delay(0, 60), 60);
    assert_eq!(refresh_delay(2, 60), 60);
    assert_eq!(refresh_delay(3, 60), 120);
    assert_eq!(refresh_delay(9, 60), 300);
}

fn snapshot_with(five: UsageWindow, week: UsageWindow, count: Option<i64>, at: i64) -> CodexUsageSnapshot {
    let mut s = CodexUsageSnapshot::empty_at(SnapshotSource::AuthJson, SnapshotStatus::Success, at);
    s.primary_window = Some(five);
    s.secondary_window = Some(week);
    s.credits = Some(UsageCredits { reset_credits: None, available_count: count, reset_at: None, items: Vec::new() });
    s
}

#[test]
fn natural_and_manual_resets_are_counted() {
    let mut stats = ResetStats::new();
    let before = snapshot_with(window("5h", 80, Some(1000)), window("weekly", 50, Some(5000)), Some(2), 900);
    let after = snapshot_with(window("5h", 2, Some(19000)), window("weekly", 50, Some(5000)), Some(2), 1100);
    apply_reset_inference(&mut stats, &Some(before), &after, 1100);
    assert_eq!((stats.today_auto_reset_5h, stats.week_auto_reset_5h, stats.total_auto_reset_5h), (1, 1, 1));
    assert_eq!(stats.total_auto_reset_weekly, 0);
    assert_eq!(stats.total_manual_reset_consumed, 0);
    assert_eq!(stats.available_reset_credits, Some(2));

    let spent = snapshot_with(window("5h", 2, Some(19000)), window("weekly", 10, Some(5000)), Some(1), 1200);
    apply_reset_inference(&mut stats, &Some(after), &spent, 1200);
    assert_eq!(stats.total_manual_reset_consumed, 1);
    assert_eq!(stats.last_available_reset_credits, Some(1));
    assert_eq!(stats.total_auto_reset_5h, 1);
}

#[test]
fn counters_restart_each_day_and_week() {
    let mut tracking = ResetTracking {
        last_snapshot: None,
        reset_stats: ResetStats::new(),
        stats_start_at: None,
        last_stats_date: Some("2026-07-01".to_string()),
        last_stats_week_start: Some("2026-06-29".to_string()),
    };
    tracking.reset_stats.today_auto_reset_5h = 3;
    tracking.reset_stats.week_auto_reset_5h = 4;
    tracking.reset_stats.total_auto_reset_5h = 5;
    reset_period_counters(&mut tracking, "2026-07-02", "2026-06-29");
    assert_eq!(tracking.reset_stats.today_auto_reset_5h, 0);
    assert_eq!(tracking.reset_stats.week_auto_reset_5h, 4);
    assert_eq!(tracking.reset_stats.total_auto_reset_5h, 5);
    assert_eq!(tracking.last_stats_date.as_deref(), Some("2026-07-02"));
    reset_period_counters(&mut tracking, "2026-07-06", "2026-07-06");
    assert_eq!(tracking.reset_stats.week_auto_reset_5h, 0);
    assert_eq!(tracking.reset_stats.total_auto_reset_5h, 5);

    let snapshot = CodexUsageSnapshot::empty_at(SnapshotSource::AppServer, SnapshotStatus::Success, 0);
    let done = finalize_snapshot_at(snapshot, &mut tracking, 77);
    assert_eq!(done.updated_at, 77);
    assert_eq!(tracking.stats_start_at, Some(77));
    assert_eq!(tracking.last_snapshot.as_ref().unwrap().updated_at, 77);
}
