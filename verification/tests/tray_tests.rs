use codex_gauge::decimal::PERCENT_UNIT;
use codex_gauge::model::{
    CodexUsageSnapshot, SnapshotSource, SnapshotStatus, UsageCredits, UsageWindow,
};
use codex_gauge::tray::{
    check_update_report, compact_time, default_tooltip, install_failure_message, install_update_report,
    menu_bar_title, percent, snapshot_tooltip, tooltip_with_update, tray_menu_text,
    update_check_label, updater_error_category, window_status_label, MenuFlags,
    UpdateCheckResult, UpdaterCheck, UpdaterFailure, UpdaterInstall,
};

/// A share in hundredths of a percent, as the fixed point of the library.
fn hundredths(v: i64) -> i64 {
    v * PERCENT_UNIT / 100
}

fn snapshot(remaining: Option<i64>, weekly: Option<i64>) -> CodexUsageSnapshot {
    CodexUsageSnapshot {
        source: SnapshotSource::AppServer,
        status: SnapshotStatus::Success,
        plan_type: None,
        primary_window: Some(UsageWindow {
            name: "5h".to_string(),
            used_percent: remaining.map(|value| 100 * PERCENT_UNIT - value),
            remaining_percent: remaining,
            reset_at: None,
            window_duration_seconds: Some(18_000),
        }),
        primary_window_unlimited: false,
        secondary_window: Some(UsageWindow {
            name: "weekly".to_string(),
            used_percent: weekly.map(|value| 100 * PERCENT_UNIT - value),
            remaining_percent: weekly,
            reset_at: None,
            window_duration_seconds: Some(604_800),
        }),
        credits: None,
        rate_limit_reached_type: None,
        updated_at: 0,
    }
}

#[test]
fn formats_macos_menu_bar_modes() {
    let snapshot = snapshot(Some(hundredths(7240)), Some(hundredths(4120)));

    assert_eq!(
        menu_bar_title(Some(&snapshot), "fiveHour"),
        Some("5h 72%".to_string())
    );
    assert_eq!(
        menu_bar_title(Some(&snapshot), "fiveAndSeven"),
        Some("5h 72% · 7d 41%".to_string())
    );
    assert_eq!(menu_bar_title(Some(&snapshot), "iconOnly"), None);
}

#[test]
fn hides_unlimited_five_hour_from_menu_bar() {
    let mut unlimited = snapshot(None, Some(80 * PERCENT_UNIT));
    unlimited.primary_window_unlimited = true;

    assert_eq!(
        menu_bar_title(Some(&unlimited), "fiveAndSeven"),
        Some("7d 80%".to_string())
    );
    assert_eq!(menu_bar_title(Some(&unlimited), "fiveHour"), None);
}

#[test]
fn formats_unknown_menu_bar_values() {
    assert_eq!(menu_bar_title(None, "fiveHour"), Some("5h —".to_string()));
}

#[test]
fn adds_update_version_to_tooltip() {
    let update = UpdateCheckResult {
        available: true,
        version: Some("0.0.7".to_string()),
        message: String::new(),
    };

    assert_eq!(
        tooltip_with_update("5h: 剩余 80%".to_string(), Some(&update)),
        "发现新版本 v0.0.7\n5h: 剩余 80%"
    );
}

#[test]
fn tooltip_rounds_half_away_from_zero() {
    assert_eq!(percent(Some(hundredths(7250))), "73%");
    assert_eq!(percent(Some(hundredths(7249))), "72%");
    assert_eq!(percent(Some(-hundredths(30))), "-0%");
    assert_eq!(percent(None), "未知");
}

#[test]
fn snapshot_tooltip_lists_windows_and_status() {
    let mut value = snapshot(Some(50 * PERCENT_UNIT), None);
    value.status = SnapshotStatus::RequestFailed;
    assert_eq!(
        snapshot_tooltip(&value),
        "5h: 剩50% 用50% 重未知\n7d: 剩未知 用未知 重未知\n重置: 未知 · 查询失败"
    );
    assert_eq!(default_tooltip(), "5h: 未知\n7d: 未知\n重置: 未知");
}

#[test]
fn menu_labels_follow_the_windows() {
    assert_eq!(window_status_label("设置", true), "✓ 设置：已打开");
    let flags = MenuFlags {
        main_visible: false,
        top_visible: true,
        detail_visible: false,
        settings_visible: false,
        main_always_on_top: true,
        top_always_on_top: false,
        main_lock_position: false,
        top_lock_position: true,
    };
    let menu = tray_menu_text(flags, "v1.0.0", None);
    assert_eq!(menu.toggle, "○ 桌面浮窗：已隐藏");
    assert_eq!(menu.toggle_top, "✓ 顶部浮窗：已打开");
    assert_eq!(menu.main_always_on_top, "✓ 桌面浮窗置顶");
    assert_eq!(menu.top_always_on_top, "○ 顶部浮窗不置顶");
    assert_eq!(menu.top_lock_position, "✓ 锁定顶部浮条位置");
    assert_eq!(menu.update_id, "update_check");
    assert_eq!(menu.update_label, "更新：当前 v1.0.0（检查更新）");
    let available = UpdateCheckResult { available: true, version: Some("1.1.0".to_string()), message: String::new() };
    let menu = tray_menu_text(flags, "v1.0.0", Some(&available));
    assert_eq!(menu.update_id, "update_install");
    assert_eq!(menu.update_label, "更新：v1.0.0 → v1.1.0（点击安装）");
    let failed = UpdateCheckResult { available: false, version: None, message: "检查更新失败".to_string() };
    assert_eq!(update_check_label("v1.0.0", &failed), "更新：v1.0.0（检查失败，点击重试）");
}

#[test]
fn updater_failures_are_categorized() {
    let missing = UpdaterFailure::Network { message: "HTTP 404 Not Found".to_string() };
    assert_eq!(updater_error_category(&missing), "asset_not_found");
    assert_eq!(
        updater_error_category(&UpdaterFailure::Network { message: "timeout".to_string() }),
        "network_error"
    );
    assert_eq!(updater_error_category(&UpdaterFailure::Base64), "signature_invalid");
    assert_eq!(updater_error_category(&UpdaterFailure::TargetNotFound), "manifest_invalid");
    assert_eq!(updater_error_category(&UpdaterFailure::Io), "install_failed");
    assert_eq!(updater_error_category(&UpdaterFailure::Other), "updater_error");
    assert_eq!(install_failure_message("network_error"), "更新包下载失败，请检查网络连接后重试");
    assert_eq!(install_failure_message("whatever"), "更新安装失败，请查看本地 update.log");
}

#[test]
fn update_commands_report_and_log() {
    let (result, log) = check_update_report(&UpdaterCheck::Available { version: "2.0.0".to_string() });
    assert!(result.available);
    assert_eq!(result.version.as_deref(), Some("2.0.0"));
    assert_eq!((log.method.as_str(), log.outcome.as_str(), log.category.as_str()), ("check_update", "success", "update_available"));
    let (result, log) = install_update_report(&UpdaterInstall::InstallFailed { error: UpdaterFailure::Minisign });
    assert!(!result.available);
    assert_eq!(result.message, "更新包签名验证失败，请确认 updater 公钥和签名密钥匹配");
    assert_eq!(log.category, "signature_invalid");
    let (result, _) = check_update_report(&UpdaterCheck::ConfigInvalid { message: "更新地址格式无效".to_string() });
    assert_eq!(result.message, "更新地址格式无效");
}

fn shaped_like(text: &str, pattern: &str) -> bool {
    let t: Vec<char> = text.chars().collect();
    let p: Vec<char> = pattern.chars().collect();
    t.len() == p.len()
        && t.iter().zip(p.iter()).all(|(c, q)| if *q == 'd' { c.is_ascii_digit() } else { c == q })
}

#[test]
fn reset_times_show_local_clock_text() {
    assert!(shaped_like(&compact_time(Some(1_900_000_000)), "dd-dd dd:dd"));
    assert_eq!(compact_time(Some(i64::MAX)), "未知");
    assert_eq!(compact_time(None), "未知");
    let mut s = snapshot(Some(hundredths(7_000)), Some(hundredths(4_000)));
    s.secondary_window.as_mut().unwrap().reset_at = Some(1_900_000_000);
    let text = snapshot_tooltip(&s);
    let seven = text.lines().nth(1).unwrap();
    let reset = seven.split(" 重").nth(1).unwrap();
    assert!(shaped_like(reset, "dd-dd dd:dd"));
}

#[test]
fn tooltip_count_falls_back_to_reset_credits() {
    let mut s = snapshot(Some(hundredths(7_000)), Some(hundredths(4_000)));
    s.credits = Some(UsageCredits {
        available_count: None,
        reset_credits: Some(3),
        reset_at: None,
        items: Vec::new(),
    });
    assert!(snapshot_tooltip(&s).contains("\n重置: 3 · "));
    s.credits.as_mut().unwrap().available_count = Some(5);
    assert!(snapshot_tooltip(&s).contains("\n重置: 5 · "));
}
