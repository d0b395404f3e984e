use chrono::{Datelike, NaiveDate};

use codex_gauge::app_server::SpawnFailure;
use codex_gauge::clock::{calendar_text, parse_calendar_day, week_start_day};
use codex_gauge::desktop::{autostart_command, autostart_outcome, oled_target, AutostartRegistry};
use codex_gauge::history::{record_usage, record_usage_now, UsageHistory, UsageHistorySnapshot};
use codex_gauge::json::JsonValue;
use codex_gauge::layout::{
    initial_top_x, menubar_position, top_position_to_save, MenubarGeometry, VirtualScreen,
};
use codex_gauge::menu_icon::macos_tray_icon;
use codex_gauge::model::{CodexUsageSnapshot, SnapshotSource, SnapshotStatus, UsageWindow};
use codex_gauge::parser::parse_account;
use codex_gauge::reset::{reset_period_counters_today, ResetStats, ResetTracking};
use codex_gauge::tray::{menu_action, MenuAction};
use codex_gauge::update_flow::{
    check_view, install_failure_text, install_request_message, login_failure_message,
    login_message, panel_click, tray_click, update_action, UpdateAction,
};
use codex_gauge::updater::{UpdateError, UpdateInfo};

fn to_json(value: &serde_json::Value) -> JsonValue {
    match value {
        serde_json::Value::Null => JsonValue::Null,
        serde_json::Value::Bool(b) => JsonValue::Bool(*b),
        serde_json::Value::Number(n) => JsonValue::Number(n.to_string()),
        serde_json::Value::String(s) => JsonValue::Text(s.clone()),
        serde_json::Value::Array(items) => JsonValue::Array(items.iter().map(to_json).collect()),
        serde_json::Value::Object(map) => JsonValue::Object(
            map.iter().map(|(k, v)| (k.clone(), to_json(v))).collect(),
        ),
    }
}

fn parse(text: &str) -> JsonValue {
    to_json(&serde_json::from_str::<serde_json::Value>(text).unwrap())
}

fn day(y: i32, m: u32, d: u32) -> i32 {
    NaiveDate::from_ymd_opt(y, m, d).unwrap().num_days_from_ce()
}

#[test]
fn update_check_views() {
    let found = check_view(&Ok(Some(UpdateInfo {
        version: "0.3.1".to_string(),
        url: "https://example.com/a.zip".to_string(),
        signature: "sig".to_string(),
    })));
    assert_eq!(found.message, "发现新版本 v0.3.1，点击安装后自动更新");
    assert_eq!(found.label, "安装 v0.3.1");
    assert!(found.available);

    let latest = check_view(&Ok(None));
    assert_eq!(latest.message, "已是最新版");
    assert_eq!(latest.label, "检查更新");
    assert!(!latest.available);

    let failed = check_view(&Err(UpdateError::Network));
    assert_eq!(failed.message, "检查更新失败");
    assert_eq!(failed.label, "检查更新");
    assert!(!failed.available);
}

#[test]
fn install_failures_have_their_own_messages() {
    assert_eq!(install_failure_text(UpdateError::SignatureConfig), "未配置原生版更新公钥");
    assert_eq!(install_failure_text(UpdateError::SignatureInvalid), "更新包签名验证失败");
    assert_eq!(
        install_failure_text(UpdateError::NoWindowsAsset),
        "Release 中没有 Windows x64 更新包"
    );
    for error in [UpdateError::Network, UpdateError::Manifest, UpdateError::Package, UpdateError::Install] {
        assert_eq!(install_failure_text(error), "下载或安装更新失败，请查看 update.log");
    }
}

#[test]
fn tray_update_entry_installs_only_a_known_release() {
    assert_eq!(update_action(true), UpdateAction::Install);
    assert_eq!(update_action(false), UpdateAction::Check);
    assert_eq!(install_request_message(false), Some("请先检查更新"));
    assert_eq!(install_request_message(true), None);
}

#[test]
fn login_messages() {
    assert_eq!(login_message(true), "已打开 Codex 登录");
    assert_eq!(login_message(false), "无法打开 Codex 登录");
    assert_eq!(
        login_failure_message(SpawnFailure::NotFound),
        "无法启动 Codex 登录：codex_not_found"
    );
    assert_eq!(
        login_failure_message(SpawnFailure::PermissionDenied),
        "无法启动 Codex 登录：permission_denied"
    );
}

#[test]
fn widget_clicks_within_the_gap_are_ignored() {
    assert_eq!(panel_click(None, 1_000), (Some(1_000), true));
    assert_eq!(panel_click(Some(1_000), 1_100), (Some(1_000), false));
    assert_eq!(panel_click(Some(1_000), 1_249), (Some(1_000), false));
    assert_eq!(panel_click(Some(1_000), 1_250), (Some(1_250), true));
    assert_eq!(panel_click(Some(1_000), 900), (Some(1_000), false));
}

#[test]
fn tray_double_click_uses_up_both_clicks() {
    let (last, front) = tray_click(None, 5_000);
    assert_eq!((last, front), (Some(5_000), false));
    let (last, front) = tray_click(last, 5_300);
    assert_eq!((last, front), (None, true));
    let (last, front) = tray_click(last, 5_400);
    assert_eq!((last, front), (Some(5_400), false));
    assert_eq!(tray_click(Some(5_400), 5_850), (Some(5_850), false));
    assert_eq!(tray_click(Some(5_400), 5_849), (None, true));
}

#[test]
fn native_autostart_outcomes() {
    assert!(autostart_outcome(true, AutostartRegistry::Done).is_ok());
    assert!(autostart_outcome(false, AutostartRegistry::Done).is_ok());
    assert!(autostart_outcome(false, AutostartRegistry::NotFound).is_ok());
    assert_eq!(
        autostart_outcome(true, AutostartRegistry::NotFound),
        Err("autostart_registry".to_string())
    );
    assert_eq!(
        autostart_outcome(true, AutostartRegistry::NoExecutable),
        Err("autostart_path".to_string())
    );
    assert_eq!(
        autostart_outcome(false, AutostartRegistry::OpenFailed),
        Err("autostart_registry".to_string())
    );
    assert_eq!(
        autostart_outcome(true, AutostartRegistry::Failed),
        Err("autostart_registry".to_string())
    );
    assert_eq!(
        autostart_command("C:\\Apps\\CodexGauge.exe"),
        "\"C:\\Apps\\CodexGauge.exe\" --autostart"
    );
}

#[test]
fn account_plan_is_read_directly() {
    let direct = parse_account(&parse(r#"{"result": {"planType": "pro", "plan": "free"}}"#));
    assert_eq!(direct.plan_type.as_deref(), Some("pro"));
    let fallback = parse_account(&parse(r#"{"plan_type": 3, "plan": "plus"}"#));
    assert_eq!(fallback.plan_type.as_deref(), Some("plus"));
    let nested = parse_account(&parse(r#"{"result": {"account": {"planType": "team"}}}"#));
    assert_eq!(nested.plan_type, None);
}

#[test]
fn weeks_start_on_monday() {
    let wednesday = day(2024, 1, 3);
    assert_eq!(week_start_day(wednesday), day(2024, 1, 1) as i64);
    let monday = day(2026, 7, 6);
    assert_eq!(week_start_day(monday), monday as i64);
    let sunday = day(2026, 7, 12);
    assert_eq!(week_start_day(sunday), monday as i64);
    assert_eq!(week_start_day(1), 1);
    assert_eq!(week_start_day(0), -6);
}

#[test]
fn calendar_texts_round_trip() {
    let d = day(2026, 7, 2);
    assert_eq!(calendar_text(d, "%Y-%m-%d").as_deref(), Some("2026-07-02"));
    assert_eq!(parse_calendar_day("2026-07-02", "%Y-%m-%d"), Some(d));
    assert_eq!(parse_calendar_day("2026-02-30", "%Y-%m-%d"), None);
    assert_eq!(parse_calendar_day("yesterday", "%Y-%m-%d"), None);
}

fn history_record(time: &str, five: Option<i64>) -> UsageHistorySnapshot {
    UsageHistorySnapshot {
        time: time.to_string(),
        five_hour_used_percent: five,
        weekly_used_percent: None,
        available_reset_credits: Some(1),
    }
}

#[test]
fn history_keeps_ninety_days_and_one_entry_per_day() {
    let today = day(2026, 7, 2);
    let mut history = UsageHistory::default();
    for date in ["2026-03-01", "2026-04-04", "2026-04-03", "not a date", "2026-06-22"] {
        record_usage(
            &mut history,
            day(2026, 6, 22),
            date,
            Some(5),
            history_record("08:00:00", None),
        );
    }
    assert_eq!(history.daily.len(), 3);

    record_usage(&mut history, today, "2026-07-02", Some(10), history_record("09:00:00", Some(7)));
    let dates: Vec<&str> = history.daily.iter().map(|d| d.date.as_str()).collect();
    assert_eq!(dates, vec!["2026-04-04", "2026-06-22", "2026-07-02"]);
    assert_eq!(history.daily[2].tokens, Some(10));
    assert_eq!(history.daily[2].snapshots.len(), 1);

    record_usage(&mut history, today, "2026-07-02", Some(12), history_record("10:00:00", Some(9)));
    assert_eq!(history.daily.len(), 3);
    assert_eq!(history.daily[2].tokens, Some(12));
    assert_eq!(history.daily[2].snapshots.len(), 2);
    assert_eq!(history.daily[2].snapshots[1].time, "10:00:00");
    assert_eq!(history.daily[2].snapshots[1].five_hour_used_percent, Some(9));
    assert_eq!(history.version, 1);
}

#[test]
fn recording_now_adds_todays_entry() {
    let mut history = UsageHistory::default();
    let mut snapshot = CodexUsageSnapshot::empty_at(SnapshotSource::AppServer, SnapshotStatus::Success, 0);
    snapshot.primary_window = Some(UsageWindow {
        name: "5h".to_string(),
        used_percent: Some(25),
        remaining_percent: Some(75),
        reset_at: None,
        window_duration_seconds: Some(18_000),
    });
    let mut stats = ResetStats::new();
    stats.available_reset_credits = Some(2);
    record_usage_now(&mut history, &snapshot, &stats, Some(44));
    let today = chrono::Local::now().date_naive().format("%Y-%m-%d").to_string();
    assert_eq!(history.daily.len(), 1);
    assert_eq!(history.daily[0].date, today);
    assert_eq!(history.daily[0].tokens, Some(44));
    assert_eq!(history.daily[0].snapshots[0].five_hour_used_percent, Some(25));
    assert_eq!(history.daily[0].snapshots[0].weekly_used_percent, None);
    assert_eq!(history.daily[0].snapshots[0].available_reset_credits, Some(2));
}

#[test]
fn counters_follow_the_local_date() {
    let mut tracking = ResetTracking {
        last_snapshot: None,
        reset_stats: ResetStats::new(),
        stats_start_at: None,
        last_stats_date: Some("2000-01-01".to_string()),
        last_stats_week_start: None,
    };
    tracking.reset_stats.today_auto_reset_5h = 3;
    tracking.reset_stats.total_auto_reset_5h = 3;
    reset_period_counters_today(&mut tracking);
    let today = chrono::Local::now().date_naive();
    let monday = today - chrono::Duration::days(today.weekday().num_days_from_monday() as i64);
    assert_eq!(tracking.last_stats_date, Some(today.format("%Y-%m-%d").to_string()));
    assert_eq!(tracking.last_stats_week_start, Some(monday.format("%Y-%m-%d").to_string()));
    assert_eq!(tracking.reset_stats.today_auto_reset_5h, 0);
    assert_eq!(tracking.reset_stats.total_auto_reset_5h, 3);
}

#[test]
fn tray_menu_ids_select_actions() {
    assert_eq!(menu_action("toggle"), MenuAction::TogglePrimary);
    assert_eq!(menu_action("toggle_top"), MenuAction::ToggleTop);
    assert_eq!(menu_action("detail"), MenuAction::ToggleDetail);
    assert_eq!(menu_action("settings"), MenuAction::OpenSettings);
    assert_eq!(menu_action("refresh"), MenuAction::Refresh);
    assert_eq!(menu_action("always_on_top_main"), MenuAction::PinMain);
    assert_eq!(menu_action("always_on_top_top"), MenuAction::PinTop);
    assert_eq!(menu_action("lock_position_main"), MenuAction::LockMain);
    assert_eq!(menu_action("lock_position_top"), MenuAction::LockTop);
    assert_eq!(menu_action("update_check"), MenuAction::CheckUpdate);
    assert_eq!(menu_action("update_install"), MenuAction::InstallUpdate);
    assert_eq!(menu_action("quit"), MenuAction::Quit);
    assert_eq!(menu_action("Quit"), MenuAction::Nothing);
}

#[test]
fn saved_top_position_is_used_only_on_screen() {
    let screen = VirtualScreen { left: 0, top: 0, width: 1920, height: 1080 };
    assert_eq!(initial_top_x(Some(300), 800, screen), 300);
    assert_eq!(initial_top_x(Some(-64), 800, screen), -64);
    assert_eq!(initial_top_x(Some(-65), 800, screen), 800);
    assert_eq!(initial_top_x(Some(1920), 800, screen), 800);
    assert_eq!(initial_top_x(Some(-32_000), 800, screen), 800);
    assert_eq!(initial_top_x(None, 800, screen), 800);
}

fn pixel(icon: &[u8], x: usize, y: usize) -> [u8; 4] {
    let i = (y * 36 + x) * 4;
    [icon[i], icon[i + 1], icon[i + 2], icon[i + 3]]
}

#[test]
fn menu_icon_averages_covered_pixels_by_alpha() {
    // 72 x 72: each 2 x 2 block holds one opaque orange pixel and three transparent white ones.
    let mut source = vec![0u8; 72 * 72 * 4];
    for y in 0..72 {
        for x in 0..72 {
            let i = (y * 72 + x) * 4;
            if x % 2 == 0 && y % 2 == 0 {
                source[i..i + 4].copy_from_slice(&[240, 120, 40, 255]);
            } else {
                source[i..i + 4].copy_from_slice(&[255, 255, 255, 0]);
            }
        }
    }
    let icon = macos_tray_icon(&source, 72, 72);
    assert_eq!(icon.len(), 36 * 36 * 4);
    assert_eq!(pixel(&icon, 0, 0), [240, 120, 40, 63]);
    assert_eq!(pixel(&icon, 35, 35), [240, 120, 40, 63]);

    // Two half-transparent colours average by their alpha.
    let mut two = vec![0u8; 72 * 36 * 4];
    for y in 0..36 {
        for x in 0..72 {
            let i = (y * 72 + x) * 4;
            let colour = if x % 2 == 0 { [200, 0, 0, 200] } else { [0, 100, 0, 50] };
            two[i..i + 4].copy_from_slice(&colour);
        }
    }
    let icon = macos_tray_icon(&two, 72, 36);
    assert_eq!(pixel(&icon, 3, 7), [160, 20, 0, 125]);
}

#[test]
fn menu_icon_of_a_transparent_or_empty_source() {
    let icon = macos_tray_icon(&vec![10u8, 20, 30, 0].repeat(36 * 36), 36, 36);
    assert!(icon.iter().all(|b| *b == 0));
    let empty = macos_tray_icon(&Vec::new(), 0, 0);
    assert_eq!(empty, vec![0u8; 36 * 36 * 4]);
    let same = macos_tray_icon(&vec![1u8, 2, 3, 4].repeat(36 * 36), 36, 36);
    assert_eq!(pixel(&same, 17, 30), [1, 2, 3, 4]);
}

#[test]
fn top_position_is_saved_only_when_it_moved_on_screen() {
    let screen = VirtualScreen { left: 0, top: 0, width: 1920, height: 1080 };
    assert_eq!(top_position_to_save(true, Some(400), Some(300), screen), Some(400));
    assert_eq!(top_position_to_save(true, Some(300), Some(300), screen), None);
    assert_eq!(top_position_to_save(false, Some(400), Some(300), screen), None);
    assert_eq!(top_position_to_save(true, None, Some(300), screen), None);
    assert_eq!(top_position_to_save(true, Some(-32_000), None, screen), None);
    assert_eq!(top_position_to_save(true, Some(10), None, screen), Some(10));
}

#[test]
fn only_main_and_top_windows_shift() {
    assert_eq!(oled_target("main", 100, 50, -1, 0), Ok((99, 50)));
    assert_eq!(oled_target("top", 100, 0, 1, 0), Ok((101, 0)));
    assert_eq!(oled_target("detail", 100, 0, 1, 0), Err("窗口不支持防烧屏位移".to_string()));
}

#[test]
fn menubar_window_stays_on_its_monitor() {
    let g = MenubarGeometry {
        origin_x: 0,
        origin_y: 0,
        width: 1440,
        height: 900,
        panel_width: 600,
        panel_height: 800,
        inset: 16,
        bar_height: 48,
        drop: 24,
    };
    assert_eq!(menubar_position(g, Some((1300, 10))), (824, 48));
    assert_eq!(menubar_position(g, Some((500, 40))), (200, 64));
    assert_eq!(menubar_position(g, Some((100, 500))), (16, 84));
    assert_eq!(menubar_position(g, None), (824, 48));
    let narrow = MenubarGeometry { width: 500, ..g };
    assert_eq!(menubar_position(narrow, Some((250, 0))), (16, 48));
    let second = MenubarGeometry { origin_x: -1920, origin_y: 100, ..g };
    assert_eq!(menubar_position(second, None), (-1920 + 824, 148));
}

#[test]
fn local_times_have_the_clock_shape() {
    let text = codex_gauge::presentation::timestamp(1_900_000_000);
    let chars: Vec<char> = text.chars().collect();
    assert_eq!(chars.len(), 8);
    assert_eq!((chars[2], chars[5]), (':', ':'));
    assert!(chars.iter().enumerate().all(|(i, c)| i == 2 || i == 5 || c.is_ascii_digit()));
    let (day, date) = codex_gauge::clock::local_date("%Y-%m-%d");
    assert_eq!(calendar_text(day, "%Y-%m-%d"), Some(date));
    assert_eq!(codex_gauge::clock::local_time_text("%H:%M:%S").len(), 8);
}
