use codex_gauge::decimal::PERCENT_UNIT;
use codex_gauge::desktop::{
    apply_start_on_boot, boot_command, default_provider, default_true, has_usage_data,
    merge_failed_snapshot, use_cached_snapshot, AppConfig, BootRegistry, OledMoves, RefreshCache,
    WindowTarget,
};
use codex_gauge::model::{CodexUsageSnapshot, SnapshotSource, SnapshotStatus, UsageWindow};

#[test]
fn persists_main_and_top_visibility_preferences() {
    let mut config = AppConfig::with_defaults();

    assert!(config.set_window_visibility_preference("main", false));
    assert!(config.set_window_visibility_preference("top", false));
    config.save_top_window_position(256);
    assert!(config.toggle_lock_position(WindowTarget::Main));
    assert!(config.toggle_lock_position(WindowTarget::Top));
    config.save_top_window_position(512);

    assert!(!config.general.show_on_startup);
    assert!(!config.general.top_status_enabled);
    assert!(config.general.lock_position);
    assert!(config.general.top_lock_position);
    assert_eq!(config.window.top_x, Some(256));
}

#[test]
fn unknown_window_preferences_change_nothing() {
    let mut config = AppConfig::with_defaults();
    assert!(!config.set_window_visibility_preference("detail", false));
    assert!(!config.set_window_visibility_preference("main", true));
    assert!(config.general.show_on_startup);
    config.save_window_position(3, 4);
    assert_eq!((config.window.x, config.window.y), (Some(3), Some(4)));
    config.toggle_lock_position(WindowTarget::Main);
    config.save_window_position(9, 9);
    assert_eq!((config.window.x, config.window.y), (Some(3), Some(4)));
    assert!(!config.toggle_always_on_top(WindowTarget::Top));
    assert!(!config.always_on_top_enabled(WindowTarget::Top));
}

#[test]
fn old_settings_migrate_step_by_step() {
    let mut config = AppConfig::with_defaults();
    config.version = 1;
    config.general.always_on_top = true;
    config.general.top_always_on_top = false;
    config.codex.preferred_provider = "api".to_string();
    config.update.endpoint = " ".to_string();
    config.migrate();
    assert_eq!(config.version, 5);
    assert!(!config.general.always_on_top);
    assert!(!config.general.main_always_on_top);
    assert!(config.general.top_always_on_top);
    assert_eq!(config.codex.preferred_provider, default_provider());
    assert_eq!(
        config.update.endpoint,
        "https://github.com/ydfk/codex-gauge/releases/latest/download/latest.json"
    );
    let mut v3 = AppConfig::with_defaults();
    v3.version = 3;
    v3.general.always_on_top = true;
    v3.migrate();
    assert!(v3.general.main_always_on_top);
    assert!(default_true());
}

#[test]
fn refresh_backoff_grows_and_resets() {
    let mut cache = RefreshCache::new();
    cache.update(false, 1000);
    assert_eq!((cache.failure_count, cache.retry_after_at), (1, Some(1030)));
    cache.update(false, 1000);
    assert_eq!(cache.retry_after_at, Some(1060));
    cache.update(false, 1000);
    assert_eq!(cache.retry_after_at, Some(1120));
    cache.update(false, 1000);
    cache.update(false, 1000);
    assert_eq!((cache.failure_count, cache.retry_after_at), (5, Some(1300)));
    cache.update(true, 1000);
    assert_eq!((cache.failure_count, cache.retry_after_at), (0, None));
    assert!(use_cached_snapshot(false, Some(950), None, 1000));
    assert!(!use_cached_snapshot(false, Some(800), None, 1000));
    assert!(use_cached_snapshot(false, Some(800), Some(1001), 1000));
    assert!(!use_cached_snapshot(true, Some(999), Some(2000), 1000));
    assert!(!use_cached_snapshot(false, None, Some(2000), 1000));
}

fn window(name: &str, used: i64) -> UsageWindow {
    UsageWindow {
        name: name.to_string(),
        used_percent: Some(used * PERCENT_UNIT),
        remaining_percent: Some((100 - used) * PERCENT_UNIT),
        reset_at: None,
        window_duration_seconds: None,
    }
}

#[test]
fn failed_refresh_keeps_previous_usage() {
    let mut previous = CodexUsageSnapshot::empty_at(SnapshotSource::AppServer, SnapshotStatus::Success, 1);
    previous.primary_window = Some(window("5h", 30));
    previous.plan_type = Some("plus".to_string());
    let failed = CodexUsageSnapshot::empty_at(SnapshotSource::AuthJson, SnapshotStatus::InvalidAuth, 2);
    assert!(has_usage_data(Some(&previous)));
    let merged = merge_failed_snapshot(failed, Some(previous.duplicate()));
    assert_eq!(merged.status, SnapshotStatus::InvalidAuth);
    assert_eq!(merged.source, SnapshotSource::AuthJson);
    assert_eq!(merged.updated_at, 2);
    assert_eq!(merged.primary_window.unwrap().used_percent, Some(30 * PERCENT_UNIT));
    assert_eq!(merged.plan_type.as_deref(), Some("plus"));
    let ok = CodexUsageSnapshot::empty_at(SnapshotSource::AuthJson, SnapshotStatus::Success, 3);
    assert!(merge_failed_snapshot(ok, Some(previous)).primary_window.is_none());
}

#[test]
fn burn_in_moves_are_recognized_once() {
    let mut moves = OledMoves::new();
    moves.mark("top", 10, 0);
    moves.mark("top", 11, 0);
    assert!(!moves.is_oled_move("top", 10, 0));
    assert!(moves.is_oled_move("top", 11, 0));
    assert!(!moves.is_oled_move("top", 11, 0));
    moves.mark("main", 1, 2);
    moves.clear("main");
    assert!(!moves.is_oled_move("main", 1, 2));
}

#[test]
fn start_on_boot_reports_registry_outcomes() {
    assert_eq!(apply_start_on_boot(true, BootRegistry::Done), Ok(()));
    assert_eq!(apply_start_on_boot(false, BootRegistry::NotFound), Ok(()));
    assert_eq!(
        apply_start_on_boot(false, BootRegistry::Failed),
        Err("无法移除开机启动项".to_string())
    );
    assert_eq!(
        apply_start_on_boot(true, BootRegistry::DevelopmentBuild),
        Err("开发模式不支持开机启动，请使用安装包版本".to_string())
    );
    assert_eq!(apply_start_on_boot(false, BootRegistry::DevelopmentBuild), Ok(()));
    assert_eq!(boot_command("C:/a b/app.exe"), "\"C:/a b/app.exe\"");
}

#[test]
fn creates_default_config() {
    let config = AppConfig::with_defaults();
    assert_eq!(config.window.width, 360);
}

#[test]
fn current_config_survives_migration_unchanged() {
    let mut config = AppConfig::with_defaults();
    config.general.top_always_on_top = false;
    config.general.opacity = 700_000;
    config.update.channel = "beta".to_string();
    let before = format!("{:?}", config);
    config.migrate();
    assert_eq!(format!("{:?}", config), before);
    config.version = 1;
    config.general.always_on_top = true;
    config.migrate();
    assert_eq!(config.version, 5);
    assert!(config.general.top_always_on_top);
    assert!(!config.general.main_always_on_top);
    assert_eq!(config.general.opacity, 700_000);
    assert_eq!(config.update.channel, "beta");
}
