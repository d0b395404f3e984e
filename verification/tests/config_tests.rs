use codex_gauge::config::{
    default_update_endpoint, display_mode, parse_display_mode, provider_label, top_metric_visibility,
    top_width, AppConfig, ProviderPreference, SettingsForm, TopBarDisplay, MIN_OPACITY,
    OPACITY_UNIT,
};

const LEGACY: &str =
    "https://github.com/ydfk/codex-gauge/releases/download/native-latest/latest-native-windows.json";

#[test]
fn migrates_legacy_update_endpoint() {
    let mut config = AppConfig::default();
    config.update.endpoint = LEGACY.to_string();

    config.normalize("");

    assert_eq!(config.update.endpoint, default_update_endpoint());
    assert_eq!(
        config.update.endpoint,
        "https://github.com/ydfk/codex-gauge/releases/latest/download/latest.json"
    );
}

#[test]
fn old_config_is_brought_into_range() {
    let mut config = AppConfig::with_key("KEY");
    config.version = 2;
    config.refresh_interval_seconds = 5;
    config.opacity = 2 * OPACITY_UNIT;
    config.codex_command = "  ".to_string();
    config.update.public_key = String::new();
    config.normalize("BUNDLED");
    assert_eq!(config.version, 3);
    assert_eq!(config.top_bar_display, TopBarDisplay::FiveHour);
    assert_eq!(config.refresh_interval_seconds, 30);
    assert_eq!(config.opacity, OPACITY_UNIT);
    assert_eq!(config.codex_command, "codex");
    assert_eq!(config.update.public_key, "BUNDLED");
    config.refresh_interval_seconds = 99_999;
    config.opacity = 0;
    config.normalize("BUNDLED");
    assert_eq!(config.refresh_interval_seconds, 3600);
    assert_eq!(config.opacity, MIN_OPACITY);
}

#[test]
fn normalizing_twice_changes_nothing() {
    let mut config = AppConfig::default();
    config.update.endpoint = " ".to_string();
    config.refresh_interval_seconds = 1;
    config.normalize("k");
    let once = (config.update.endpoint.clone(), config.refresh_interval_seconds, config.opacity);
    config.normalize("k");
    assert_eq!(
        (config.update.endpoint.clone(), config.refresh_interval_seconds, config.opacity),
        once
    );
}

#[test]
fn display_mode_names_round_trip() {
    for (mode, expected) in [
        (TopBarDisplay::FiveAndSeven, "five-and-seven"),
        (TopBarDisplay::FiveHour, "five-hour"),
        (TopBarDisplay::IconOnly, "icon-only"),
    ] {
        assert_eq!(display_mode(mode), expected);
        assert_eq!(parse_display_mode(expected), mode);
    }
    assert_eq!(parse_display_mode("other"), TopBarDisplay::FiveHour);
    assert_eq!(provider_label(ProviderPreference::Api), "api");
    assert_eq!(provider_label(ProviderPreference::AppServer), "app-server");
}

#[test]
fn top_width_matches_display_mode() {
    assert_eq!(top_width("icon-only", true), 34);
    assert_eq!(top_width("five-hour", true), 92);
    assert_eq!(top_width("five-and-seven", true), 158);
}

#[test]
fn unlimited_five_hour_falls_back_to_weekly() {
    assert_eq!(top_metric_visibility("five-hour", false), (false, true));
    assert_eq!(top_metric_visibility("five-and-seven", false), (false, true));
    assert_eq!(top_width("five-and-seven", false), 92);
}

#[test]
fn saving_settings_takes_over_the_panel() {
    let mut config = AppConfig::default();
    let form = SettingsForm {
        start_on_boot: true,
        show_top: false,
        display_mode: "icon-only".to_string(),
        top_pinned: false,
        top_locked: true,
        oled_shift: true,
        opacity: 500_000,
        refresh_seconds: "+120".to_string(),
        codex_command: "  my-codex  ".to_string(),
        provider: "API".to_string(),
        update_on_start: false,
        update_endpoint: " https://example.com/latest.json ".to_string(),
    };
    assert_eq!(config.apply_settings(&form, ""), (true, true));
    assert!(config.start_on_boot);
    assert!(!config.show_top_on_startup);
    assert_eq!(config.top_bar_display, TopBarDisplay::IconOnly);
    assert!(config.top_lock_position);
    assert_eq!(config.opacity, MIN_OPACITY);
    assert_eq!(config.refresh_interval_seconds, 120);
    assert_eq!(config.codex_command, "my-codex");
    assert_eq!(config.preferred_provider, ProviderPreference::Api);
    assert_eq!(config.update.endpoint, "https://example.com/latest.json");
    let keep = SettingsForm { refresh_seconds: "soon".to_string(), ..form };
    assert_eq!(config.apply_settings(&keep, ""), (false, false));
    assert_eq!(config.refresh_interval_seconds, 120);
}

#[test]
fn panel_shows_the_settings_and_saving_it_unchanged_keeps_them() {
    let mut config = AppConfig::default();
    config.refresh_interval_seconds = 300;
    config.top_bar_display = TopBarDisplay::FiveAndSeven;
    config.preferred_provider = ProviderPreference::Api;
    config.codex_command = "codex".to_string();
    let form = config.settings_form();
    assert_eq!(form.refresh_seconds, "300");
    assert_eq!(form.display_mode, "five-and-seven");
    assert_eq!(form.provider, "api");
    assert_eq!(form.opacity, config.opacity);
    let before = format!("{:?}", config);
    assert_eq!(config.apply_settings(&form, ""), (false, false));
    assert_eq!(format!("{:?}", config), before);
}
