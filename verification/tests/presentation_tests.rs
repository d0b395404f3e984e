use chrono::TimeZone;
use codex_gauge::decimal::PERCENT_UNIT;
use codex_gauge::model::{
    CodexUsageSnapshot, ResetCreditItem, SnapshotSource, SnapshotStatus, UsageCredits, UsageWindow,
};
use codex_gauge::presentation::{
    credit_status, credit_title, gauge_data, percent, reset_time, tooltip_text, tray_tooltip,
    used_text,
};

fn snapshot() -> CodexUsageSnapshot {
    CodexUsageSnapshot {
        source: SnapshotSource::AppServer,
        status: SnapshotStatus::Success,
        plan_type: Some("plus".to_string()),
        primary_window: None,
        primary_window_unlimited: true,
        secondary_window: Some(UsageWindow {
            name: "weekly".to_string(),
            used_percent: Some(79 * PERCENT_UNIT),
            remaining_percent: Some(21 * PERCENT_UNIT),
            reset_at: None,
            window_duration_seconds: Some(604_800),
        }),
        credits: None,
        rate_limit_reached_type: None,
        updated_at: 0,
    }
}

#[test]
fn unknown_values_remain_unknown() {
    assert_eq!(percent(None), "未知");
    assert_eq!(reset_time(None), "未知");
}

#[test]
fn percent_is_clamped() {
    assert_eq!(percent(Some(120 * PERCENT_UNIT)), "100%");
    assert_eq!(percent(Some(-2 * PERCENT_UNIT)), "0%");
}

#[test]
fn percent_rounds_halves_to_even() {
    assert_eq!(percent(Some(12 * PERCENT_UNIT + PERCENT_UNIT / 2)), "12%");
    assert_eq!(percent(Some(13 * PERCENT_UNIT + PERCENT_UNIT / 2)), "14%");
    assert_eq!(percent(Some(13 * PERCENT_UNIT + PERCENT_UNIT / 2 + 1)), "14%");
    assert_eq!(percent(Some(12 * PERCENT_UNIT + PERCENT_UNIT / 2 - 1)), "12%");
}

#[test]
fn unlimited_window_has_explicit_copy() {
    let data = gauge_data(&snapshot());
    assert!(data.five_unlimited);
    assert_eq!(data.five_remaining_text, "无限");
    assert_eq!(data.five_reset_text, "无需重置");
}

#[test]
fn reset_count_is_raw_value_and_credit_list_is_limited() {
    let mut value = snapshot();
    value.credits = Some(UsageCredits {
        reset_credits: None,
        available_count: Some(3),
        reset_at: None,
        items: (0..3)
            .map(|_| ResetCreditItem {
                status: Some("available".to_string()),
                title: Some("Full reset (Weekly + 5 hr)".to_string()),
                granted_at: None,
                expires_at: None,
            })
            .collect(),
    });

    let data = gauge_data(&value);

    assert_eq!(data.reset_count_text, "3");
    assert_eq!(data.credit_total_text, "共 3 张");
    assert_eq!(data.credit_items.len(), 2);
    assert_eq!(data.credit_items[0].title, "完整重置（5h + 7d）");
}

#[test]
fn credit_texts_follow_their_state() {
    assert_eq!(credit_status(Some("ACTIVE")), ("可用".to_string(), true));
    assert_eq!(credit_status(Some("Consumed")), ("已使用".to_string(), false));
    assert_eq!(credit_status(Some("expired")), ("已过期".to_string(), false));
    assert_eq!(credit_status(Some("Pending")), ("pending".to_string(), false));
    assert_eq!(credit_status(None), ("未知".to_string(), false));
    assert_eq!(credit_title(Some("  ")), "重置券");
    assert_eq!(credit_title(None), "重置券");
    assert_eq!(credit_title(Some("Bonus")), "Bonus");
}

#[test]
fn panel_texts_of_a_limited_window() {
    let mut value = snapshot();
    value.primary_window_unlimited = false;
    value.status = SnapshotStatus::InvalidAuth;
    let data = gauge_data(&value);
    assert!(data.login_needed);
    assert_eq!(data.five_used_text, "已用 未知");
    assert_eq!(data.five_remaining_text, "未知");
    assert_eq!(data.five_reset_text, "未知");
    assert_eq!(data.five_remaining, 0);
    assert_eq!(data.seven_used_text, "已用 79%");
    assert_eq!(data.seven_remaining_text, "21%");
    assert_eq!(data.status_text, "Codex 凭据无效，请重新登录");
    assert_eq!(data.source_text, "App Server");
    assert_eq!(data.credit_total_text, "共 0 张");
    assert_eq!(used_text(&None), "已用 未知");
}

#[test]
fn tray_tooltip_lists_both_windows() {
    let value = snapshot();
    let text = tray_tooltip(&value);
    assert_eq!(text, "Codex Gauge\n5h 无限\n7d 剩21% · 已用 79% · 重置未知\n可用重置 未知");
    assert_eq!(tooltip_text(&gauge_data(&value)), text);
}

#[test]
fn known_times_are_shown_unknown_ones_are_not() {
    let text: Vec<char> = reset_time(Some(1_900_000_000)).chars().collect();
    assert_eq!(text.len(), 11);
    assert_eq!((text[2], text[5], text[8]), ('-', ' ', ':'));
    assert_eq!(reset_time(Some(i64::MAX)), "未知");
    assert_eq!(reset_time(None), "未知");
    assert_eq!(codex_gauge::presentation::timestamp(i64::MIN), "未知");
}

#[test]
fn each_window_shows_its_own_reset_time() {
    let five_at: i64 = 1_700_000_000;
    let seven_at: i64 = 1_700_400_000;
    let mut value = snapshot();
    value.primary_window_unlimited = false;
    value.primary_window = Some(UsageWindow {
        name: "5h".to_string(),
        used_percent: Some(10 * PERCENT_UNIT),
        remaining_percent: Some(90 * PERCENT_UNIT),
        reset_at: Some(five_at),
        window_duration_seconds: Some(18_000),
    });
    if let Some(w) = value.secondary_window.as_mut() {
        w.reset_at = Some(seven_at);
    }
    let local = |at: i64| {
        chrono::Local.timestamp_opt(at, 0).single().unwrap().format("%m-%d %H:%M").to_string()
    };
    let data = gauge_data(&value);
    assert_eq!(data.five_reset_text, local(five_at));
    assert_eq!(data.seven_reset_text, local(seven_at));
    assert_ne!(data.five_reset_text, data.seven_reset_text);
    assert_eq!(reset_time(Some(five_at)), local(five_at));
}
