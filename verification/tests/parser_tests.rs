use codex_gauge::codex::{
    build_app_server_snapshot_at, finish_refresh_at, has_usage, next_refresh_step, RefreshStep,
};
use codex_gauge::config::ProviderPreference;
use codex_gauge::decimal::PERCENT_UNIT;
use codex_gauge::json::JsonValue;
use codex_gauge::model::{
    CodexUsageSnapshot, SnapshotSource, SnapshotStatus, UsageCredits, UsageWindow,
};
use codex_gauge::parser::{parse_account_plan, parse_rate_limits};
use codex_gauge::rate_limits::{self, ReportCredits};

fn to_json(value: &serde_json::Value) -> JsonValue {
    match value {
        serde_json::Value::Null => JsonValue::Null,
        serde_json::Value::Bool(b) => JsonValue::Bool(*b),
        serde_json::Value::Number(n) => JsonValue::Number(n.to_string()),
        serde_json::Value::String(s) => JsonValue::Text(s.clone()),
        serde_json::Value::Array(items) => JsonValue::Array(items.iter().map(to_json).collect()),
        serde_json::Value::Object(map) => JsonValue::Object(
            map.iter().map(|(k, v)| (k.clone(), to_json(v))).collect(),
        ),
    }
}

fn parse(text: &str) -> JsonValue {
    to_json(&serde_json::from_str::<serde_json::Value>(text).unwrap())
}

#[test]
fn prefers_rate_limits_by_id() {
    let parsed = parse_rate_limits(&parse(
        r#"{
            "rateLimitsByLimitId": {
                "short": {"usedPercent": 42, "windowDurationMins": 300},
                "week": {"usedPercent": 17, "windowDurationMins": 10080}
            },
            "rateLimits": [{"usedPercent": 90, "windowDurationMins": 300}]
        }"#,
    ));
    assert_eq!(parsed.five_hour.unwrap().used_percent, Some(42 * PERCENT_UNIT));
    assert_eq!(parsed.weekly.unwrap().used_percent, Some(17 * PERCENT_UNIT));
}

#[test]
fn falls_back_to_rate_limits() {
    let parsed = parse_rate_limits(&parse(
        r#"{"rateLimits": [{"usedPercent": 10, "windowDurationMins": 300}]}"#,
    ));
    assert!(parsed.five_hour.is_some());
}

#[test]
fn parses_rate_limits_by_limit_id_first() {
    let parsed = rate_limits::parse_rate_limits(&parse(
        r#"{
            "result": {
                "rateLimitsByLimitId": {
                    "short": { "usedPercent": 42, "windowDurationMins": 300, "resetsAt": 1900000000 },
                    "week": { "usedPercent": 17, "windowDurationMins": 10080, "resetsAt": 1900000000 }
                },
                "rateLimits": [
                    { "usedPercent": 90, "windowDurationMins": 300, "resetsAt": 1900000000 }
                ],
                "rateLimitResetCredits": { "availableCount": 2 }
            }
        }"#,
    ));

    assert_eq!(parsed.five_hour.unwrap().used_percent, Some(42 * PERCENT_UNIT));
    assert_eq!(parsed.weekly.unwrap().used_percent, Some(17 * PERCENT_UNIT));
    assert_eq!(parsed.credits.unwrap().reset_credits, Some(2));
}

#[test]
fn parser_falls_back_to_rate_limits() {
    let parsed = rate_limits::parse_rate_limits(&parse(
        r#"{
            "rateLimits": [
                { "usedPercent": 10, "windowDurationMins": 300, "resetsAt": 1900000000 }
            ]
        }"#,
    ));
    assert!(parsed.five_hour.is_some());
    assert!(parsed.weekly.is_none());
}

#[test]
fn falls_back_when_rate_limits_by_id_has_no_windows() {
    let parsed = rate_limits::parse_rate_limits(&parse(
        r#"{
            "rateLimitsByLimitId": {
                "codex": {}
            },
            "rateLimits": {
                "primary": { "usedPercent": 12, "windowDurationMins": 300, "resetsAt": 1900000000 },
                "secondary": { "usedPercent": 27, "windowDurationMins": 10080, "resetsAt": 1900000000 }
            }
        }"#,
    ));
    assert_eq!(parsed.five_hour.unwrap().used_percent, Some(12 * PERCENT_UNIT));
    assert_eq!(parsed.weekly.unwrap().used_percent, Some(27 * PERCENT_UNIT));
}

#[test]
fn native_parser_skips_empty_limit_ids_too() {
    let parsed = parse_rate_limits(&parse(
        r#"{
            "rateLimitsByLimitId": { "codex": {} },
            "rateLimits": {
                "primary": { "usedPercent": 12, "windowDurationMins": 300 },
                "secondary": { "usedPercent": 27, "windowDurationMins": 10080 }
            }
        }"#,
    ));
    assert_eq!(parsed.five_hour.unwrap().used_percent, Some(12 * PERCENT_UNIT));
    assert_eq!(parsed.weekly.unwrap().used_percent, Some(27 * PERCENT_UNIT));
}

#[test]
fn report_windows_without_known_duration_are_other() {
    let parsed = rate_limits::parse_rate_limits(&parse(
        r#"{
            "rateLimits": [
                { "usedPercent": 130, "resetsAt": 1900000000 },
                { "usedPercent": 20, "windowDurationMins": 10080 }
            ],
            "credits": { "remaining": 4, "resetCredits": 3, "resetsAt": 1900000001 },
            "planType": "plus",
            "nested": { "rateLimitReachedType": "weekly" }
        }"#,
    ));
    assert!(parsed.five_hour.is_none());
    let weekly = parsed.weekly.unwrap();
    assert_eq!(weekly.used_percent, Some(20 * PERCENT_UNIT));
    assert_eq!(weekly.remaining_percent, Some(80 * PERCENT_UNIT));
    assert_eq!(weekly.window_duration_seconds, Some(604_800));
    assert_eq!(
        parsed.credits,
        Some(ReportCredits {
            remaining: Some(4),
            available_count: None,
            reset_credits: Some(3),
            reset_at: Some(1_900_000_001),
        })
    );
    assert_eq!(parsed.plan_type.as_deref(), Some("plus"));
    assert_eq!(parsed.rate_limit_reached_type, None);
}

#[test]
fn report_window_reads_partial_entries() {
    let window = rate_limits::parse_usage_window(&parse(r#"{ "usedPercent": 150 }"#)).unwrap();
    assert_eq!(window.name, "other");
    assert_eq!(window.used_percent, Some(100 * PERCENT_UNIT));
    assert_eq!(window.remaining_percent, Some(0));
    assert_eq!(window.window_duration_seconds, None);
    assert!(rate_limits::parse_usage_window(&parse(r#"{ "label": "5h" }"#)).is_none());
    let huge = rate_limits::parse_usage_window(&parse(
        r#"{ "windowDurationMins": 9223372036854775807 }"#,
    ))
    .unwrap();
    assert_eq!(huge.window_duration_seconds, None);
}

#[test]
fn account_plan_is_found_inside_result() {
    let plan = parse_account_plan(&parse(r#"{"result": {"account": {"plan_type": "team"}}}"#));
    assert_eq!(plan.as_deref(), Some("team"));
}

fn weekly(remaining: i64) -> UsageWindow {
    UsageWindow {
        name: "weekly".to_string(),
        used_percent: Some(100 * PERCENT_UNIT - remaining),
        remaining_percent: Some(remaining),
        reset_at: None,
        window_duration_seconds: Some(604_800),
    }
}

#[test]
fn successful_week_only_snapshot_marks_five_hour_unlimited() {
    let mut snapshot = CodexUsageSnapshot::empty(SnapshotSource::AppServer, SnapshotStatus::Success);
    snapshot.secondary_window = Some(UsageWindow {
        name: "weekly".to_string(),
        used_percent: Some(10 * PERCENT_UNIT),
        remaining_percent: Some(90 * PERCENT_UNIT),
        reset_at: None,
        window_duration_seconds: Some(604_800),
    });
    snapshot.normalize();
    assert!(snapshot.primary_window_unlimited);
}

#[test]
fn failed_snapshot_is_never_unlimited() {
    let mut snapshot = CodexUsageSnapshot::empty_at(
        SnapshotSource::AuthJson,
        SnapshotStatus::RequestFailed,
        0,
    );
    snapshot.secondary_window = Some(weekly(50 * PERCENT_UNIT));
    snapshot.normalize_at(77);
    assert!(!snapshot.primary_window_unlimited);
    assert_eq!(snapshot.updated_at, 77);
}

#[test]
fn app_server_snapshot_without_windows_failed() {
    let account = Some(parse(r#"{"result": {"planType": "plus"}}"#));
    let snapshot = build_app_server_snapshot_at(&account, &parse(r#"{"result": {}}"#), 9);
    assert_eq!(snapshot.status, SnapshotStatus::RequestFailed);
    assert_eq!(snapshot.plan_type.as_deref(), Some("plus"));
    assert!(!has_usage(&snapshot));
    let snapshot = build_app_server_snapshot_at(
        &None,
        &parse(r#"{"rateLimits": {"primary": {"usedPercent": 5, "windowDurationMins": 300}}}"#),
        9,
    );
    assert_eq!(snapshot.status, SnapshotStatus::Success);
    assert!(has_usage(&snapshot));
}

#[test]
fn refresh_reads_preferred_source_first_and_falls_back() {
    let usable = {
        let mut s = CodexUsageSnapshot::empty_at(SnapshotSource::AppServer, SnapshotStatus::Success, 0);
        s.secondary_window = Some(weekly(PERCENT_UNIT));
        s
    };
    let empty = CodexUsageSnapshot::empty_at(SnapshotSource::AuthJson, SnapshotStatus::NotLoggedIn, 0);
    assert_eq!(
        next_refresh_step(ProviderPreference::AppServer, &None, &None),
        RefreshStep::ReadAppServer
    );
    assert_eq!(
        next_refresh_step(ProviderPreference::AppServer, &Some(Some(usable.duplicate())), &None),
        RefreshStep::UseAppServer
    );
    assert_eq!(
        next_refresh_step(ProviderPreference::AppServer, &Some(None), &None),
        RefreshStep::ReadAuth
    );
    assert_eq!(
        next_refresh_step(ProviderPreference::AppServer, &Some(None), &Some(empty.duplicate())),
        RefreshStep::UseAuth
    );
    assert_eq!(
        next_refresh_step(ProviderPreference::Api, &None, &None),
        RefreshStep::ReadAuth
    );
    assert_eq!(
        next_refresh_step(ProviderPreference::Api, &None, &Some(empty.duplicate())),
        RefreshStep::ReadAppServer
    );
    assert_eq!(
        next_refresh_step(ProviderPreference::Api, &Some(Some(usable)), &Some(empty.duplicate())),
        RefreshStep::UseAppServer
    );
    assert_eq!(
        next_refresh_step(ProviderPreference::Api, &Some(None), &Some(empty)),
        RefreshStep::UseAuth
    );
}

#[test]
fn finishing_fills_missing_credits_only() {
    let credits = UsageCredits { reset_credits: None, available_count: Some(4), reset_at: None, items: Vec::new() };
    let snapshot = CodexUsageSnapshot::empty_at(SnapshotSource::AuthJson, SnapshotStatus::Success, 0);
    let done = finish_refresh_at(snapshot, Some(credits.duplicate()), 33);
    assert_eq!(done.credits.as_ref().unwrap().available_count, Some(4));
    assert_eq!(done.updated_at, 33);
    let mut with_own = CodexUsageSnapshot::empty_at(SnapshotSource::AuthJson, SnapshotStatus::Success, 0);
    with_own.credits = Some(UsageCredits { reset_credits: None, available_count: Some(1), reset_at: None, items: Vec::new() });
    let done = finish_refresh_at(with_own, Some(credits), 34);
    assert_eq!(done.credits.unwrap().available_count, Some(1));
}
