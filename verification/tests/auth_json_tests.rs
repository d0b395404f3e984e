use std::path::PathBuf;

use codex_gauge::auth_json::{
    parse_auth_json, parse_reset_credits, parse_wham_usage, prepare_request, read_credits,
    read_snapshot_at, resolve_auth_path_from, AuthJsonError, HttpReply,
};
use codex_gauge::decimal::PERCENT_UNIT;
use codex_gauge::json::JsonValue;
use codex_gauge::model::{SnapshotSource, SnapshotStatus};

fn to_json(value: &serde_json::Value) -> JsonValue {
    match value {
        serde_json::Value::Null => JsonValue::Null,
        serde_json::Value::Bool(b) => JsonValue::Bool(*b),
        serde_json::Value::Number(n) => JsonValue::Number(n.to_string()),
        serde_json::Value::String(s) => JsonValue::Text(s.clone()),
        serde_json::Value::Array(items) => JsonValue::Array(items.iter().map(to_json).collect()),
        serde_json::Value::Object(map) => JsonValue::Object(
            map.iter().map(|(k, v)| (k.clone(), to_json(v))).collect(),
        ),
    }
}

fn parse(text: &str) -> JsonValue {
    to_json(&serde_json::from_str::<serde_json::Value>(text).unwrap())
}

#[test]
fn codex_home_has_priority() {
    let path = resolve_auth_path_from(
        Some("X:/CodexHome".to_string()),
        Some("X:/Users/me".to_string()),
    );
    assert_eq!(PathBuf::from(path), PathBuf::from("X:/CodexHome/auth.json"));
}

#[test]
fn resolves_codex_home_first() {
    let path = resolve_auth_path_from(
        Some("X:/CodexHome".to_string()),
        Some("X:/Users/me".to_string()),
    );
    assert_eq!(PathBuf::from(path), PathBuf::from("X:/CodexHome").join("auth.json"));
}

#[test]
fn resolves_default_codex_auth_path() {
    let path = resolve_auth_path_from(None, Some("X:/Users/me".to_string()));
    assert_eq!(
        PathBuf::from(path),
        PathBuf::from("X:/Users/me").join(".codex").join("auth.json")
    );
}

#[test]
fn auth_path_without_any_home_is_relative() {
    assert_eq!(resolve_auth_path_from(None, None), "./.codex/auth.json");
    assert_eq!(
        resolve_auth_path_from(Some("C:\\Codex\\".to_string()), None),
        "C:\\Codex\\auth.json"
    );
}

#[test]
fn parses_windows_and_reset_credits() {
    let value = parse(
        r#"{
            "rate_limits": {
                "primary": {"limit_window_seconds": 18000, "used_percent": 25},
                "secondary": {"limit_window_seconds": 604800, "used_percent": 70}
            },
            "available_count": 2
        }"#,
    );
    let snapshot = parse_wham_usage(&value);
    assert_eq!(
        snapshot.primary_window.unwrap().remaining_percent,
        Some(75 * PERCENT_UNIT)
    );
    assert_eq!(
        snapshot.secondary_window.unwrap().remaining_percent,
        Some(30 * PERCENT_UNIT)
    );
    assert_eq!(snapshot.credits.unwrap().available_count, Some(2));
}

#[test]
fn errors_never_include_credentials() {
    for error in [
        AuthJsonError::NotLoggedIn,
        AuthJsonError::InvalidAuth,
        AuthJsonError::RequestFailed,
    ] {
        let text = format!("{error:?}");
        assert!(!text.contains("access_token"));
        assert!(!text.contains("Authorization"));
    }
}

#[test]
fn redacted_errors_do_not_include_sensitive_names() {
    for error in [
        AuthJsonError::NotLoggedIn,
        AuthJsonError::InvalidAuth,
        AuthJsonError::RequestFailed,
    ] {
        let text = error.message().to_string();
        assert!(!text.contains("access_token"));
        assert!(!text.contains("refresh_token"));
        assert!(!text.contains("Authorization"));
    }
}

#[test]
fn parses_auth_json_without_exposing_refresh_token() {
    let auth = parse_auth_json(&parse(
        r#"{
            "tokens": {
                "access_token": "access-token-value",
                "refresh_token": "refresh-token-value"
            },
            "account_id": "acc_123",
            "planType": "Pro"
        }"#,
    ))
    .expect("auth parsed");

    assert_eq!(auth.access_token, "access-token-value");
    assert_eq!(auth.account_id.as_deref(), Some("acc_123"));
    assert_eq!(auth.plan_type.as_deref(), Some("Pro"));
}

#[test]
fn missing_token_is_not_logged_in() {
    let error = parse_auth_json(&parse(r#"{"refresh_token":"secret"}"#))
        .err()
        .unwrap();
    assert_eq!(error, AuthJsonError::NotLoggedIn);
}

#[test]
fn blank_token_is_not_logged_in() {
    let error = parse_auth_json(&parse(r#"{"access_token":"  \t "}"#))
        .err()
        .unwrap();
    assert_eq!(error, AuthJsonError::NotLoggedIn);
}

#[test]
fn fractions_are_read_as_percentages_and_clamped() {
    let snapshot = parse_wham_usage(&parse(
        r#"{"a": {"limitWindowSeconds": 18000, "usedPercent": 0.25},
            "b": {"windowDurationSeconds": 604800, "usedPercent": "130"}}"#,
    ));
    let five = snapshot.primary_window.unwrap();
    assert_eq!(five.used_percent, Some(25 * PERCENT_UNIT));
    assert_eq!(five.remaining_percent, Some(75 * PERCENT_UNIT));
    let week = snapshot.secondary_window.unwrap();
    assert_eq!(week.used_percent, Some(100 * PERCENT_UNIT));
    assert_eq!(week.remaining_percent, Some(0));
}

#[test]
fn millisecond_reset_times_become_seconds() {
    let snapshot = parse_wham_usage(&parse(
        r#"{"w": {"limit_window_seconds": 18000, "resetAt": 1900000000123}}"#,
    ));
    assert_eq!(snapshot.primary_window.unwrap().reset_at, Some(1900000000));
}

#[test]
fn credits_document_without_anything_is_none() {
    assert!(parse_reset_credits(&parse(r#"{"result": {"other": 1}}"#)).is_none());
    let credits = parse_reset_credits(&parse(
        r#"{"result": {"rateLimitResetCredits": {"availableCount": 3, "items": [{"state": "used"}]},
            "data": [{"name": "x"}]}}"#,
    ))
    .unwrap();
    assert_eq!(credits.available_count, Some(3));
    assert_eq!(credits.items.len(), 2);
    assert_eq!(credits.items[0].title.as_deref(), Some("x"));
    assert_eq!(credits.items[1].status.as_deref(), Some("used"));
}

#[test]
fn request_headers_carry_token_and_account() {
    let doc = Some(parse(r#"{"access_token": "abc", "account_id": "acc"}"#));
    let (auth, headers) = prepare_request(&doc).ok().unwrap();
    assert_eq!(auth.access_token, "abc");
    assert_eq!(headers[0], ("authorization".to_string(), "Bearer abc".to_string()));
    assert_eq!(headers[3], ("ChatGPT-Account-ID".to_string(), "acc".to_string()));
    let bad = Some(parse(r#"{"access_token": "a\nb"}"#));
    assert_eq!(prepare_request(&bad).err(), Some(AuthJsonError::InvalidAuth));
    assert_eq!(prepare_request(&None).err(), Some(AuthJsonError::NotLoggedIn));
}

#[test]
fn refused_login_in_either_reply_refuses_the_snapshot() {
    let doc = Some(parse(r#"{"access_token": "abc", "plan": "plus"}"#));
    let ok = HttpReply::Answered { status: 200, body: Some(parse(r#"{"planType": "pro"}"#)) };
    let refused = HttpReply::Answered { status: 401, body: None };
    assert_eq!(
        read_snapshot_at(&doc, &ok, &refused, 5).err(),
        Some(AuthJsonError::InvalidAuth)
    );
    let failed = read_snapshot_at(&doc, &HttpReply::Unreachable, &HttpReply::Unreachable, 5)
        .ok()
        .unwrap();
    assert_eq!(failed.status, SnapshotStatus::RequestFailed);
    assert_eq!(failed.source, SnapshotSource::AuthJson);
    assert_eq!(failed.plan_type.as_deref(), Some("plus"));
    assert_eq!(failed.updated_at, 5);
    let good = read_snapshot_at(&doc, &ok, &HttpReply::Unreachable, 5).ok().unwrap();
    assert_eq!(good.status, SnapshotStatus::Success);
    assert_eq!(good.plan_type.as_deref(), Some("pro"));
}

#[test]
fn credits_reply_errors_are_reported() {
    let doc = Some(parse(r#"{"access_token": "abc"}"#));
    let server_error = HttpReply::Answered { status: 500, body: None };
    assert_eq!(
        read_credits(&doc, &server_error).err(),
        Some(AuthJsonError::RequestFailed)
    );
    let forbidden = HttpReply::Answered { status: 403, body: None };
    assert_eq!(read_credits(&doc, &forbidden).err(), Some(AuthJsonError::InvalidAuth));
    let fine = HttpReply::Answered {
        status: 200,
        body: Some(parse(r#"{"available_count": 1}"#)),
    };
    assert_eq!(
        read_credits(&doc, &fine).ok().unwrap().unwrap().available_count,
        Some(1)
    );
}
