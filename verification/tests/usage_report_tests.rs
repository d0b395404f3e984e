use codex_gauge::auth_json::{AuthJsonError, HttpReply};
use codex_gauge::decimal::PERCENT_UNIT;
use codex_gauge::json::JsonValue;
use codex_gauge::model::SnapshotStatus;
use codex_gauge::usage_report::{
    parse_reset_credits, parse_wham_usage, parse_wham_window,
    read_auth_json_credits, read_auth_json_snapshot,
};

fn to_json(value: &serde_json::Value) -> JsonValue {
    match value {
        serde_json::Value::Null => JsonValue::Null,
        serde_json::Value::Bool(b) => JsonValue::Bool(*b),
        serde_json::Value::Number(n) => JsonValue::Number(n.to_string()),
        serde_json::Value::String(s) => JsonValue::Text(s.clone()),
        serde_json::Value::Array(items) => JsonValue::Array(items.iter().map(to_json).collect()),
        serde_json::Value::Object(map) => JsonValue::Object(
            map.iter().map(|(k, v)| (k.clone(), to_json(v))).collect(),
        ),
    }
}

fn parse(text: &str) -> JsonValue {
    to_json(&serde_json::from_str::<serde_json::Value>(text).unwrap())
}

fn login() -> Option<JsonValue> {
    Some(parse(r#"{"tokens": {"access_token": "secret", "account_id": "acc_1"}, "plan": "plus"}"#))
}

#[test]
fn parses_wham_windows_and_credits() {
    let report = parse_wham_usage(&parse(
        r#"{
            "usage": [
                {
                    "limit_window_seconds": 18000,
                    "used_percent": 28,
                    "reset_at": 1900000000
                },
                {
                    "limit_window_seconds": 604800,
                    "remaining_percent": 88,
                    "reset_at": 1900000000
                }
            ],
            "available_count": 2,
            "credits": [
                {
                    "id": "credit_unique_id_not_returned",
                    "status": "available",
                    "title": "Full reset (Weekly + 5 hr)",
                    "granted_at": "2026-07-03T00:00:00Z",
                    "expires_at": 1900000000
                }
            ],
            "planType": "Pro",
            "rateLimitReachedType": null
        }"#,
    ));

    assert_eq!(report.five_hour.unwrap().remaining_percent, Some(72 * PERCENT_UNIT));
    let secondary = report.weekly.as_ref().unwrap();
    assert_eq!(secondary.remaining_percent, Some(88 * PERCENT_UNIT));
    assert_eq!(secondary.used_percent, Some(12 * PERCENT_UNIT));
    let credits = report.credits.unwrap();
    assert_eq!(credits.available_count, Some(2));
    assert_eq!(credits.items.len(), 1);
    assert_eq!(credits.items[0].status.as_deref(), Some("available"));
    assert_eq!(credits.items[0].title.as_deref(), Some("Full reset (Weekly + 5 hr)"));
    assert!(credits.items[0].granted_at.is_some());
    assert!(credits.items[0].expires_at.is_some());
}

#[test]
fn report_windows_accept_more_spellings() {
    let window = parse_wham_window(&parse(
        r#"{"window_duration_seconds": 604800, "usage_percent": 0.25, "resets_at": 1900000000123}"#,
    ))
    .unwrap();
    assert_eq!(window.name, "weekly");
    assert_eq!(window.used_percent, Some(25 * PERCENT_UNIT));
    assert_eq!(window.remaining_percent, Some(75 * PERCENT_UNIT));
    assert_eq!(window.reset_at, Some(1_900_000_000));
    let remaining = parse_wham_window(&parse(
        r#"{"limitWindowSeconds": 18000, "remaining_percentage": 30}"#,
    ))
    .unwrap();
    assert_eq!(remaining.used_percent, Some(70 * PERCENT_UNIT));
    assert!(parse_wham_window(&parse(r#"{"limit_window_seconds": 3600}"#)).is_none());
}

#[test]
fn report_credits_carry_every_count() {
    let credits = parse_reset_credits(&parse(
        r#"{"result": {"rateLimitResetCredits": {
            "remainingCount": 1,
            "reset_credits": 4,
            "resets_at": 1900000000,
            "rateLimitResetCredits": [
                {"state": "used", "createdAt": 1800000000000, "expirationAt": "soon"}
            ]
        }}}"#,
    ))
    .unwrap();
    assert_eq!(credits.remaining, Some(1));
    assert_eq!(credits.available_count, None);
    assert_eq!(credits.reset_credits, Some(4));
    assert_eq!(credits.reset_at, Some(1_900_000_000));
    assert_eq!(credits.items.len(), 1);
    assert_eq!(credits.items[0].status.as_deref(), Some("used"));
    assert!(credits.items[0].granted_at.is_some());
    assert!(credits.items[0].expires_at.is_none());

    assert!(parse_reset_credits(&parse(r#"{"credits": [{"id": "x"}]}"#)).is_none());
    let counted = parse_reset_credits(&parse(r#"{"availableCount": "3"}"#)).unwrap();
    assert_eq!(counted.available_count, Some(3));
    assert_eq!(counted.reset_credits, Some(3));
}

#[test]
fn report_reading_follows_the_replies() {
    let usage = HttpReply::Answered {
        status: 200,
        body: Some(parse(r#"{"usage": [{"limit_window_seconds": 18000, "used_percent": 40}], "available": 1}"#)),
    };
    let credits = HttpReply::Answered { status: 200, body: Some(parse(r#"{"availableCount": 5}"#)) };
    let (status, report) = read_auth_json_snapshot(&login(), &usage, &credits).unwrap();
    assert_eq!(status, SnapshotStatus::Success);
    assert_eq!(report.five_hour.unwrap().used_percent, Some(40 * PERCENT_UNIT));
    assert_eq!(report.plan_type.as_deref(), Some("plus"));
    assert_eq!(report.credits.unwrap().reset_credits, Some(5));

    let (status, report) =
        read_auth_json_snapshot(&login(), &usage, &HttpReply::Unreachable).unwrap();
    assert_eq!(status, SnapshotStatus::Success);
    assert_eq!(report.credits.unwrap().available_count, Some(1));

    let (status, report) =
        read_auth_json_snapshot(&login(), &HttpReply::Unreachable, &credits).unwrap();
    assert_eq!(status, SnapshotStatus::RequestFailed);
    assert!(report.five_hour.is_none());
    assert_eq!(report.plan_type.as_deref(), Some("plus"));
    assert_eq!(report.credits.unwrap().available_count, Some(5));

    let refused = HttpReply::Answered { status: 403, body: None };
    assert_eq!(
        read_auth_json_snapshot(&login(), &usage, &refused).err(),
        Some(AuthJsonError::InvalidAuth)
    );
    assert_eq!(
        read_auth_json_snapshot(&None, &usage, &credits).err(),
        Some(AuthJsonError::NotLoggedIn)
    );
}

#[test]
fn report_credits_need_a_usable_login_and_reply() {
    let credits = HttpReply::Answered { status: 200, body: Some(parse(r#"{"remaining": 2}"#)) };
    let read = read_auth_json_credits(&login(), &credits).unwrap().unwrap();
    assert_eq!(read.remaining, Some(2));
    assert!(read_auth_json_credits(&login(), &HttpReply::Answered { status: 200, body: Some(parse("{}")) })
        .unwrap()
        .is_none());
    assert_eq!(
        read_auth_json_credits(&login(), &HttpReply::Answered { status: 500, body: None }).err(),
        Some(AuthJsonError::RequestFailed)
    );
    assert_eq!(
        read_auth_json_credits(&Some(parse(r#"{"tokens": {}}"#)), &credits).err(),
        Some(AuthJsonError::NotLoggedIn)
    );
}

#[test]
fn report_credits_fill_a_snapshot() {
    let credits = parse_reset_credits(&parse(r#"{"resetCredits": 2, "resetAt": 1900000000}"#))
        .unwrap()
        .into_usage_credits();
    assert_eq!(credits.available_count, None);
    assert_eq!(credits.reset_credits, Some(2));
    assert_eq!(credits.reset_at, Some(1_900_000_000));
}
