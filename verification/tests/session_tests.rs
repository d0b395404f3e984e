use codex_gauge::json::JsonValue;
use codex_gauge::session::{
    normalize_totals, parse_token_count_delta, read_file_usage, summarize_daily, token_count_delta,
    DailyTokens, UsageTotals,
};

fn to_json(value: &serde_json::Value) -> JsonValue {
    match value {
        serde_json::Value::Null => JsonValue::Null,
        serde_json::Value::Bool(b) => JsonValue::Bool(*b),
        serde_json::Value::Number(n) => JsonValue::Number(n.to_string()),
        serde_json::Value::String(s) => JsonValue::Text(s.clone()),
        serde_json::Value::Array(items) => JsonValue::Array(items.iter().map(to_json).collect()),
        serde_json::Value::Object(map) => JsonValue::Object(
            map.iter().map(|(k, v)| (k.clone(), to_json(v))).collect(),
        ),
    }
}

fn parse(text: &str) -> JsonValue {
    to_json(&serde_json::from_str::<serde_json::Value>(text).unwrap())
}

#[test]
fn parses_nested_token_count_delta() {
    let value = parse(
        r#"{
            "timestamp": "2026-07-02T01:02:03Z",
            "type": "event_msg",
            "payload": {
                "msg": {
                    "type": "token_count",
                    "info": {
                        "last_token_usage": {
                            "input_tokens": 100,
                            "cached_input_tokens": 20,
                            "output_tokens": 30
                        }
                    }
                }
            }
        }"#,
    );

    let (_, usage) = parse_token_count_delta(&value, None).expect("token count");

    assert_eq!(usage.total_tokens, 130);
}

fn event(total: i64, last: i64) -> JsonValue {
    parse(&format!(
        r#"{{"timestamp": "2026-07-02T01:02:03Z", "type": "event_msg",
            "payload": {{"type": "token_count", "info": {{
                "total_token_usage": {{"input_tokens": {total}, "total_tokens": {total}}},
                "last_token_usage": {{"input_tokens": {last}, "total_tokens": {last}}}}}}}}}"#
    ))
}

#[test]
fn cumulative_counts_give_the_growth() {
    let previous = UsageTotals {
        input_tokens: 100,
        cached_input_tokens: 0,
        cache_creation_input_tokens: 0,
        output_tokens: 0,
        reasoning_output_tokens: 0,
        total_tokens: 100,
    };
    let delta = token_count_delta(&event(150, 7), Some(previous)).unwrap();
    assert_eq!(delta.input_tokens, 50);
    assert_eq!(delta.total_tokens, 50);
    let shrunk = token_count_delta(&event(40, 7), Some(previous)).unwrap();
    assert_eq!(shrunk.total_tokens, 7);
    assert!(token_count_delta(&parse(r#"{"type": "other", "payload": {}}"#), None).is_none());
    let no_time = parse(r#"{"type": "event_msg", "payload": {"type": "token_count", "info": {"last_token_usage": {"output_tokens": 3}}}}"#);
    assert_eq!(token_count_delta(&no_time, None).unwrap().total_tokens, 3);
    assert!(parse_token_count_delta(&no_time, None).is_none());
}

#[test]
fn cached_input_is_counted_once() {
    let raw = UsageTotals {
        input_tokens: 10,
        cached_input_tokens: 25,
        cache_creation_input_tokens: 1,
        output_tokens: 2,
        reasoning_output_tokens: 3,
        total_tokens: 999,
    };
    let n = normalize_totals(raw);
    assert_eq!(n.input_tokens, 0);
    assert_eq!(n.total_tokens, 31);
}

#[test]
fn a_file_adds_its_positive_deltas() {
    let values = vec![event(100, 100), event(160, 60), event(160, 0), parse("{}")];
    let mut daily = DailyTokens::new();
    read_file_usage(&values, &mut daily);
    let total: i64 = daily.days.iter().map(|(_, t)| *t).sum();
    assert_eq!(total, 160);
    let day = daily.days[0].0;
    let summary = summarize_daily(&daily, day, day - 3).unwrap();
    assert_eq!(summary.today_tokens, Some(160));
    assert_eq!(summary.week_tokens, Some(160));
    assert_eq!(summary.lifetime_tokens, Some(160));
    assert_eq!(summary.peak_daily_tokens, Some(160));
}

#[test]
fn daily_summary_counts_this_week_only() {
    let mut daily = DailyTokens::new();
    daily.add(10, 5);
    daily.add(20, 7);
    daily.add(10, 1);
    daily.add(3, 9);
    let summary = summarize_daily(&daily, 20, 14).unwrap();
    assert_eq!(summary.today_tokens, Some(7));
    assert_eq!(summary.week_tokens, Some(7));
    assert_eq!(summary.lifetime_tokens, Some(22));
    assert_eq!(summary.peak_daily_tokens, Some(9));
    let summary = summarize_daily(&daily, 30, 25).unwrap();
    assert_eq!(summary.today_tokens, None);
    assert_eq!(summary.week_tokens, None);
    assert!(summarize_daily(&DailyTokens::new(), 1, 0).is_none());
}

#[test]
fn token_count_day_is_the_local_day_of_its_timestamp() {
    let (day, _) = parse_token_count_delta(&event(150, 7), None).expect("token count");
    let local = chrono::DateTime::parse_from_rfc3339("2026-07-02T01:02:03Z")
        .unwrap()
        .with_timezone(&chrono::Local)
        .date_naive();
    assert_eq!(day, chrono::Datelike::num_days_from_ce(&local));
    let utc_day = chrono::NaiveDate::from_ymd_opt(2026, 7, 2).unwrap();
    assert!((day - chrono::Datelike::num_days_from_ce(&utc_day)).abs() <= 1);
}
