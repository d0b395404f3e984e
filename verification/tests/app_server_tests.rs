use codex_gauge::app_server::{
    codex_command_candidates, initialize_request, initialized_notification, judge_response,
    local_codex_paths, method_request, query_method_name, safe_error_kind, spawn_error,
    AppServerError, AppServerQuery, RequestIds, ResponseVerdict, SpawnFailure,
};
use codex_gauge::json::JsonValue;

fn to_serde(value: &JsonValue) -> serde_json::Value {
    match value {
        JsonValue::Null => serde_json::Value::Null,
        JsonValue::Bool(b) => serde_json::Value::Bool(*b),
        JsonValue::Number(n) => serde_json::from_str(n).unwrap(),
        JsonValue::Text(s) => serde_json::Value::String(s.clone()),
        JsonValue::Array(items) => serde_json::Value::Array(items.iter().map(to_serde).collect()),
        JsonValue::Object(entries) => serde_json::Value::Object(
            entries.iter().map(|(k, v)| (k.clone(), to_serde(v))).collect(),
        ),
    }
}

fn to_json(value: &serde_json::Value) -> JsonValue {
    match value {
        serde_json::Value::Null => JsonValue::Null,
        serde_json::Value::Bool(b) => JsonValue::Bool(*b),
        serde_json::Value::Number(n) => JsonValue::Number(n.to_string()),
        serde_json::Value::String(s) => JsonValue::Text(s.clone()),
        serde_json::Value::Array(items) => JsonValue::Array(items.iter().map(to_json).collect()),
        serde_json::Value::Object(map) => JsonValue::Object(
            map.iter().map(|(k, v)| (k.clone(), to_json(v))).collect(),
        ),
    }
}

#[test]
fn messages_are_json_rpc() {
    assert_eq!(
        to_serde(&method_request(7, "account/read")).to_string(),
        r#"{"id":7,"jsonrpc":"2.0","method":"account/read"}"#
    );
    assert_eq!(
        to_serde(&initialized_notification()).to_string(),
        r#"{"jsonrpc":"2.0","method":"initialized","params":{}}"#
    );
    assert_eq!(
        to_serde(&initialize_request(1, "0.2.0")).to_string(),
        r#"{"id":1,"jsonrpc":"2.0","method":"initialize","params":{"capabilities":{},"clientInfo":{"name":"codex-gauge","version":"0.2.0"},"protocolVersion":"2024-11-05"}}"#
    );
}

#[test]
fn answers_are_matched_by_id() {
    let answer = |text: &str| to_json(&serde_json::from_str(text).unwrap());
    assert_eq!(judge_response(&answer(r#"{"id": 2, "result": {}}"#), 2), ResponseVerdict::Accept);
    assert_eq!(judge_response(&answer(r#"{"id": 2, "error": null}"#), 2), ResponseVerdict::Failed);
    assert_eq!(judge_response(&answer(r#"{"id": 3, "result": {}}"#), 2), ResponseVerdict::Skip);
    assert_eq!(judge_response(&answer(r#"{"id": "2"}"#), 2), ResponseVerdict::Skip);
    assert_eq!(judge_response(&answer(r#"{"id": 2.0}"#), 2), ResponseVerdict::Skip);
    assert_eq!(judge_response(&answer(r#"{"method": "note"}"#), 2), ResponseVerdict::Skip);
    let mut ids = RequestIds::new();
    assert_eq!(ids.take(), 1);
    assert_eq!(ids.take(), 2);
}

#[test]
fn codex_commands_to_try() {
    let installed = vec!["C:/L/OpenAI/Codex/bin/codex.exe".to_string()];
    assert_eq!(
        codex_command_candidates("codex", &installed),
        vec!["C:/L/OpenAI/Codex/bin/codex.exe".to_string(), "codex".to_string()]
    );
    assert_eq!(codex_command_candidates("my-codex", &installed), vec!["my-codex".to_string()]);
    assert_eq!(
        local_codex_paths("C:/L"),
        vec![
            "C:/L/OpenAI/Codex/bin/codex.exe".to_string(),
            "C:/L/Packages/OpenAI.Codex_2p2nqsd0c76g0/LocalCache/Local/OpenAI/Codex/bin/codex.exe"
                .to_string()
        ]
    );
    assert_eq!(spawn_error(SpawnFailure::PermissionDenied), AppServerError::CommandNotFound);
    assert_eq!(spawn_error(SpawnFailure::Other), AppServerError::AppServer);
    assert_eq!(safe_error_kind(SpawnFailure::PermissionDenied), "permission_denied");
    assert_eq!(AppServerError::CommandNotFound.message(), "codex_not_found");
}

#[test]
fn refresh_queries_only_read() {
    assert_eq!(query_method_name(AppServerQuery::Account), "account/read");
    assert_eq!(query_method_name(AppServerQuery::RateLimits), "account/rateLimits/read");
    for query in [AppServerQuery::Account, AppServerQuery::RateLimits] {
        assert_ne!(query_method_name(query), "account/rateLimitResetCredit/consume");
    }
}
