//! The JSON-RPC exchange with the Codex app-server: the messages sent, how an answer is matched
//! to its request, and which commands are tried to start the server.
use vstd::prelude::*;

use crate::auth_json::joined_path;
use crate::auth_json::join_path;
use crate::decimal::{parse_u64_digits, unsigned_text_value};
use crate::json::{field, lemma_entry_from, text_field, JsonValue};
use crate::text::{nat_text, owned, same_text, u64_text};

verus! {

/// Why the app-server could not be used.
#[derive(Debug, Clone, Copy, PartialEq, Eq, Structural)]
pub enum AppServerError {
    CommandNotFound,
    AppServer,
}

impl AppServerError {
    /// The short code that reports this error.
    pub fn message(self) -> (res: &'static str)
        ensures
            res@ == match self {
                AppServerError::CommandNotFound => "codex_not_found"@,
                AppServerError::AppServer => "app_server_error"@,
            },
    {
        proof {
            reveal_strlit("codex_not_found");
            reveal_strlit("app_server_error");
        }
        match self {
            AppServerError::CommandNotFound => "codex_not_found",
            AppServerError::AppServer => "app_server_error",
        }
    }
}

/// How starting a process failed.
#[derive(Debug, Clone, Copy, PartialEq, Eq, Structural)]
pub enum SpawnFailure {
    NotFound,
    PermissionDenied,
    Other,
}

/// The app-server error that a failed start reports: a missing or forbidden command means Codex
/// was not found.
pub fn spawn_error(failure: SpawnFailure) -> (res: AppServerError)
    ensures
        res == match failure {
            SpawnFailure::NotFound | SpawnFailure::PermissionDenied => AppServerError::CommandNotFound,
            SpawnFailure::Other => AppServerError::AppServer,
        },
{
    match failure {
        SpawnFailure::NotFound | SpawnFailure::PermissionDenied => AppServerError::CommandNotFound,
        SpawnFailure::Other => AppServerError::AppServer,
    }
}

/// The code of a failed start.
pub open spec fn safe_error_kind_model(failure: SpawnFailure) -> Seq<char> {
    match failure {
        SpawnFailure::NotFound => "codex_not_found"@,
        SpawnFailure::PermissionDenied => "permission_denied"@,
        SpawnFailure::Other => "app_server_error"@,
    }
}

/// A code for a failed start that names no path or argument (see `safe_error_kind_model`).
pub fn safe_error_kind(failure: SpawnFailure) -> (res: &'static str)
    ensures
        res@ == safe_error_kind_model(failure),
{
    proof {
        reveal_strlit("codex_not_found");
        reveal_strlit("permission_denied");
        reveal_strlit("app_server_error");
    }
    match failure {
        SpawnFailure::NotFound => "codex_not_found",
        SpawnFailure::PermissionDenied => "permission_denied",
        SpawnFailure::Other => "app_server_error",
    }
}

/// The keys of an object, in order (empty for anything else).
pub open spec fn object_keys(v: JsonValue) -> Seq<Seq<char>> {
    match v {
        JsonValue::Object(entries) => entries@.map_values(|e: (String, JsonValue)| e.0@),
        _ => seq![],
    }
}

/// The text of a number stored under `key`.
pub open spec fn number_field(v: JsonValue, key: Seq<char>) -> Option<Seq<char>> {
    match field(v, key) {
        Some(JsonValue::Number(t)) => Some(t@),
        _ => None,
    }
}

/// An object of one text entry.
fn text_entry(key: &str, value: &str) -> (res: (String, JsonValue))
    ensures
        res.0@ == key@,
        res.1 matches JsonValue::Text(t) && t@ == value@,
{
    (owned(key), JsonValue::Text(owned(value)))
}

/// What a refresh asks the app-server for.
#[derive(Debug, Clone, Copy, PartialEq, Eq, Structural)]
pub enum AppServerQuery {
    /// The account, for its plan.
    Account,
    /// The rate limits.
    RateLimits,
}

/// The method of a query.
pub open spec fn query_method(query: AppServerQuery) -> Seq<char> {
    match query {
        AppServerQuery::Account => "account/read"@,
        AppServerQuery::RateLimits => "account/rateLimits/read"@,
    }
}

/// The method that would spend a reset credit; the gauge only reads.
pub open spec fn consume_method() -> Seq<char> {
    "account/rateLimitResetCredit/consume"@
}

/// The method of a query (see `query_method`).
pub fn query_method_name(query: AppServerQuery) -> (res: &'static str)
    ensures
        res@ == query_method(query),
{
    match query {
        AppServerQuery::Account => "account/read",
        AppServerQuery::RateLimits => "account/rateLimits/read",
    }
}

/// No query of a refresh spends a reset credit: every method asked for differs from the one
/// that consumes a credit.
pub proof fn lemma_queries_never_consume(query: AppServerQuery)
    ensures
        query_method(query) != consume_method(),
{
    reveal_strlit("account/read");
    reveal_strlit("account/rateLimits/read");
    reveal_strlit("account/rateLimitResetCredit/consume");
    match query {
        AppServerQuery::Account => {
            assert(query_method(query).len() != consume_method().len());
        },
        AppServerQuery::RateLimits => {
            assert(query_method(query).len() != consume_method().len());
        },
    }
}

/// The request `method` with the number `id`: `{"jsonrpc": "2.0", "id": id, "method": method}`.
pub fn method_request(id: u64, method: &str) -> (res: JsonValue)
    ensures
        object_keys(res) == seq!["jsonrpc"@, "id"@, "method"@],
        text_field(res, "jsonrpc"@) == Some("2.0"@),
        number_field(res, "id"@) == Some(nat_text(id as nat)),
        text_field(res, "method"@) == Some(method@),
{
    let mut entries: Vec<(String, JsonValue)> = Vec::new();
    entries.push(text_entry("jsonrpc", "2.0"));
    entries.push((owned("id"), JsonValue::Number(u64_text(id))));
    entries.push(text_entry("method", method));
    let ghost es = entries@;
    let res = JsonValue::Object(entries);
    proof {
        reveal_strlit("jsonrpc");
        reveal_strlit("id");
        reveal_strlit("method");
        assert(object_keys(res) =~= seq!["jsonrpc"@, "id"@, "method"@]);
        assert(es[0].0@ != "id"@ && es[0].0@ != "method"@ && es[1].0@ != "method"@) by {
            assert(es[0].0@.len() == 7 && es[1].0@.len() == 2);
        }
        lemma_entry_from(es, "jsonrpc"@, 0, 0);
        lemma_entry_from(es, "id"@, 0, 1);
        lemma_entry_from(es, "method"@, 0, 2);
    }
    res
}

/// The notification that ends the handshake: `{"jsonrpc": "2.0", "method": "initialized",
/// "params": {}}`.
pub fn initialized_notification() -> (res: JsonValue)
    ensures
        object_keys(res) == seq!["jsonrpc"@, "method"@, "params"@],
        text_field(res, "jsonrpc"@) == Some("2.0"@),
        text_field(res, "method"@) == Some("initialized"@),
        field(res, "params"@) matches Some(p) && object_keys(p) == Seq::<Seq<char>>::empty() && p
            is Object,
{
    let mut entries: Vec<(String, JsonValue)> = Vec::new();
    entries.push(text_entry("jsonrpc", "2.0"));
    entries.push(text_entry("method", "initialized"));
    entries.push((owned("params"), JsonValue::Object(Vec::new())));
    let ghost es = entries@;
    let res = JsonValue::Object(entries);
    proof {
        reveal_strlit("jsonrpc");
        reveal_strlit("method");
        reveal_strlit("params");
        assert(object_keys(res) =~= seq!["jsonrpc"@, "method"@, "params"@]);
        assert(es[0].0@ != "method"@ && es[0].0@ != "params"@ && es[1].0@ != "params"@) by {
            assert(es[0].0@.len() == 7 && es[1].0@.len() == 6 && "params"@.len() == 6);
            assert(es[1].0@[0] != "params"@[0]);
        }
        lemma_entry_from(es, "jsonrpc"@, 0, 0);
        lemma_entry_from(es, "method"@, 0, 1);
        lemma_entry_from(es, "params"@, 0, 2);
        assert(object_keys(es[2].1) =~= Seq::<Seq<char>>::empty());
    }
    res
}

/// The client description that the handshake sends.
pub open spec fn client_info_fits(info: JsonValue, version: Seq<char>) -> bool {
    &&& object_keys(info) == seq!["name"@, "version"@]
    &&& text_field(info, "name"@) == Some("codex-gauge"@)
    &&& text_field(info, "version"@) == Some(version)
}

/// The parameters of the handshake.
pub open spec fn initialize_params_fit(params: JsonValue, version: Seq<char>) -> bool {
    &&& object_keys(params) == seq!["clientInfo"@, "capabilities"@, "protocolVersion"@]
    &&& field(params, "clientInfo"@) matches Some(info) && client_info_fits(info, version)
    &&& field(params, "capabilities"@) matches Some(c) && c is Object && object_keys(c) == Seq::<
        Seq<char>,
    >::empty()
    &&& text_field(params, "protocolVersion"@) == Some("2024-11-05"@)
}

/// The handshake request with the number `id`, naming this client and its `version`.
pub fn initialize_request(id: u64, version: &str) -> (res: JsonValue)
    ensures
        object_keys(res) == seq!["jsonrpc"@, "id"@, "method"@, "params"@],
        text_field(res, "jsonrpc"@) == Some("2.0"@),
        number_field(res, "id"@) == Some(nat_text(id as nat)),
        text_field(res, "method"@) == Some("initialize"@),
        field(res, "params"@) matches Some(p) && initialize_params_fit(p, version@),
{
    let mut info: Vec<(String, JsonValue)> = Vec::new();
    info.push(text_entry("name", "codex-gauge"));
    info.push(text_entry("version", version));
    let ghost is = info@;
    let mut params: Vec<(String, JsonValue)> = Vec::new();
    params.push((owned("clientInfo"), JsonValue::Object(info)));
    params.push((owned("capabilities"), JsonValue::Object(Vec::new())));
    params.push(text_entry("protocolVersion", "2024-11-05"));
    let ghost ps = params@;
    let mut entries: Vec<(String, JsonValue)> = Vec::new();
    entries.push(text_entry("jsonrpc", "2.0"));
    entries.push((owned("id"), JsonValue::Number(u64_text(id))));
    entries.push(text_entry("method", "initialize"));
    entries.push((owned("params"), JsonValue::Object(params)));
    let ghost es = entries@;
    let res = JsonValue::Object(entries);
    proof {
        reveal_strlit("jsonrpc");
        reveal_strlit("id");
        reveal_strlit("method");
        reveal_strlit("params");
        reveal_strlit("name");
        reveal_strlit("version");
        reveal_strlit("clientInfo");
        reveal_strlit("capabilities");
        reveal_strlit("protocolVersion");
        assert(object_keys(res) =~= seq!["jsonrpc"@, "id"@, "method"@, "params"@]);
        assert(es[0].0@ != "id"@ && es[0].0@ != "method"@ && es[1].0@ != "method"@) by {
            assert(es[0].0@.len() == 7 && es[1].0@.len() == 2);
        }
        assert(es[0].0@ != "params"@ && es[1].0@ != "params"@ && es[2].0@ != "params"@) by {
            assert(es[0].0@.len() == 7 && es[1].0@.len() == 2 && "params"@.len() == 6);
            assert(es[2].0@[0] != "params"@[0]);
        }
        assert(ps[0].0@ != "capabilities"@ && ps[0].0@ != "protocolVersion"@ && ps[1].0@
            != "protocolVersion"@) by {
            assert(ps[0].0@.len() == 10 && ps[1].0@.len() == 12);
        }
        assert(is[0].0@ != "version"@) by {
            assert(is[0].0@.len() == 4);
        }
        lemma_entry_from(es, "jsonrpc"@, 0, 0);
        lemma_entry_from(es, "id"@, 0, 1);
        lemma_entry_from(es, "method"@, 0, 2);
        lemma_entry_from(es, "params"@, 0, 3);
        let p = es[3].1;
        assert(object_keys(p) =~= seq!["clientInfo"@, "capabilities"@, "protocolVersion"@]);
        lemma_entry_from(ps, "clientInfo"@, 0, 0);
        lemma_entry_from(ps, "capabilities"@, 0, 1);
        lemma_entry_from(ps, "protocolVersion"@, 0, 2);
        let i = ps[0].1;
        assert(object_keys(i) =~= seq!["name"@, "version"@]);
        lemma_entry_from(is, "name"@, 0, 0);
        lemma_entry_from(is, "version"@, 0, 1);
        assert(object_keys(ps[1].1) =~= Seq::<Seq<char>>::empty());
    }
    res
}

/// A number that `Value::as_u64` reads.
pub open spec fn json_u64(v: JsonValue) -> Option<nat> {
    match v {
        JsonValue::Number(t) => unsigned_text_value(t@),
        _ => None,
    }
}

/// What a message from the app-server means to the request `id`.
#[derive(Debug, Clone, Copy, PartialEq, Eq, Structural)]
pub enum ResponseVerdict {
    /// Not the answer to this request: wait for the next message.
    Skip,
    /// The answer, and it reports an error.
    Failed,
    /// The answer.
    Accept,
}

/// A message answers `id` when its `id` is that number; an answer with an `error` entry failed.
pub open spec fn response_verdict(message: JsonValue, id: u64) -> ResponseVerdict {
    match field(message, "id"@) {
        Some(x) if json_u64(x) == Some(id as nat) => if field(message, "error"@).is_some() {
            ResponseVerdict::Failed
        } else {
            ResponseVerdict::Accept
        },
        _ => ResponseVerdict::Skip,
    }
}

/// Judges one message from the app-server for the request `id` (see `response_verdict`).
pub fn judge_response(message: &JsonValue, id: u64) -> (res: ResponseVerdict)
    ensures
        res == response_verdict(*message, id),
{
    let matches_id = match message.get("id") {
        Some(JsonValue::Number(t)) => match parse_u64_digits(t.as_str()) {
            Some(n) => n == id,
            None => false,
        },
        _ => false,
    };
    if !matches_id {
        return ResponseVerdict::Skip;
    }
    if message.get("error").is_some() {
        ResponseVerdict::Failed
    } else {
        ResponseVerdict::Accept
    }
}

/// The numbers given to requests, counting up from one.
pub struct RequestIds {
    pub next: u64,
}

impl RequestIds {
    /// Numbering that starts at one.
    pub fn new() -> (res: RequestIds)
        ensures
            res.next == 1,
    {
        RequestIds { next: 1 }
    }

    /// Hands out the next number.
    pub fn take(&mut self) -> (res: u64)
        requires
            old(self).next < u64::MAX,
        ensures
            res == old(self).next,
            final(self).next == old(self).next + 1,
    {
        let id = self.next;
        self.next = self.next + 1;
        id
    }
}

/// Where the Codex desktop app installs its command under the local application data folder.
pub open spec fn local_codex_paths_model(local_app_data: Seq<char>) -> Seq<Seq<char>> {
    seq![
        joined_path(local_app_data, "OpenAI/Codex/bin/codex.exe"@),
        joined_path(
            local_app_data,
            "Packages/OpenAI.Codex_2p2nqsd0c76g0/LocalCache/Local/OpenAI/Codex/bin/codex.exe"@,
        ),
    ]
}

/// The places under `local_app_data` where Codex may be installed.
pub fn local_codex_paths(local_app_data: &str) -> (res: Vec<String>)
    ensures
        res@.map_values(|p: String| p@) == local_codex_paths_model(local_app_data@),
{
    let mut paths: Vec<String> = Vec::new();
    paths.push(join_path(local_app_data, "OpenAI/Codex/bin/codex.exe"));
    paths.push(
        join_path(
            local_app_data,
            "Packages/OpenAI.Codex_2p2nqsd0c76g0/LocalCache/Local/OpenAI/Codex/bin/codex.exe",
        ),
    );
    assert(paths@.map_values(|p: String| p@) =~= local_codex_paths_model(local_app_data@));
    paths
}

/// Whether a command is the plain Codex command, which is looked for in the install places
/// first.
pub open spec fn plain_codex(command: Seq<char>) -> bool {
    command == "codex"@ || command == "codex.exe"@
}

/// The commands to try, in order: a configured command alone; for the plain Codex command, the
/// installed copies that exist (`installed`), then the command itself.
pub fn codex_command_candidates(command: &str, installed: &Vec<String>) -> (res: Vec<String>)
    ensures
        res@.map_values(|p: String| p@) == if plain_codex(command@) {
            installed@.map_values(|p: String| p@).push(command@)
        } else {
            seq![command@]
        },
{
    let mut candidates: Vec<String> = Vec::new();
    if !same_text(command, "codex") && !same_text(command, "codex.exe") {
        candidates.push(owned(command));
        assert(candidates@.map_values(|p: String| p@) =~= seq![command@]);
        return candidates;
    }
    let n = installed.len();
    let mut i: usize = 0;
    while i < n
        invariant
            n == installed@.len(),
            i <= n,
            candidates@.map_values(|p: String| p@) =~= installed@.subrange(0, i as int).map_values(
                |p: String| p@,
            ),
        decreases n - i,
    {
        let ghost before = candidates@;
        candidates.push(owned(installed[i].as_str()));
        assert(candidates@.map_values(|p: String| p@) =~= before.map_values(|p: String| p@).push(
            installed@[i as int]@,
        ));
        assert(installed@.subrange(0, i + 1).map_values(|p: String| p@) =~= installed@.subrange(
            0,
            i as int,
        ).map_values(|p: String| p@).push(installed@[i as int]@));
        i = i + 1;
    }
    candidates.push(owned(command));
    assert(installed@.subrange(0, n as int) =~= installed@);
    assert(candidates@.map_values(|p: String| p@) =~= installed@.map_values(|p: String| p@).push(
        command@,
    ));
    candidates
}

} // verus!
