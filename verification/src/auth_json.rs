//! The usage service reached with the local Codex login (`auth.json`): where the login file lies,
//! what is read from it, the request headers, and how the service's answers are read.
use vstd::prelude::*;

use crate::clock::{
    clock_pattern, instant_text_fits, rfc3339_accepts, rfc3339_local_text, rfc3339_seconds,
    timestamp_local_text, utc_timestamp_exists,
};
use crate::decimal::{int_text_value, FULL_PERCENT};
use crate::json::{
    child, child_count, decimal_or_text_of, field, field_or_self, find_text, first_field,
    integer_or_text_of, key_seq, lemma_child_decreases, text_of, JsonValue,
};
use crate::model::{
    copy_opt_text, empty_model, opt_credits, opt_text, opt_window, CodexUsageSnapshot, CreditItemModel,
    CreditsModel, ResetCreditItem, SnapshotModel, SnapshotSource, SnapshotStatus, UsageCredits,
    UsageWindow, WindowModel,
};
use crate::parser::{first_named, window_models};
use crate::percent::{complement, lemma_normalized_range, normalize_percent, normalized};
use crate::text::{blank, contains_seq, is_blank, join2, join3, occurs_at, owned};

verus! {

/// Why the login or the usage service could not be used.
#[derive(Debug, Clone, Copy, PartialEq, Eq, Structural)]
pub enum AuthJsonError {
    NotLoggedIn,
    InvalidAuth,
    RequestFailed,
}

impl AuthJsonError {
    /// The snapshot status that reports this error.
    pub fn status(self) -> (res: SnapshotStatus)
        ensures
            res == match self {
                AuthJsonError::NotLoggedIn => SnapshotStatus::NotLoggedIn,
                AuthJsonError::InvalidAuth => SnapshotStatus::InvalidAuth,
                AuthJsonError::RequestFailed => SnapshotStatus::RequestFailed,
            },
    {
        match self {
            AuthJsonError::NotLoggedIn => SnapshotStatus::NotLoggedIn,
            AuthJsonError::InvalidAuth => SnapshotStatus::InvalidAuth,
            AuthJsonError::RequestFailed => SnapshotStatus::RequestFailed,
        }
    }

    /// A short name of the error (what `{:?}` prints), which never holds credentials.
    pub fn name(self) -> (res: &'static str)
        ensures
            res@ == error_name(self),
    {
        match self {
            AuthJsonError::NotLoggedIn => "NotLoggedIn",
            AuthJsonError::InvalidAuth => "InvalidAuth",
            AuthJsonError::RequestFailed => "RequestFailed",
        }
    }

    /// The message shown for the error, which names no credential.
    pub fn message(self) -> (res: &'static str)
        ensures
            res@ == error_message(self),
    {
        match self {
            AuthJsonError::NotLoggedIn => "未检测到 Codex 登录状态",
            AuthJsonError::InvalidAuth => "Codex 凭据无效",
            AuthJsonError::RequestFailed => "Codex 用量查询失败",
        }
    }
}

/// The message of an error (see `AuthJsonError::message`).
pub open spec fn error_message(e: AuthJsonError) -> Seq<char> {
    match e {
        AuthJsonError::NotLoggedIn => "未检测到 Codex 登录状态"@,
        AuthJsonError::InvalidAuth => "Codex 凭据无效"@,
        AuthJsonError::RequestFailed => "Codex 用量查询失败"@,
    }
}

/// The name of an error (see `AuthJsonError::name`).
pub open spec fn error_name(e: AuthJsonError) -> Seq<char> {
    match e {
        AuthJsonError::NotLoggedIn => "NotLoggedIn"@,
        AuthJsonError::InvalidAuth => "InvalidAuth"@,
        AuthJsonError::RequestFailed => "RequestFailed"@,
    }
}

/// The names of credentials that an error must never carry.
pub open spec fn credential_name(n: Seq<char>) -> bool {
    n == "access_token"@ || n == "refresh_token"@ || n == "Authorization"@
}

proof fn lemma_first_char_absent(s: Seq<char>, needle: Seq<char>)
    requires
        needle.len() > 0,
        forall|i: int| 0 <= i && i + needle.len() <= s.len() ==> s[i] != needle[0],
    ensures
        !contains_seq(s, needle),
{
    assert forall|i: int| !occurs_at(s, needle, i) by {
        if occurs_at(s, needle, i) {
            assert(s.subrange(i, i + needle.len())[0] == s[i]);
        }
    }
}

/// No error of the login or the usage service names a credential: neither its message nor its
/// name holds `access_token`, `refresh_token` or `Authorization`.
pub proof fn lemma_errors_name_no_credentials(e: AuthJsonError, n: Seq<char>)
    requires
        credential_name(n),
    ensures
        !contains_seq(error_message(e), n),
        !contains_seq(error_name(e), n),
{
    reveal_strlit("未检测到 Codex 登录状态");
    reveal_strlit("Codex 凭据无效");
    reveal_strlit("Codex 用量查询失败");
    reveal_strlit("NotLoggedIn");
    reveal_strlit("InvalidAuth");
    reveal_strlit("RequestFailed");
    reveal_strlit("access_token");
    reveal_strlit("refresh_token");
    reveal_strlit("Authorization");
    assert(n.len() >= 12 && (n[0] == 'a' || n[0] == 'r' || n[0] == 'A'));
    lemma_first_char_absent(error_message(e), n);
    lemma_first_char_absent(error_name(e), n);
}

/// Joins a path and one more component with `/`, unless the path is empty or already ends
/// in a separator.
pub open spec fn joined_path(base: Seq<char>, part: Seq<char>) -> Seq<char> {
    if base.len() == 0 || base.last() == '/' || base.last() == '\\' {
        base + part
    } else {
        base + seq!['/'] + part
    }
}

/// `joined_path`.
pub fn join_path(base: &str, part: &str) -> (res: String)
    ensures
        res@ == joined_path(base@, part@),
{
    let n = base.unicode_len();
    proof {
        reveal_strlit("/");
    }
    if n == 0 || base.get_char(n - 1) == '/' || base.get_char(n - 1) == '\\' {
        join2(base, part)
    } else {
        join3(base, "/", part)
    }
}

/// Where the login file lies: `<CODEX_HOME>/auth.json` when `CODEX_HOME` is set, otherwise
/// `<home>/.codex/auth.json`, with `.` standing for an unknown home.
pub open spec fn auth_path(codex_home: Option<Seq<char>>, home: Option<Seq<char>>) -> Seq<char> {
    match codex_home {
        Some(h) => joined_path(h, "auth.json"@),
        None => {
            let base = match home {
                Some(h) => h,
                None => "."@,
            };
            joined_path(joined_path(base, ".codex"@), "auth.json"@)
        },
    }
}

/// The path of the login file (see `auth_path`).
pub fn resolve_auth_path_from(codex_home: Option<String>, home: Option<String>) -> (res: String)
    ensures
        res@ == auth_path(opt_text(codex_home), opt_text(home)),
{
    match codex_home {
        Some(h) => join_path(h.as_str(), "auth.json"),
        None => {
            let base = match home {
                Some(h) => h,
                None => owned("."),
            };
            let dir = join_path(base.as_str(), ".codex");
            join_path(dir.as_str(), "auth.json")
        },
    }
}

/// What the gauge takes from the login file. The access token is only ever used to build the
/// request headers.
pub struct AuthInfo {
    pub access_token: String,
    pub account_id: Option<String>,
    pub plan_type: Option<String>,
}

/// What a login holds, as characters.
pub struct AuthModel {
    pub access_token: Seq<char>,
    pub account_id: Option<Seq<char>>,
    pub plan_type: Option<Seq<char>>,
}

impl View for AuthInfo {
    type V = AuthModel;

    open spec fn view(&self) -> AuthModel {
        AuthModel {
            access_token: self.access_token@,
            account_id: opt_text(self.account_id),
            plan_type: opt_text(self.plan_type),
        }
    }
}

/// The keys under which the login file may hold the access token.
pub open spec fn token_keys() -> Seq<Seq<char>> {
    seq!["access_token"@, "accessToken"@]
}

/// The keys under which the login file may hold the account id.
pub open spec fn account_keys() -> Seq<Seq<char>> {
    seq!["account_id"@, "accountId"@, "chatgpt_account_id"@, "chatgptAccountId"@]
}

/// The keys under which a document may hold the plan.
pub open spec fn plan_keys() -> Seq<Seq<char>> {
    seq!["plan_type"@, "planType"@, "plan"@]
}

/// The login that a login file holds: a non-blank access token must be found (depth first),
/// else the user counts as not logged in; the account id and the plan are optional.
pub open spec fn auth_document(value: JsonValue) -> Result<AuthModel, AuthJsonError> {
    match find_text(value, token_keys()) {
        Some(token) if !is_blank(token) => Ok(
            AuthModel {
                access_token: token,
                account_id: find_text(value, account_keys()),
                plan_type: find_text(value, plan_keys()),
            },
        ),
        _ => Err(AuthJsonError::NotLoggedIn),
    }
}

/// The login of a login file that may be missing or unreadable (`None`).
pub open spec fn auth_file(document: Option<JsonValue>) -> Result<AuthModel, AuthJsonError> {
    match document {
        Some(v) => auth_document(v),
        None => Err(AuthJsonError::NotLoggedIn),
    }
}

/// The model of a login result.
pub open spec fn auth_result(r: Result<AuthInfo, AuthJsonError>) -> Result<AuthModel, AuthJsonError> {
    match r {
        Ok(info) => Ok(info@),
        Err(e) => Err(e),
    }
}

/// Reads the login file (see `auth_document`).
pub fn parse_auth_json(value: &JsonValue) -> (res: Result<AuthInfo, AuthJsonError>)
    ensures
        auth_result(res) == auth_document(*value),
{
    let token_names = ["access_token", "accessToken"];
    assert(key_seq(token_names@) =~= token_keys());
    let access_token = match value.find_text(&token_names) {
        Some(t) => t,
        None => {
            return Err(AuthJsonError::NotLoggedIn);
        },
    };
    if blank(access_token.as_str()) {
        return Err(AuthJsonError::NotLoggedIn);
    }
    let account_names = ["account_id", "accountId", "chatgpt_account_id", "chatgptAccountId"];
    assert(key_seq(account_names@) =~= account_keys());
    let plan_names = ["plan_type", "planType", "plan"];
    assert(key_seq(plan_names@) =~= plan_keys());
    Ok(
        AuthInfo {
            access_token,
            account_id: value.find_text(&account_names),
            plan_type: value.find_text(&plan_names),
        },
    )
}

/// A character that an HTTP header value may hold: a tab, or anything from a space on except
/// DEL (multi-byte characters encode to bytes above 127, which are allowed).
pub open spec fn header_char_ok(c: char) -> bool {
    c == '\t' || (c as u32 >= 32 && c as u32 != 127)
}

/// Whether `HeaderValue::from_str` accepts a text.
pub open spec fn header_text_ok(s: Seq<char>) -> bool {
    forall|i: int| 0 <= i < s.len() ==> header_char_ok(#[trigger] s[i])
}

/// Whether a text can be sent as an HTTP header value.
pub fn header_value_valid(s: &str) -> (res: bool)
    ensures
        res == header_text_ok(s@),
{
    let n = s.unicode_len();
    let mut i: usize = 0;
    while i < n
        invariant
            n == s@.len(),
            i <= n,
            forall|j: int| 0 <= j < i ==> header_char_ok(#[trigger] s@[j]),
        decreases n - i,
    {
        let c = s.get_char(i);
        if !(c == '\t' || (c as u32 >= 32 && c as u32 != 127)) {
            return false;
        }
        i = i + 1;
    }
    true
}

/// The headers of a usage request: the bearer token, the Codex client markers, and the account
/// id when it can be sent.
pub open spec fn request_headers(auth_token: Seq<char>, account: Option<Seq<char>>) -> Option<
    Seq<(Seq<char>, Seq<char>)>,
> {
    let bearer = "Bearer "@ + auth_token;
    if !header_text_ok(bearer) {
        None
    } else {
        let base = seq![
            ("authorization"@, bearer),
            ("openai-beta"@, "codex-1"@),
            ("originator"@, "Codex Desktop"@),
        ];
        Some(
            match account {
                Some(a) if header_text_ok(a) => base.push(("ChatGPT-Account-ID"@, a)),
                _ => base,
            },
        )
    }
}

/// The characters of a list of header pairs.
pub open spec fn header_models(h: Seq<(String, String)>) -> Seq<(Seq<char>, Seq<char>)> {
    h.map_values(|p: (String, String)| (p.0@, p.1@))
}

/// Builds the request headers; a token that cannot be sent means the login is invalid.
pub fn build_headers(auth: &AuthInfo) -> (res: Result<Vec<(String, String)>, AuthJsonError>)
    ensures
        match request_headers(auth.access_token@, opt_text(auth.account_id)) {
            Some(h) => res matches Ok(v) && header_models(v@) == h,
            None => res == Err::<Vec<(String, String)>, AuthJsonError>(
                AuthJsonError::InvalidAuth,
            ),
        },
{
    let bearer = join2("Bearer ", auth.access_token.as_str());
    if !header_value_valid(bearer.as_str()) {
        return Err(AuthJsonError::InvalidAuth);
    }
    let mut headers: Vec<(String, String)> = Vec::new();
    headers.push((owned("authorization"), bearer));
    headers.push((owned("openai-beta"), owned("codex-1")));
    headers.push((owned("originator"), owned("Codex Desktop")));
    if let Some(account_id) = &auth.account_id {
        if header_value_valid(account_id.as_str()) {
            headers.push((owned("ChatGPT-Account-ID"), account_id.clone()));
        }
    }
    assert(header_models(headers@) =~= request_headers(
        auth.access_token@,
        opt_text(auth.account_id),
    ).unwrap());
    Ok(headers)
}

/// What came back from one request to the usage service.
pub enum HttpReply {
    /// The request could not be sent or no answer arrived.
    Unreachable,
    /// An answer with its status code, and its body when it was JSON.
    Answered { status: u16, body: Option<JsonValue> },
}

/// The JSON of a successful answer: 401 and 403 mean the login is invalid, any other
/// unsuccessful answer, or a body that is not JSON, means the request failed.
pub open spec fn reply_outcome(reply: HttpReply) -> Result<JsonValue, AuthJsonError> {
    match reply {
        HttpReply::Unreachable => Err(AuthJsonError::RequestFailed),
        HttpReply::Answered { status, body } => if status == 401 || status == 403 {
            Err(AuthJsonError::InvalidAuth)
        } else if !(200 <= status <= 299) {
            Err(AuthJsonError::RequestFailed)
        } else {
            match body {
                Some(v) => Ok(v),
                None => Err(AuthJsonError::RequestFailed),
            }
        },
    }
}

/// `reply_outcome`, borrowing the body.
pub fn request_json(reply: &HttpReply) -> (res: Result<&JsonValue, AuthJsonError>)
    ensures
        match reply_outcome(*reply) {
            Ok(v) => res matches Ok(r) && *r == v,
            Err(e) => res == Err::<&JsonValue, AuthJsonError>(e),
        },
{
    match reply {
        HttpReply::Unreachable => Err(AuthJsonError::RequestFailed),
        HttpReply::Answered { status, body } => {
            if *status == 401 || *status == 403 {
                Err(AuthJsonError::InvalidAuth)
            } else if !(200 <= *status && *status <= 299) {
                Err(AuthJsonError::RequestFailed)
            } else {
                match body {
                    Some(v) => Ok(v),
                    None => Err(AuthJsonError::RequestFailed),
                }
            }
        },
    }
}

/// `first_value(value, keys)` read as an integer (numbers, or strings of an integer).
pub open spec fn first_integer(v: JsonValue, keys: Seq<Seq<char>>) -> Option<int> {
    match first_field(v, keys) {
        Some(x) => integer_or_text_of(x),
        None => None,
    }
}

/// A timestamp in seconds: values above ten billion are taken to be milliseconds.
pub open spec fn as_seconds(t: int) -> int {
    if t > 10_000_000_000 {
        t / 1000
    } else {
        t
    }
}

/// `first_integer` as a timestamp in seconds.
pub open spec fn first_timestamp(v: JsonValue, keys: Seq<Seq<char>>) -> Option<int> {
    match first_integer(v, keys) {
        Some(t) => Some(as_seconds(t)),
        None => None,
    }
}

/// `first_value(value, keys)` read as a percentage (numbers, or strings of a number), normalized.
pub open spec fn first_percent(v: JsonValue, keys: Seq<Seq<char>>) -> Option<int> {
    match first_field(v, keys) {
        Some(x) => match decimal_or_text_of(x) {
            Some(d) => Some(normalized(d)),
            None => None,
        },
        None => None,
    }
}

/// A percentage read from a field lies in `[0, 100%]`.
pub proof fn lemma_first_percent_range(v: JsonValue, keys: Seq<Seq<char>>)
    ensures
        first_percent(v, keys) matches Some(p) ==> 0 <= p <= FULL_PERCENT,
{
    match first_field(v, keys) {
        Some(x) => match decimal_or_text_of(x) {
            Some(d) => lemma_normalized_range(d),
            None => {},
        },
        None => {},
    }
}

/// How the two shares of a window stand to the shares its document gives: a given share is kept
/// as given (it lies in `[0, 100%]`); when at most one is given, the window has both shares or
/// neither, and two shares add up to 100%; it has neither only when none is given.
pub open spec fn shares_follow(given_used: Option<int>, given_remaining: Option<int>, w: WindowModel) -> bool {
    &&& (given_used matches Some(a) ==> 0 <= a <= FULL_PERCENT && w.used_percent == Some(a as i64))
    &&& (given_remaining matches Some(b) ==> 0 <= b <= FULL_PERCENT && w.remaining_percent == Some(
        b as i64,
    ))
    &&& ((given_used is None || given_remaining is None) ==> match w.used_percent {
        Some(x) => (w.remaining_percent matches Some(y) && x + y == FULL_PERCENT),
        None => w.remaining_percent is None && given_used is None && given_remaining is None,
    })
}

/// `first_value(value, keys)` as a string.
pub open spec fn first_text(v: JsonValue, keys: Seq<Seq<char>>) -> Option<Seq<char>> {
    match first_field(v, keys) {
        Some(x) => text_of(x),
        None => None,
    }
}

/// The instant that `first_value(value, keys)` names, when it can be written as local time: an
/// integer Unix timestamp in range, or the instant of an RFC 3339 text.
pub open spec fn first_time_instant(v: JsonValue, keys: Seq<Seq<char>>) -> Option<int> {
    match first_field(v, keys) {
        Some(x) => match x {
            JsonValue::Number(t) => match int_text_value(t@) {
                Some(ts) => if utc_timestamp_exists(ts) {
                    Some(ts)
                } else {
                    None
                },
                None => None,
            },
            JsonValue::Text(t) => if rfc3339_accepts(t@) {
                Some(rfc3339_seconds(t@))
            } else {
                None
            },
            _ => None,
        },
        None => None,
    }
}

/// Whether `first_value(value, keys)` is a time that can be written as local time (see
/// `first_time_instant`).
pub open spec fn first_time_present(v: JsonValue, keys: Seq<Seq<char>>) -> bool {
    first_time_instant(v, keys) is Some
}

/// How credit times are written: date and time of day in local time.
pub open spec fn credit_time_pattern() -> Seq<char> {
    "%Y-%m-%d %H:%M:%S"@
}

/// Reads `first_integer` of a value.
pub fn first_integer_exec(value: &JsonValue, keys: &[&str]) -> (res: Option<i64>)
    ensures
        match first_integer(*value, key_seq(keys@)) {
            Some(n) => res == Some(n as i64),
            None => res.is_none(),
        },
{
    match value.first_field(keys) {
        Some(x) => x.integer_or_text(),
        None => None,
    }
}

/// Reads `first_timestamp` of a value.
pub fn timestamp_exec(value: &JsonValue, keys: &[&str]) -> (res: Option<i64>)
    ensures
        match first_timestamp(*value, key_seq(keys@)) {
            Some(n) => res == Some(n as i64),
            None => res.is_none(),
        },
{
    match first_integer_exec(value, keys) {
        Some(t) => Some(
            if t > 10_000_000_000 {
                t / 1000
            } else {
                t
            },
        ),
        None => None,
    }
}

/// Reads `first_percent` of a value.
pub fn percent_exec(value: &JsonValue, keys: &[&str]) -> (res: Option<i64>)
    ensures
        match first_percent(*value, key_seq(keys@)) {
            Some(n) => res == Some(n as i64) && 0 <= n <= FULL_PERCENT,
            None => res.is_none(),
        },
{
    match value.first_field(keys) {
        Some(x) => match x.decimal_or_text() {
            Some(d) => Some(normalize_percent(&d)),
            None => None,
        },
        None => None,
    }
}

/// Reads `first_text` of a value.
pub fn text_exec(value: &JsonValue, keys: &[&str]) -> (res: Option<String>)
    ensures
        opt_text(res) == first_text(*value, key_seq(keys@)),
{
    match value.first_field(keys) {
        Some(x) => match x.as_text() {
            Some(t) => Some(t.clone()),
            None => None,
        },
        None => None,
    }
}

/// `first_value(value, keys)` written as a local text of the instant it names (see
/// `first_time_instant`) with the pattern `pattern`.
fn first_local_time(value: &JsonValue, keys: &[&str], pattern: &str) -> (res: Option<String>)
    requires
        clock_pattern(pattern@),
    ensures
        instant_text_fits(first_time_instant(*value, key_seq(keys@)), opt_text(res), pattern@),
{
    match value.first_field(keys) {
        Some(x) => match x {
            JsonValue::Number(t) => match crate::decimal::parse_i64(t.as_str()) {
                Some(ts) => timestamp_local_text(ts, pattern),
                None => None,
            },
            JsonValue::Text(t) => rfc3339_local_text(t.as_str(), pattern),
            _ => None,
        },
        None => None,
    }
}

/// The window name that a duration in seconds stands for.
pub open spec fn seconds_window_name(secs: int) -> Option<Seq<char>> {
    if secs == 18_000 {
        Some("5h"@)
    } else if secs == 604_800 {
        Some("weekly"@)
    } else {
        None
    }
}

pub open spec fn duration_keys() -> Seq<Seq<char>> {
    seq!["limit_window_seconds"@, "limitWindowSeconds"@, "windowDurationSeconds"@]
}

pub open spec fn used_keys() -> Seq<Seq<char>> {
    seq!["usedPercent"@, "used_percent"@, "usagePercent"@]
}

pub open spec fn remaining_keys() -> Seq<Seq<char>> {
    seq!["remainingPercent"@, "remaining_percent"@]
}

pub open spec fn window_reset_keys() -> Seq<Seq<char>> {
    seq!["resetAt"@, "reset_at"@, "resetsAt"@, "expiresAt"@]
}

/// A window as the usage service writes it: the window length in seconds decides which window
/// it is; the used and the remaining share each default to the complement of the other.
pub open spec fn wham_window(v: JsonValue) -> Option<WindowModel> {
    match first_integer(v, duration_keys()) {
        None => None,
        Some(secs) => match seconds_window_name(secs) {
            None => None,
            Some(name) => {
                let raw_used = first_percent(v, used_keys());
                let raw_remaining = first_percent(v, remaining_keys());
                let used: Option<int> = match raw_used {
                    Some(u) => Some(u),
                    None => match raw_remaining {
                        Some(r) => Some(FULL_PERCENT - r),
                        None => None,
                    },
                };
                let remaining: Option<int> = match raw_remaining {
                    Some(r) => Some(r),
                    None => match used {
                        Some(u) => Some(FULL_PERCENT - u),
                        None => None,
                    },
                };
                Some(
                    WindowModel {
                        name,
                        used_percent: match used {
                            Some(u) => Some(u as i64),
                            None => None,
                        },
                        remaining_percent: match remaining {
                            Some(r) => Some(r as i64),
                            None => None,
                        },
                        reset_at: match first_timestamp(v, window_reset_keys()) {
                            Some(r) => Some(r as i64),
                            None => None,
                        },
                        window_duration_seconds: Some(secs as i64),
                    },
                )
            },
        },
    }
}

/// A usage-service window keeps the shares it is given, and a share it is not given is the rest
/// of 100% of the other (see `shares_follow`).
pub proof fn lemma_wham_shares(v: JsonValue)
    ensures
        wham_window(v) matches Some(w) ==> shares_follow(
            first_percent(v, used_keys()),
            first_percent(v, remaining_keys()),
            w,
        ),
{
    lemma_first_percent_range(v, used_keys());
    lemma_first_percent_range(v, remaining_keys());
}

/// Reads one window of the usage service (see `wham_window`).
pub fn parse_wham_window(value: &JsonValue) -> (res: Option<UsageWindow>)
    ensures
        opt_window(res) == wham_window(*value),
{
    let duration_names = ["limit_window_seconds", "limitWindowSeconds", "windowDurationSeconds"];
    assert(key_seq(duration_names@) =~= duration_keys());
    let secs = match first_integer_exec(value, &duration_names) {
        Some(s) => s,
        None => {
            return None;
        },
    };
    let name = if secs == 18_000 {
        "5h"
    } else if secs == 604_800 {
        "weekly"
    } else {
        return None;
    };
    let used_names = ["usedPercent", "used_percent", "usagePercent"];
    assert(key_seq(used_names@) =~= used_keys());
    let remaining_names = ["remainingPercent", "remaining_percent"];
    assert(key_seq(remaining_names@) =~= remaining_keys());
    let raw_used = percent_exec(value, &used_names);
    let raw_remaining = percent_exec(value, &remaining_names);
    let used = match raw_used {
        Some(u) => Some(u),
        None => match raw_remaining {
            Some(r) => Some(complement(r)),
            None => None,
        },
    };
    let remaining = match raw_remaining {
        Some(r) => Some(r),
        None => match used {
            Some(u) => Some(complement(u)),
            None => None,
        },
    };
    let reset_names = ["resetAt", "reset_at", "resetsAt", "expiresAt"];
    assert(key_seq(reset_names@) =~= window_reset_keys());
    Some(
        UsageWindow {
            name: owned(name),
            used_percent: used,
            remaining_percent: remaining,
            reset_at: timestamp_exec(value, &reset_names),
            window_duration_seconds: Some(secs),
        },
    )
}

/// Every usage-service window in `v`, depth first (as `parser::windows_in`).
pub open spec fn wham_windows_in(v: JsonValue) -> Seq<WindowModel>
    decreases v, 1int, 0int,
{
    match wham_window(v) {
        Some(w) => seq![w],
        None => wham_windows_in_children(v, 0),
    }
}

/// `wham_windows_in` over the children of `v` from index `i` on, concatenated.
pub open spec fn wham_windows_in_children(v: JsonValue, i: int) -> Seq<WindowModel>
    decreases v, 0int, child_count(v) - i,
{
    if 0 <= i < child_count(v) {
        proof {
            lemma_child_decreases(v, i);
        }
        wham_windows_in(child(v, i)) + wham_windows_in_children(v, i + 1)
    } else {
        seq![]
    }
}

/// Appends `wham_windows_in(value)` to `output`.
fn collect_windows(value: &JsonValue, output: &mut Vec<UsageWindow>)
    ensures
        window_models(final(output)@) == window_models(old(output)@) + wham_windows_in(*value),
    decreases *value, 1int, 0int,
{
    if let Some(window) = parse_wham_window(value) {
        let ghost before = output@;
        output.push(window);
        assert(window_models(output@) =~= window_models(before) + wham_windows_in(*value));
        return;
    }
    collect_window_children(value, 0, output);
}

fn collect_window_children(value: &JsonValue, start: usize, output: &mut Vec<UsageWindow>)
    requires
        start <= child_count(*value),
    ensures
        window_models(final(output)@) == window_models(old(output)@)
            + wham_windows_in_children(*value, start as int),
    decreases *value, 0int, child_count(*value) - start,
{
    let n = value.child_count();
    if start >= n {
        assert(window_models(output@) =~= window_models(output@) + Seq::<WindowModel>::empty());
        return;
    }
    proof {
        lemma_child_decreases(*value, start as int);
    }
    let ghost before = output@;
    collect_windows(value.child(start), output);
    collect_window_children(value, start + 1, output);
    assert(window_models(output@) =~= window_models(before) + wham_windows_in_children(
        *value,
        start as int,
    ));
}

pub open spec fn status_keys() -> Seq<Seq<char>> {
    seq!["status"@, "state"@]
}

pub open spec fn title_keys() -> Seq<Seq<char>> {
    seq!["title"@, "displayTitle"@, "display_title"@, "name"@]
}

pub open spec fn granted_keys() -> Seq<Seq<char>> {
    seq!["granted_at"@, "grantedAt"@, "created_at"@]
}

pub open spec fn expires_keys() -> Seq<Seq<char>> {
    seq!["expires_at"@, "expiresAt"@, "expiration_at"@]
}

/// Whether a listed credit carries anything at all; credits that do not are left out.
pub open spec fn credit_kept(v: JsonValue) -> bool {
    first_text(v, status_keys()).is_some() || first_text(v, title_keys()).is_some()
        || first_time_present(v, granted_keys()) || first_time_present(v, expires_keys())
}

/// How a credit reads: status and title exactly, the two times as local date-time texts that are
/// present exactly when the service gave a readable time.
pub open spec fn credit_fits(v: JsonValue, item: CreditItemModel) -> bool {
    &&& item.status == first_text(v, status_keys())
    &&& item.title == first_text(v, title_keys())
    &&& instant_text_fits(first_time_instant(v, granted_keys()), item.granted_at, credit_time_pattern())
    &&& instant_text_fits(first_time_instant(v, expires_keys()), item.expires_at, credit_time_pattern())
}

/// `items` are the kept credits of `values`, in order, each read as `credit_fits` says.
pub open spec fn credits_fit(values: Seq<JsonValue>, items: Seq<CreditItemModel>) -> bool
    decreases values.len(),
{
    if values.len() == 0 {
        items.len() == 0
    } else if credit_kept(values.last()) {
        items.len() > 0 && credit_fits(values.last(), items.last()) && credits_fit(
            values.drop_last(),
            items.drop_last(),
        )
    } else {
        credits_fit(values.drop_last(), items)
    }
}

/// Reads one listed credit.
fn parse_credit_item(value: &JsonValue) -> (res: Option<ResetCreditItem>)
    ensures
        match res {
            Some(item) => credit_kept(*value) && credit_fits(*value, item@),
            None => !credit_kept(*value),
        },
{
    let status_names = ["status", "state"];
    assert(key_seq(status_names@) =~= status_keys());
    let title_names = ["title", "displayTitle", "display_title", "name"];
    assert(key_seq(title_names@) =~= title_keys());
    let granted_names = ["granted_at", "grantedAt", "created_at"];
    assert(key_seq(granted_names@) =~= granted_keys());
    let expires_names = ["expires_at", "expiresAt", "expiration_at"];
    assert(key_seq(expires_names@) =~= expires_keys());
    let item = ResetCreditItem {
        status: text_exec(value, &status_names),
        title: text_exec(value, &title_names),
        granted_at: first_local_time(value, &granted_names, "%Y-%m-%d %H:%M:%S"),
        expires_at: first_local_time(value, &expires_names, "%Y-%m-%d %H:%M:%S"),
    };
    if item.status.is_some() || item.title.is_some() || item.granted_at.is_some()
        || item.expires_at.is_some() {
        Some(item)
    } else {
        None
    }
}

/// The keys under which an object may list credits.
pub open spec fn credit_list_keys() -> Seq<Seq<char>> {
    seq!["credits"@, "items"@, "data"@, "resetCredits"@, "reset_credits"@]
}

/// The first of `keys` (from index `k` on) whose value in `v` is an array.
pub open spec fn first_array_from(v: JsonValue, keys: Seq<Seq<char>>, k: int) -> Option<
    Seq<JsonValue>,
>
    decreases keys.len() - k,
{
    if k < 0 || k >= keys.len() {
        None
    } else {
        match field(v, keys[k]) {
            Some(JsonValue::Array(items)) => Some(items@),
            _ => first_array_from(v, keys, k + 1),
        }
    }
}

/// The list of credits in `v`: `v` itself when it is an array, else the first array under one
/// of `credit_list_keys`; empty when there is none.
pub open spec fn credit_values(v: JsonValue) -> Seq<JsonValue> {
    match v {
        JsonValue::Array(items) => items@,
        JsonValue::Object(_) => match first_array_from(v, credit_list_keys(), 0) {
            Some(items) => items,
            None => seq![],
        },
        _ => seq![],
    }
}

/// The models of a list of credits.
pub open spec fn credit_models(items: Seq<ResetCreditItem>) -> Seq<CreditItemModel> {
    items.map_values(|i: ResetCreditItem| i@)
}

/// Appends the kept credits of `value` to `output`.
fn collect_credit_items(
    value: &JsonValue,
    Ghost(seen): Ghost<Seq<JsonValue>>,
    output: &mut Vec<ResetCreditItem>,
)
    requires
        credits_fit(seen, credit_models(old(output)@)),
    ensures
        credits_fit(seen + credit_values(*value), credit_models(final(output)@)),
{
    let list: Option<&Vec<JsonValue>> = match value {
        JsonValue::Array(items) => Some(items),
        JsonValue::Object(_) => {
            let names = ["credits", "items", "data", "resetCredits", "reset_credits"];
            assert(key_seq(names@) =~= credit_list_keys());
            let mut found: Option<&Vec<JsonValue>> = None;
            let mut k: usize = 0;
            while k < 5
                invariant_except_break
                    found.is_none(),
                invariant
                    k <= 5,
                    key_seq(names@) == credit_list_keys(),
                    names@.len() == 5,
                    first_array_from(*value, credit_list_keys(), 0) == first_array_from(
                        *value,
                        credit_list_keys(),
                        k as int,
                    ),
                ensures
                    match found {
                        Some(items) => first_array_from(*value, credit_list_keys(), 0) == Some(
                            items@,
                        ),
                        None => first_array_from(*value, credit_list_keys(), 0).is_none(),
                    },
                decreases 5 - k,
            {
                if let Some(JsonValue::Array(items)) = value.get(names[k]) {
                    found = Some(items);
                    break;
                }
                k = k + 1;
            }
            found
        },
        _ => None,
    };
    let items = match list {
        Some(items) => items,
        None => {
            assert(seen + credit_values(*value) =~= seen);
            return;
        },
    };
    assert(items@ == credit_values(*value));
    let n = items.len();
    let mut i: usize = 0;
    while i < n
        invariant
            n == items@.len(),
            i <= n,
            credits_fit(seen + items@.subrange(0, i as int), credit_models(output@)),
        decreases n - i,
    {
        let ghost before = output@;
        let parsed = parse_credit_item(&items[i]);
        let ghost values = seen + items@.subrange(0, i + 1);
        assert(values.drop_last() =~= seen + items@.subrange(0, i as int));
        assert(values.last() == items@[i as int]);
        if let Some(item) = parsed {
            output.push(item);
            assert(credit_models(output@).drop_last() =~= credit_models(before));
        } else {
            assert(credit_models(output@) =~= credit_models(before));
        }
        i = i + 1;
    }
    assert(items@.subrange(0, n as int) =~= items@);
}

pub open spec fn available_keys() -> Seq<Seq<char>> {
    seq!["available_count"@, "availableCount"@, "available"@, "availableCredits"@]
}

pub open spec fn credits_reset_keys() -> Seq<Seq<char>> {
    seq!["resetAt"@, "reset_at"@, "resetsAt"@]
}

/// The credit listings of a credits document: those of its root (inside `result` when present),
/// then, when the root has a `rateLimitResetCredits` entry, those of that entry.
pub open spec fn credit_listing(value: JsonValue) -> Seq<JsonValue> {
    let root = field_or_self(value, "result"@);
    match field(root, "rateLimitResetCredits"@) {
        Some(count_root) => credit_values(root) + credit_values(count_root),
        None => credit_values(root),
    }
}

/// The entry that holds the counts: `rateLimitResetCredits` when present, else the root.
pub open spec fn count_root(value: JsonValue) -> JsonValue {
    field_or_self(field_or_self(value, "result"@), "rateLimitResetCredits"@)
}

/// Whether a credits document says anything: a count, a reset time, or a kept credit.
pub open spec fn reset_credits_present(value: JsonValue) -> bool {
    first_integer(count_root(value), available_keys()).is_some() || first_timestamp(
        count_root(value),
        credits_reset_keys(),
    ).is_some() || exists|i: int|
        0 <= i < credit_listing(value).len() && credit_kept(#[trigger] credit_listing(value)[i])
}

/// How `parse_reset_credits` reads a credits document.
pub open spec fn reset_credits_fit(value: JsonValue, res: Option<CreditsModel>) -> bool {
    match res {
        None => !reset_credits_present(value),
        Some(c) => {
            &&& reset_credits_present(value)
            &&& c.available_count == match first_integer(count_root(value), available_keys()) {
                Some(n) => Some(n as i64),
                None => None,
            }
            &&& c.reset_credits is None
            &&& c.reset_at == match first_timestamp(count_root(value), credits_reset_keys()) {
                Some(n) => Some(n as i64),
                None => None,
            }
            &&& credits_fit(credit_listing(value), c.items)
        },
    }
}

proof fn lemma_credits_fit_empty(values: Seq<JsonValue>, items: Seq<CreditItemModel>)
    requires
        credits_fit(values, items),
    ensures
        (items.len() == 0) == (forall|i: int| 0 <= i < values.len() ==> !credit_kept(#[trigger] values[i])),
    decreases values.len(),
{
    if values.len() > 0 {
        lemma_credits_fit_empty(values.drop_last(), if credit_kept(values.last()) {
            items.drop_last()
        } else {
            items
        });
        if credit_kept(values.last()) {
            assert(!(forall|i: int| 0 <= i < values.len() ==> !credit_kept(#[trigger] values[i])))
                by {
                assert(credit_kept(values[values.len() - 1]));
            }
        } else {
            assert((forall|i: int| 0 <= i < values.len() ==> !credit_kept(#[trigger] values[i]))
                == (forall|i: int|
                0 <= i < values.drop_last().len() ==> !credit_kept(#[trigger] values.drop_last()[i])))
                by {
                if forall|i: int|
                    0 <= i < values.drop_last().len() ==> !credit_kept(#[trigger] values.drop_last()[i]) {
                    assert forall|i: int| 0 <= i < values.len() implies !credit_kept(#[trigger] values[i]) by {
                        if i < values.len() - 1 {
                            assert(values[i] == values.drop_last()[i]);
                        }
                    }
                }
                if forall|i: int| 0 <= i < values.len() ==> !credit_kept(#[trigger] values[i]) {
                    assert forall|i: int|
                        0 <= i < values.drop_last().len() implies !credit_kept(#[trigger] values.drop_last()[i]) by {
                        assert(values[i] == values.drop_last()[i]);
                    }
                }
            }
        }
    }
}

/// Reads a credits document: the available count and reset time from `count_root`, and the kept
/// credits of `credit_listing`; nothing when none of these is there.
pub fn parse_reset_credits(value: &JsonValue) -> (res: Option<UsageCredits>)
    ensures
        reset_credits_fit(*value, opt_credits(res)),
{
    let root = value.get_or_self("result");
    let count = root.get("rateLimitResetCredits");
    let mut items: Vec<ResetCreditItem> = Vec::new();
    assert(credits_fit(Seq::<JsonValue>::empty(), credit_models(items@)));
    collect_credit_items(root, Ghost(Seq::<JsonValue>::empty()), &mut items);
    assert(Seq::<JsonValue>::empty() + credit_values(*root) =~= credit_values(*root));
    let count_root_value = match count {
        Some(c) => {
            collect_credit_items(c, Ghost(credit_values(*root)), &mut items);
            c
        },
        None => root,
    };
    assert(*count_root_value == count_root(*value));
    assert(credits_fit(credit_listing(*value), credit_models(items@)));
    let available_names = ["available_count", "availableCount", "available", "availableCredits"];
    assert(key_seq(available_names@) =~= available_keys());
    let reset_names = ["resetAt", "reset_at", "resetsAt"];
    assert(key_seq(reset_names@) =~= credits_reset_keys());
    let available_count = first_integer_exec(count_root_value, &available_names);
    let reset_at = timestamp_exec(count_root_value, &reset_names);
    proof {
        lemma_credits_fit_empty(credit_listing(*value), credit_models(items@));
    }
    let credits = UsageCredits { available_count, reset_credits: None, reset_at, items };
    assert(credits@.items == credit_models(credits.items@));
    if credits.available_count.is_some() || credits.reset_at.is_some() || credits.items.len() > 0 {
        Some(credits)
    } else {
        None
    }
}

/// How `parse_wham_usage` reads a usage document: the first five-hour and weekly windows found
/// depth first, the plan, which limit was reached, and the reset credits it carries.
pub open spec fn wham_usage_fits(value: JsonValue, now: i64, s: SnapshotModel) -> bool {
    let root = field_or_self(value, "result"@);
    &&& wham_windows_fit(value, now, s)
    &&& s.plan_type == find_text(root, plan_keys())
    &&& reset_credits_fit(root, s.credits)
}

/// The part of `wham_usage_fits` that neither the plan nor the credits touch.
pub open spec fn wham_windows_fit(value: JsonValue, now: i64, s: SnapshotModel) -> bool {
    let root = field_or_self(value, "result"@);
    let ws = wham_windows_in(root);
    &&& s.source == SnapshotSource::AuthJson
    &&& s.status == SnapshotStatus::Success
    &&& s.primary_window == first_named(ws, "5h"@)
    &&& s.secondary_window == first_named(ws, "weekly"@)
    &&& !s.primary_window_unlimited
    &&& s.rate_limit_reached_type == find_text(root, seq!["rateLimitReachedType"@])
    &&& s.updated_at == now
}

/// Reads a usage document into a snapshot stamped with `now` (see `wham_usage_fits`).
pub fn parse_wham_usage_at(value: &JsonValue, now: i64) -> (res: CodexUsageSnapshot)
    ensures
        wham_usage_fits(*value, now, res@),
{
    let root = value.get_or_self("result");
    let mut snapshot = CodexUsageSnapshot::empty_at(
        SnapshotSource::AuthJson,
        SnapshotStatus::Success,
        now,
    );
    let mut windows: Vec<UsageWindow> = Vec::new();
    assert(window_models(windows@) =~= Seq::<WindowModel>::empty());
    collect_windows(root, &mut windows);
    assert(window_models(windows@) =~= wham_windows_in(*root));
    let n = windows.len();
    let mut i: usize = 0;
    while i < n
        invariant
            n == windows@.len(),
            i <= n,
            snapshot@.source == SnapshotSource::AuthJson,
            snapshot@.status == SnapshotStatus::Success,
            !snapshot.primary_window_unlimited,
            snapshot.updated_at == now,
            snapshot.plan_type.is_none(),
            snapshot.credits.is_none(),
            snapshot.rate_limit_reached_type.is_none(),
            first_named(window_models(windows@), "5h"@) == match opt_window(
                snapshot.primary_window,
            ) {
                Some(w) => Some(w),
                None => crate::parser::first_named_from(
                    window_models(windows@),
                    "5h"@,
                    i as int,
                ),
            },
            first_named(window_models(windows@), "weekly"@) == match opt_window(
                snapshot.secondary_window,
            ) {
                Some(w) => Some(w),
                None => crate::parser::first_named_from(
                    window_models(windows@),
                    "weekly"@,
                    i as int,
                ),
            },
        decreases n - i,
    {
        proof {
            reveal_strlit("5h");
            reveal_strlit("weekly");
            assert("5h"@.len() != "weekly"@.len());
            assert(window_models(windows@)[i as int] == windows@[i as int]@);
        }
        let is_five = crate::text::same_text(windows[i].name.as_str(), "5h");
        let is_week = crate::text::same_text(windows[i].name.as_str(), "weekly");
        if is_five && snapshot.primary_window.is_none() {
            snapshot.primary_window = Some(windows[i].duplicate());
        } else if is_week && snapshot.secondary_window.is_none() {
            snapshot.secondary_window = Some(windows[i].duplicate());
        }
        i = i + 1;
    }
    let plan_names = ["plan_type", "planType", "plan"];
    assert(key_seq(plan_names@) =~= plan_keys());
    let reached_names = ["rateLimitReachedType"];
    assert(key_seq(reached_names@) =~= seq!["rateLimitReachedType"@]);
    snapshot.plan_type = root.find_text(&plan_names);
    snapshot.rate_limit_reached_type = root.find_text(&reached_names);
    snapshot.credits = parse_reset_credits(root);
    snapshot
}

/// Reads a usage document into a snapshot stamped with the current time.
pub fn parse_wham_usage(value: &JsonValue) -> (res: CodexUsageSnapshot)
    ensures
        wham_usage_fits(*value, res.updated_at, res@),
{
    parse_wham_usage_at(value, crate::clock::unix_now())
}

/// The model of a snapshot result.
pub open spec fn snapshot_result(r: Result<CodexUsageSnapshot, AuthJsonError>) -> Result<
    SnapshotModel,
    AuthJsonError,
> {
    match r {
        Ok(s) => Ok(s@),
        Err(e) => Err(e),
    }
}

/// Whether the credits reply brings credits of its own: it was read and says anything.
pub open spec fn fresh_credits(credits: HttpReply) -> bool {
    match reply_outcome(credits) {
        Ok(v) => reset_credits_present(v),
        Err(_) => false,
    }
}

/// How a snapshot is made from the login and the replies of the usage and credits requests:
/// a refused login in either reply refuses the whole; a failed usage request still reports the
/// credits and the plan of the login; fresh credits win over those of the usage document, and
/// the plan of the login stands in for one that the usage document lacks.
pub open spec fn fetch_fits(
    auth: AuthModel,
    usage: HttpReply,
    credits: HttpReply,
    now: i64,
    res: Result<SnapshotModel, AuthJsonError>,
) -> bool {
    let u = reply_outcome(usage);
    let c = reply_outcome(credits);
    if u == Err::<JsonValue, AuthJsonError>(AuthJsonError::InvalidAuth) || c == Err::<
        JsonValue,
        AuthJsonError,
    >(AuthJsonError::InvalidAuth) {
        res == Err::<SnapshotModel, AuthJsonError>(AuthJsonError::InvalidAuth)
    } else {
        match res {
            Err(_) => false,
            Ok(s) => {
                &&& match c {
                    Ok(v) => reset_credits_present(v) ==> reset_credits_fit(v, s.credits),
                    Err(_) => true,
                }
                &&& match u {
                    Ok(v) => {
                        let root = field_or_self(v, "result"@);
                        &&& wham_windows_fit(v, now, s)
                        &&& !fresh_credits(credits) ==> reset_credits_fit(root, s.credits)
                        &&& s.plan_type == match find_text(root, plan_keys()) {
                            Some(p) => Some(p),
                            None => auth.plan_type,
                        }
                    },
                    Err(_) => {
                        &&& s == (SnapshotModel {
                            credits: s.credits,
                            plan_type: auth.plan_type,
                            ..empty_model(SnapshotSource::AuthJson, SnapshotStatus::RequestFailed, now)
                        })
                        &&& !fresh_credits(credits) ==> s.credits.is_none()
                    },
                }
            },
        }
    }
}

/// The snapshot made from the replies does not depend on the access token or the account id:
/// two logins with the same plan give the same snapshots.
pub proof fn lemma_snapshot_ignores_credentials(
    a: AuthModel,
    b: AuthModel,
    usage: HttpReply,
    credits: HttpReply,
    now: i64,
    res: Result<SnapshotModel, AuthJsonError>,
)
    requires
        a.plan_type == b.plan_type,
    ensures
        fetch_fits(a, usage, credits, now, res) == fetch_fits(b, usage, credits, now, res),
{
}

/// Makes a snapshot stamped with `now` from the login and the two replies (see `fetch_fits`).
pub fn fetch_snapshot_at(auth: &AuthInfo, usage: &HttpReply, credits: &HttpReply, now: i64) -> (res:
    Result<CodexUsageSnapshot, AuthJsonError>)
    ensures
        fetch_fits(auth@, *usage, *credits, now, snapshot_result(res)),
{
    let usage_json = request_json(usage);
    let credits_json = request_json(credits);
    let usage_refused = match &usage_json {
        Err(AuthJsonError::InvalidAuth) => true,
        _ => false,
    };
    let credits_refused = match &credits_json {
        Err(AuthJsonError::InvalidAuth) => true,
        _ => false,
    };
    if usage_refused || credits_refused {
        return Err(AuthJsonError::InvalidAuth);
    }
    let parsed_credits = match credits_json {
        Ok(v) => parse_reset_credits(v),
        Err(_) => None,
    };
    match usage_json {
        Err(_) => {
            let mut snapshot = CodexUsageSnapshot::empty_at(
                SnapshotSource::AuthJson,
                SnapshotStatus::RequestFailed,
                now,
            );
            snapshot.credits = parsed_credits;
            snapshot.plan_type = copy_opt_text(&auth.plan_type);
            Ok(snapshot)
        },
        Ok(v) => {
            let mut snapshot = parse_wham_usage_at(v, now);
            if parsed_credits.is_some() {
                snapshot.credits = parsed_credits;
            }
            if snapshot.plan_type.is_none() {
                snapshot.plan_type = copy_opt_text(&auth.plan_type);
            }
            Ok(snapshot)
        },
    }
}

/// Makes a snapshot stamped with the current time from the login and the two replies.
pub fn fetch_snapshot(auth: &AuthInfo, usage: &HttpReply, credits: &HttpReply) -> (res: Result<
    CodexUsageSnapshot,
    AuthJsonError,
>)
    ensures
        match res {
            Ok(s) => fetch_fits(auth@, *usage, *credits, s.updated_at, snapshot_result(res)),
            Err(_) => fetch_fits(auth@, *usage, *credits, 0, snapshot_result(res)),
        },
{
    fetch_snapshot_at(auth, usage, credits, crate::clock::unix_now())
}

/// What a login file allows: the login and the request headers, or why no request can be made.
pub open spec fn request_plan(document: Option<JsonValue>) -> Result<
    (AuthModel, Seq<(Seq<char>, Seq<char>)>),
    AuthJsonError,
> {
    match auth_file(document) {
        Err(e) => Err(e),
        Ok(a) => match request_headers(a.access_token, a.account_id) {
            Some(h) => Ok((a, h)),
            None => Err(AuthJsonError::InvalidAuth),
        },
    }
}

/// Reads the login file (`None` when it is missing or not JSON) and builds the request headers
/// (see `request_plan`).
pub fn prepare_request(document: &Option<JsonValue>) -> (res: Result<
    (AuthInfo, Vec<(String, String)>),
    AuthJsonError,
>)
    ensures
        match request_plan(*document) {
            Ok((a, h)) => res matches Ok((info, headers)) && info@ == a && header_models(headers@)
                == h,
            Err(e) => res matches Err(r) && r == e,
        },
{
    let auth = match document {
        Some(v) => parse_auth_json(v)?,
        None => {
            return Err(AuthJsonError::NotLoggedIn);
        },
    };
    let headers = build_headers(&auth)?;
    Ok((auth, headers))
}

/// How a snapshot is read from the login file and the two replies: the login must be usable
/// (see `request_plan`), then `fetch_fits` decides.
pub open spec fn read_fits(
    document: Option<JsonValue>,
    usage: HttpReply,
    credits: HttpReply,
    now: i64,
    res: Result<SnapshotModel, AuthJsonError>,
) -> bool {
    match request_plan(document) {
        Err(e) => res == Err::<SnapshotModel, AuthJsonError>(e),
        Ok((a, _)) => fetch_fits(a, usage, credits, now, res),
    }
}

/// Reads a snapshot stamped with `now` from the login file and the replies of the usage and
/// credits requests.
pub fn read_snapshot_at(
    document: &Option<JsonValue>,
    usage: &HttpReply,
    credits: &HttpReply,
    now: i64,
) -> (res: Result<CodexUsageSnapshot, AuthJsonError>)
    ensures
        read_fits(*document, *usage, *credits, now, snapshot_result(res)),
{
    match prepare_request(document) {
        Err(e) => Err(e),
        Ok((auth, _)) => fetch_snapshot_at(&auth, usage, credits, now),
    }
}

/// Reads a snapshot stamped with the current time from the login file and the two replies.
pub fn read_snapshot(document: &Option<JsonValue>, usage: &HttpReply, credits: &HttpReply) -> (res:
    Result<CodexUsageSnapshot, AuthJsonError>)
    ensures
        match res {
            Ok(s) => read_fits(*document, *usage, *credits, s.updated_at, snapshot_result(res)),
            Err(_) => read_fits(*document, *usage, *credits, 0, snapshot_result(res)),
        },
{
    read_snapshot_at(document, usage, credits, crate::clock::unix_now())
}

/// How the credits are read from the login file and the reply of the credits request.
pub open spec fn credits_read_fits(
    document: Option<JsonValue>,
    credits: HttpReply,
    res: Result<Option<CreditsModel>, AuthJsonError>,
) -> bool {
    match request_plan(document) {
        Err(e) => res == Err::<Option<CreditsModel>, AuthJsonError>(e),
        Ok(_) => match reply_outcome(credits) {
            Err(e) => res == Err::<Option<CreditsModel>, AuthJsonError>(e),
            Ok(v) => res matches Ok(c) && reset_credits_fit(v, c),
        },
    }
}

/// Reads the reset credits from the login file and the reply of the credits request.
pub fn read_credits(document: &Option<JsonValue>, credits: &HttpReply) -> (res: Result<
    Option<UsageCredits>,
    AuthJsonError,
>)
    ensures
        credits_read_fits(
            *document,
            *credits,
            match res {
                Ok(c) => Ok(opt_credits(c)),
                Err(e) => Err(e),
            },
        ),
{
    prepare_request(document)?;
    let value = request_json(credits)?;
    Ok(parse_reset_credits(value))
}

} // verus!
