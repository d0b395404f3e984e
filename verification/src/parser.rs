//! Reading the rate limits and the plan that the Codex app-server reports.
use vstd::prelude::*;

use crate::decimal::FULL_PERCENT;
use crate::json::{
    child, child_count, decimal_value_of, field, field_or_self, find_text, first_text_field_from, integer_of, key_seq,
    lemma_child_decreases, JsonValue,
};
use crate::model::{opt_text, opt_window, UsageWindow, WindowModel};
use crate::percent::{clamp_percent, clamped, complement, lemma_clamped_range};
use crate::text::same_text;

verus! {

/// The models of a list of windows.
pub open spec fn window_models(ws: Seq<UsageWindow>) -> Seq<WindowModel> {
    ws.map_values(|w: UsageWindow| w@)
}

/// The window name that a duration in minutes stands for: about five hours or about a week.
pub open spec fn minutes_window_name(mins: int) -> Option<Seq<char>> {
    if 240 <= mins <= 360 {
        Some("5h"@)
    } else if 9000 <= mins <= 11000 {
        Some("weekly"@)
    } else {
        None
    }
}

/// `value.get(key).and_then(value_to_i64)`.
pub open spec fn integer_field(v: JsonValue, key: Seq<char>) -> Option<int> {
    match field(v, key) {
        Some(x) => integer_of(x),
        None => None,
    }
}

/// A window as the app-server writes it: `windowDurationMins` decides which window it is;
/// `usedPercent` is clamped to `[0, 100]` and the remaining share is its complement.
pub open spec fn usage_window(v: JsonValue) -> Option<WindowModel> {
    match integer_field(v, "windowDurationMins"@) {
        None => None,
        Some(mins) => match minutes_window_name(mins) {
            None => None,
            Some(name) => {
                let used: Option<i64> = match field(v, "usedPercent"@) {
                    Some(x) => match decimal_value_of(x) {
                        Some(d) => Some(clamped(d) as i64),
                        None => None,
                    },
                    None => None,
                };
                Some(
                    WindowModel {
                        name,
                        used_percent: used,
                        remaining_percent: match used {
                            Some(u) => Some((FULL_PERCENT - u) as i64),
                            None => None,
                        },
                        reset_at: match integer_field(v, "resetsAt"@) {
                            Some(r) => Some(r as i64),
                            None => None,
                        },
                        window_duration_seconds: Some((mins * 60) as i64),
                    },
                )
            },
        },
    }
}

/// The two shares of an app-server window make up the whole: a window that reads a used share
/// has it in `[0, 100%]` and a remaining share that is exactly the rest of 100%; a window with no
/// used share has no remaining share either.
pub proof fn lemma_app_server_shares_complement(v: JsonValue)
    ensures
        usage_window(v) matches Some(w) ==> match w.used_percent {
            Some(u) => 0 <= u <= FULL_PERCENT && (w.remaining_percent matches Some(r) && u + r
                == FULL_PERCENT),
            None => w.remaining_percent is None,
        },
{
    match field(v, "usedPercent"@) {
        Some(x) => match decimal_value_of(x) {
            Some(d) => lemma_clamped_range(d),
            None => {},
        },
        None => {},
    }
}

/// Every window in `v`, depth first: a value that is a window is taken whole, otherwise its
/// children (object values or array elements) are searched in order.
pub open spec fn windows_in(v: JsonValue) -> Seq<WindowModel>
    decreases v, 1int, 0int,
{
    match usage_window(v) {
        Some(w) => seq![w],
        None => windows_in_children(v, 0),
    }
}

/// `windows_in` over the children of `v` from index `i` on, concatenated.
pub open spec fn windows_in_children(v: JsonValue, i: int) -> Seq<WindowModel>
    decreases v, 0int, child_count(v) - i,
{
    if 0 <= i < child_count(v) {
        proof {
            lemma_child_decreases(v, i);
        }
        windows_in(child(v, i)) + windows_in_children(v, i + 1)
    } else {
        seq![]
    }
}

/// The windows found under `key`, or none when `root` has no such entry.
pub open spec fn windows_under(root: JsonValue, key: Seq<char>) -> Seq<WindowModel> {
    match field(root, key) {
        Some(x) => windows_in(x),
        None => seq![],
    }
}

/// The window that `root[key]` is, as a one-element or empty list.
pub open spec fn direct_window(root: JsonValue, key: Seq<char>) -> Seq<WindowModel> {
    match field(root, key) {
        Some(x) => match usage_window(x) {
            Some(w) => seq![w],
            None => seq![],
        },
        None => seq![],
    }
}

/// All windows of a rate-limit report: those under `rateLimitsByLimitId`, or, when there are
/// none, those under `rateLimits`; then the `primary` and `secondary` windows of the root.
pub open spec fn report_windows(root: JsonValue) -> Seq<WindowModel> {
    let by_id = windows_under(root, "rateLimitsByLimitId"@);
    let base = if by_id.len() == 0 {
        windows_under(root, "rateLimits"@)
    } else {
        by_id
    };
    base + direct_window(root, "primary"@) + direct_window(root, "secondary"@)
}

/// The first window from index `i` on that is named `name`.
pub open spec fn first_named_from(ws: Seq<WindowModel>, name: Seq<char>, i: int) -> Option<
    WindowModel,
>
    decreases ws.len() - i,
{
    if i < 0 || i >= ws.len() {
        None
    } else if ws[i].name == name {
        Some(ws[i])
    } else {
        first_named_from(ws, name, i + 1)
    }
}

/// The first window named `name`.
pub open spec fn first_named(ws: Seq<WindowModel>, name: Seq<char>) -> Option<WindowModel> {
    first_named_from(ws, name, 0)
}

/// The parts of a rate-limit report that the gauge uses.
#[derive(Debug)]
pub struct ParsedRateLimits {
    pub five_hour: Option<UsageWindow>,
    pub weekly: Option<UsageWindow>,
    pub plan_type: Option<String>,
    pub rate_limit_reached_type: Option<String>,
}

/// Reads one window (see `usage_window`).
pub fn parse_usage_window(value: &JsonValue) -> (res: Option<UsageWindow>)
    ensures
        opt_window(res) == usage_window(*value),
{
    let mins = match value.get("windowDurationMins") {
        Some(x) => x.integer(),
        None => None,
    };
    let m = match mins {
        Some(m) => m,
        None => {
            return None;
        },
    };
    let name = if 240 <= m && m <= 360 {
        "5h"
    } else if 9000 <= m && m <= 11000 {
        "weekly"
    } else {
        return None;
    };
    let used = match value.get("usedPercent") {
        Some(x) => match x.decimal() {
            Some(d) => Some(clamp_percent(&d)),
            None => None,
        },
        None => None,
    };
    let remaining = match used {
        Some(u) => Some(complement(u)),
        None => None,
    };
    let reset_at = match value.get("resetsAt") {
        Some(x) => x.integer(),
        None => None,
    };
    Some(
        UsageWindow {
            name: crate::text::owned(name),
            used_percent: used,
            remaining_percent: remaining,
            reset_at,
            window_duration_seconds: Some(m * 60),
        },
    )
}

/// Appends `windows_in(value)` to `output`.
fn collect_windows_from_value(value: &JsonValue, output: &mut Vec<UsageWindow>)
    ensures
        window_models(final(output)@) == window_models(old(output)@) + windows_in(*value),
    decreases *value, 1int, 0int,
{
    if let Some(window) = parse_usage_window(value) {
        let ghost before = output@;
        output.push(window);
        assert(window_models(output@) =~= window_models(before) + windows_in(*value));
        return;
    }
    collect_children(value, 0, output);
}

/// Appends `windows_in_children(value, start)` to `output`.
fn collect_children(value: &JsonValue, start: usize, output: &mut Vec<UsageWindow>)
    requires
        start <= child_count(*value),
    ensures
        window_models(final(output)@) == window_models(old(output)@) + windows_in_children(
            *value,
            start as int,
        ),
    decreases *value, 0int, child_count(*value) - start,
{
    let n = value.child_count();
    if start >= n {
        assert(window_models(output@) =~= window_models(output@) + Seq::<WindowModel>::empty());
        return;
    }
    proof {
        lemma_child_decreases(*value, start as int);
    }
    let ghost before = output@;
    collect_windows_from_value(value.child(start), output);
    let ghost middle = output@;
    collect_children(value, start + 1, output);
    assert(window_models(output@) =~= window_models(before) + windows_in_children(
        *value,
        start as int,
    ));
}

/// All windows of a report (see `report_windows`).
fn collect_windows(root: &JsonValue) -> (res: Vec<UsageWindow>)
    ensures
        window_models(res@) == report_windows(*root),
{
    let mut windows: Vec<UsageWindow> = Vec::new();
    assert(window_models(windows@) =~= Seq::<WindowModel>::empty());
    if let Some(by_id) = root.get("rateLimitsByLimitId") {
        collect_windows_from_value(by_id, &mut windows);
    }
    assert(window_models(windows@) =~= windows_under(*root, "rateLimitsByLimitId"@));
    if windows.len() == 0 {
        if let Some(rate_limits) = root.get("rateLimits") {
            collect_windows_from_value(rate_limits, &mut windows);
        }
        assert(window_models(windows@) =~= windows_under(*root, "rateLimits"@));
    }
    let ghost base = window_models(windows@);
    let keys = ["primary", "secondary"];
    let mut k: usize = 0;
    while k < 2
        invariant
            k <= 2,
            keys@ == seq!["primary", "secondary"],
            window_models(windows@) == base + (if k >= 1 {
                direct_window(*root, "primary"@)
            } else {
                seq![]
            }) + (if k >= 2 {
                direct_window(*root, "secondary"@)
            } else {
                seq![]
            }),
        decreases 2 - k,
    {
        let ghost before = window_models(windows@);
        if let Some(x) = root.get(keys[k]) {
            if let Some(window) = parse_usage_window(x) {
                windows.push(window);
            }
        }
        assert(window_models(windows@) =~= before + direct_window(*root, keys@[k as int]@));
        k = k + 1;
    }
    windows
}

/// A copy of the first window named `name` (the list itself is left as it is).
pub fn take_named(windows: &Vec<UsageWindow>, name: &str) -> (res: Option<UsageWindow>)
    ensures
        opt_window(res) == first_named(window_models(windows@), name@),
{
    let n = windows.len();
    let mut i: usize = 0;
    while i < n
        invariant
            n == windows@.len(),
            i <= n,
            first_named(window_models(windows@), name@) == first_named_from(
                window_models(windows@),
                name@,
                i as int,
            ),
        decreases n - i,
    {
        if same_text(windows[i].name.as_str(), name) {
            return Some(windows[i].duplicate());
        }
        i = i + 1;
    }
    None
}

/// The plan of an account report: the first of `planType`, `plan_type`, `plan` found depth first
/// (inside `result` when the report has one).
pub fn parse_account_plan(value: &JsonValue) -> (res: Option<String>)
    ensures
        opt_text(res) == find_text(
            field_or_self(*value, "result"@),
            seq!["planType"@, "plan_type"@, "plan"@],
        ),
{
    let root = value.get_or_self("result");
    let keys = ["planType", "plan_type", "plan"];
    assert(key_seq(keys@) =~= seq!["planType"@, "plan_type"@, "plan"@]);
    root.find_text(&keys)
}

/// What a rate-limit report holds, as `parse_rate_limits` reads it.
pub open spec fn parsed_rate_limits_fit(value: JsonValue, res: ParsedRateLimits) -> bool {
    let root = field_or_self(value, "result"@);
    let ws = report_windows(root);
    &&& opt_window(res.five_hour) == first_named(ws, "5h"@)
    &&& opt_window(res.weekly) == first_named(ws, "weekly"@)
    &&& opt_text(res.plan_type) == find_text(root, seq!["planType"@, "plan_type"@])
    &&& opt_text(res.rate_limit_reached_type) == find_text(root, seq!["rateLimitReachedType"@])
}

/// Reads a rate-limit report: the first five-hour and the first weekly window among
/// `report_windows`, the plan, and which limit was reached.
pub fn parse_rate_limits(value: &JsonValue) -> (res: ParsedRateLimits)
    ensures
        parsed_rate_limits_fit(*value, res),
{
    let root = value.get_or_self("result");
    let windows = collect_windows(root);
    let five_hour = take_named(&windows, "5h");
    let weekly = take_named(&windows, "weekly");
    let plan_keys = ["planType", "plan_type"];
    assert(key_seq(plan_keys@) =~= seq!["planType"@, "plan_type"@]);
    let reached_keys = ["rateLimitReachedType"];
    assert(key_seq(reached_keys@) =~= seq!["rateLimitReachedType"@]);
    ParsedRateLimits {
        five_hour,
        weekly,
        plan_type: root.find_text(&plan_keys),
        rate_limit_reached_type: root.find_text(&reached_keys),
    }
}

/// What the desktop build reads from an account report.
#[derive(Debug, Clone)]
pub struct ParsedAccount {
    pub plan_type: Option<String>,
}

/// The plan of an account report as the desktop build reads it: the first of `planType`,
/// `plan_type`, `plan` that holds a string directly in the report (or in its `result`).
pub open spec fn account_plan_direct(value: JsonValue) -> Option<Seq<char>> {
    first_text_field_from(field_or_self(value, "result"@), seq!["planType"@, "plan_type"@, "plan"@], 0)
}

/// Reads an account report (see `account_plan_direct`); unlike `parse_account_plan` it does not
/// search nested values.
pub fn parse_account(value: &JsonValue) -> (res: ParsedAccount)
    ensures
        opt_text(res.plan_type) == account_plan_direct(*value),
{
    let root = value.get_or_self("result");
    let keys = ["planType", "plan_type", "plan"];
    assert(key_seq(keys@) =~= seq!["planType"@, "plan_type"@, "plan"@]);
    ParsedAccount { plan_type: root.first_text_field(&keys) }
}

} // verus!
