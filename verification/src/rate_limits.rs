//! The desktop build's reading of the app-server's rate-limit report: any entry with a duration,
//! a used share or a reset time is a window, windows are also looked for under `primary`,
//! `secondary` and `rateLimits`, and the reset credits come with the report.
use vstd::prelude::*;

use crate::decimal::FULL_PERCENT;
use crate::json::{
    child, child_count, decimal_value_of, field, field_or_self, first_text_field_from, integer_of,
    key_seq, lemma_child_decreases, lemma_field_decreases, JsonValue,
};
use crate::model::{opt_text, opt_window, UsageWindow, WindowModel};
use crate::parser::{first_named, integer_field, take_named, window_models};
use crate::percent::{clamp_percent, clamped, complement};

verus! {

/// The label of a window by its duration in minutes: about five hours, about a week, or other.
pub open spec fn duration_label(mins: Option<int>) -> Seq<char> {
    match mins {
        Some(m) => if 240 <= m <= 360 {
            "5h"@
        } else if 9000 <= m <= 11000 {
            "weekly"@
        } else {
            "other"@
        },
        None => "other"@,
    }
}

/// The used share of an entry, as a decimal, when it has a numeric `usedPercent`.
pub open spec fn used_share(v: JsonValue) -> Option<int> {
    match field(v, "usedPercent"@) {
        Some(x) => match decimal_value_of(x) {
            Some(d) => Some(clamped(d)),
            None => None,
        },
        None => None,
    }
}

/// An entry is a window when it has a numeric duration, used share or reset time. The used
/// share is held within `[0, 100]` and the remaining share is its complement; the duration is
/// given in seconds when that fits in an `i64`.
pub open spec fn report_window(v: JsonValue) -> Option<WindowModel> {
    let mins = integer_field(v, "windowDurationMins"@);
    let used = used_share(v);
    let reset = integer_field(v, "resetsAt"@);
    if mins is None && used is None && reset is None {
        None
    } else {
        Some(
            WindowModel {
                name: duration_label(mins),
                used_percent: match used {
                    Some(u) => Some(u as i64),
                    None => None,
                },
                remaining_percent: match used {
                    Some(u) => Some((FULL_PERCENT - u) as i64),
                    None => None,
                },
                reset_at: match reset {
                    Some(r) => Some(r as i64),
                    None => None,
                },
                window_duration_seconds: match mins {
                    Some(m) => if i64::MIN <= m * 60 <= i64::MAX {
                        Some((m * 60) as i64)
                    } else {
                        None
                    },
                    None => None,
                },
            },
        )
    }
}

/// The window that `v[key]` is, as a one-element or empty list.
pub open spec fn report_window_at(v: JsonValue, key: Seq<char>) -> Seq<WindowModel> {
    match field(v, key) {
        Some(x) => match report_window(x) {
            Some(w) => seq![w],
            None => seq![],
        },
        None => seq![],
    }
}

/// Every window in `v`: `v` itself when it is a window; otherwise its `primary` and `secondary`
/// windows, then the windows under its `rateLimits` when it has that entry, or else those of all
/// its children in order.
pub open spec fn report_windows_in(v: JsonValue) -> Seq<WindowModel>
    decreases v, 1int, 0int,
{
    match report_window(v) {
        Some(w) => seq![w],
        None => report_window_at(v, "primary"@) + report_window_at(v, "secondary"@) + match field(
            v,
            "rateLimits"@,
        ) {
            Some(x) => {
                proof {
                    lemma_field_decreases(v, "rateLimits"@);
                }
                report_windows_in(x)
            },
            None => report_windows_in_children(v, 0),
        },
    }
}

/// `report_windows_in` over the children of `v` from index `i` on, concatenated.
pub open spec fn report_windows_in_children(v: JsonValue, i: int) -> Seq<WindowModel>
    decreases v, 0int, child_count(v) - i,
{
    if 0 <= i < child_count(v) {
        proof {
            lemma_child_decreases(v, i);
        }
        report_windows_in(child(v, i)) + report_windows_in_children(v, i + 1)
    } else {
        seq![]
    }
}

/// The windows found under `key`, or none when `root` has no such entry.
pub open spec fn report_windows_under(root: JsonValue, key: Seq<char>) -> Seq<WindowModel> {
    match field(root, key) {
        Some(x) => report_windows_in(x),
        None => seq![],
    }
}

/// All windows of a report: those under `rateLimitsByLimitId`, or, when there are none, those
/// under `rateLimits`; then the `primary` and `secondary` windows of the root.
pub open spec fn all_report_windows(root: JsonValue) -> Seq<WindowModel> {
    let by_id = report_windows_under(root, "rateLimitsByLimitId"@);
    let base = if by_id.len() == 0 {
        report_windows_under(root, "rateLimits"@)
    } else {
        by_id
    };
    base + report_window_at(root, "primary"@) + report_window_at(root, "secondary"@)
}

/// The reset credits that come with a report.
#[derive(Debug, Clone, Copy, PartialEq, Eq, Structural)]
pub struct ReportCredits {
    pub remaining: Option<i64>,
    pub available_count: Option<i64>,
    pub reset_credits: Option<i64>,
    pub reset_at: Option<i64>,
}

/// The integer under `first`, or, when there is no such entry, under `second`.
pub open spec fn integer_field_or(v: JsonValue, first: Seq<char>, second: Seq<char>) -> Option<int> {
    match field(v, first) {
        Some(x) => integer_of(x),
        None => integer_field(v, second),
    }
}

/// An optional integer narrowed to an `i64` (the integers read from JSON always fit).
pub open spec fn opt_i64(o: Option<int>) -> Option<i64> {
    match o {
        Some(n) => Some(n as i64),
        None => None,
    }
}

/// The credits of a credits entry: `remaining`, `availableCount`, the reset credits as
/// `availableCount` or else `resetCredits`, and the reset time as `resetAt` or else `resetsAt`.
pub open spec fn report_credits(v: JsonValue) -> ReportCredits {
    ReportCredits {
        remaining: opt_i64(integer_field(v, "remaining"@)),
        available_count: opt_i64(integer_field(v, "availableCount"@)),
        reset_credits: opt_i64(integer_field_or(v, "availableCount"@, "resetCredits"@)),
        reset_at: opt_i64(integer_field_or(v, "resetAt"@, "resetsAt"@)),
    }
}

/// What the desktop build reads from a rate-limit report.
#[derive(Debug)]
pub struct ParsedRateLimits {
    pub five_hour: Option<UsageWindow>,
    pub weekly: Option<UsageWindow>,
    pub credits: Option<ReportCredits>,
    pub plan_type: Option<String>,
    pub rate_limit_reached_type: Option<String>,
}

/// What `parse_rate_limits` reads from a report (inside `result` when it has one): the first
/// five-hour and the first weekly window of `all_report_windows`; the credits of
/// `rateLimitResetCredits`, or else of `credits`; the plan and the reached limit as strings held
/// directly in the report.
pub open spec fn rate_limits_fit(value: JsonValue, res: ParsedRateLimits) -> bool {
    let root = field_or_self(value, "result"@);
    let ws = all_report_windows(root);
    &&& opt_window(res.five_hour) == first_named(ws, "5h"@)
    &&& opt_window(res.weekly) == first_named(ws, "weekly"@)
    &&& res.credits == match field(root, "rateLimitResetCredits"@) {
        Some(c) => Some(report_credits(c)),
        None => match field(root, "credits"@) {
            Some(c) => Some(report_credits(c)),
            None => None,
        },
    }
    &&& opt_text(res.plan_type) == first_text_field_from(root, seq!["planType"@, "plan_type"@], 0)
    &&& opt_text(res.rate_limit_reached_type) == first_text_field_from(
        root,
        seq!["rateLimitReachedType"@],
        0,
    )
}

/// Reads an entry as a window (see `report_window`).
pub fn parse_usage_window(value: &JsonValue) -> (res: Option<UsageWindow>)
    ensures
        opt_window(res) == report_window(*value),
{
    let mins = match value.get("windowDurationMins") {
        Some(x) => x.integer(),
        None => None,
    };
    let used = match value.get("usedPercent") {
        Some(x) => match x.decimal() {
            Some(d) => Some(clamp_percent(&d)),
            None => None,
        },
        None => None,
    };
    let reset_at = match value.get("resetsAt") {
        Some(x) => x.integer(),
        None => None,
    };
    if mins.is_none() && used.is_none() && reset_at.is_none() {
        return None;
    }
    let label = match mins {
        Some(m) => if 240 <= m && m <= 360 {
            "5h"
        } else if 9000 <= m && m <= 11000 {
            "weekly"
        } else {
            "other"
        },
        None => "other",
    };
    let remaining = match used {
        Some(u) => Some(complement(u)),
        None => None,
    };
    let seconds = match mins {
        Some(m) => m.checked_mul(60),
        None => None,
    };
    Some(
        UsageWindow {
            name: crate::text::owned(label),
            used_percent: used,
            remaining_percent: remaining,
            reset_at,
            window_duration_seconds: seconds,
        },
    )
}

/// Appends the window that `value[key]` is, if any.
fn push_window_at(value: &JsonValue, key: &str, output: &mut Vec<UsageWindow>)
    ensures
        window_models(final(output)@) == window_models(old(output)@) + report_window_at(
            *value,
            key@,
        ),
{
    let ghost before = output@;
    if let Some(x) = value.get(key) {
        if let Some(window) = parse_usage_window(x) {
            output.push(window);
        }
    }
    assert(window_models(output@) =~= window_models(before) + report_window_at(*value, key@));
}

/// Appends `report_windows_in(value)` to `output`.
fn collect_report_windows(value: &JsonValue, output: &mut Vec<UsageWindow>)
    ensures
        window_models(final(output)@) == window_models(old(output)@) + report_windows_in(*value),
    decreases *value, 1int, 0int,
{
    let ghost before = output@;
    if let Some(window) = parse_usage_window(value) {
        output.push(window);
        assert(window_models(output@) =~= window_models(before) + report_windows_in(*value));
        return;
    }
    push_window_at(value, "primary", output);
    push_window_at(value, "secondary", output);
    let ghost middle = output@;
    match value.get("rateLimits") {
        Some(rate_limits) => {
            proof {
                lemma_field_decreases(*value, "rateLimits"@);
            }
            collect_report_windows(rate_limits, output);
        },
        None => {
            collect_report_children(value, 0, output);
        },
    }
    assert(window_models(output@) =~= window_models(before) + report_windows_in(*value));
}

/// Appends `report_windows_in_children(value, start)` to `output`.
fn collect_report_children(value: &JsonValue, start: usize, output: &mut Vec<UsageWindow>)
    requires
        start <= child_count(*value),
    ensures
        window_models(final(output)@) == window_models(old(output)@) + report_windows_in_children(
            *value,
            start as int,
        ),
    decreases *value, 0int, child_count(*value) - start,
{
    let n = value.child_count();
    if start >= n {
        assert(window_models(output@) =~= window_models(output@) + Seq::<WindowModel>::empty());
        return;
    }
    proof {
        lemma_child_decreases(*value, start as int);
    }
    let ghost before = output@;
    collect_report_windows(value.child(start), output);
    collect_report_children(value, start + 1, output);
    assert(window_models(output@) =~= window_models(before) + report_windows_in_children(
        *value,
        start as int,
    ));
}

/// All windows of a report (see `all_report_windows`).
fn collect_all_report_windows(root: &JsonValue) -> (res: Vec<UsageWindow>)
    ensures
        window_models(res@) == all_report_windows(*root),
{
    let mut windows: Vec<UsageWindow> = Vec::new();
    assert(window_models(windows@) =~= Seq::<WindowModel>::empty());
    if let Some(by_id) = root.get("rateLimitsByLimitId") {
        collect_report_windows(by_id, &mut windows);
    }
    assert(window_models(windows@) =~= report_windows_under(*root, "rateLimitsByLimitId"@));
    if windows.len() == 0 {
        if let Some(rate_limits) = root.get("rateLimits") {
            collect_report_windows(rate_limits, &mut windows);
        }
        assert(window_models(windows@) =~= report_windows_under(*root, "rateLimits"@));
    }
    push_window_at(root, "primary", &mut windows);
    push_window_at(root, "secondary", &mut windows);
    windows
}

/// The integer under `first`, or, when there is no such entry, under `second`.
fn integer_at_or(value: &JsonValue, first: &str, second: &str) -> (res: Option<i64>)
    ensures
        res == opt_i64(integer_field_or(*value, first@, second@)),
{
    match value.get(first) {
        Some(x) => x.integer(),
        None => match value.get(second) {
            Some(x) => x.integer(),
            None => None,
        },
    }
}

/// Reads a credits entry (see `report_credits`).
pub fn parse_reset_credits(value: &JsonValue) -> (res: ReportCredits)
    ensures
        res == report_credits(*value),
{
    let remaining = match value.get("remaining") {
        Some(x) => x.integer(),
        None => None,
    };
    let available_count = match value.get("availableCount") {
        Some(x) => x.integer(),
        None => None,
    };
    ReportCredits {
        remaining,
        available_count,
        reset_credits: integer_at_or(value, "availableCount", "resetCredits"),
        reset_at: integer_at_or(value, "resetAt", "resetsAt"),
    }
}

/// Reads a rate-limit report as the desktop build does (see `rate_limits_fit`).
pub fn parse_rate_limits(value: &JsonValue) -> (res: ParsedRateLimits)
    ensures
        rate_limits_fit(*value, res),
{
    let root = value.get_or_self("result");
    let windows = collect_all_report_windows(root);
    let five_hour = take_named(&windows, "5h");
    let weekly = take_named(&windows, "weekly");
    let credits = match root.get("rateLimitResetCredits") {
        Some(c) => Some(parse_reset_credits(c)),
        None => match root.get("credits") {
            Some(c) => Some(parse_reset_credits(c)),
            None => None,
        },
    };
    let plan_keys = ["planType", "plan_type"];
    assert(key_seq(plan_keys@) =~= seq!["planType"@, "plan_type"@]);
    let reached_keys = ["rateLimitReachedType"];
    assert(key_seq(reached_keys@) =~= seq!["rateLimitReachedType"@]);
    ParsedRateLimits {
        five_hour,
        weekly,
        credits,
        plan_type: root.first_text_field(&plan_keys),
        rate_limit_reached_type: root.first_text_field(&reached_keys),
    }
}

} // verus!
