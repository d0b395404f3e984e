//! The desktop build's reading of the usage service's answers: the same shapes as in
//! `auth_json`, read under more key spellings, with the remaining and reset-credit counts, and
//! with credit times that may be given in milliseconds or as numeric text.
use vstd::prelude::*;

use crate::auth_json::{
    as_seconds, credit_time_pattern, lemma_first_percent_range, shares_follow, first_array_from, first_integer, first_integer_exec, first_percent, first_text,
    first_timestamp, percent_exec, plan_keys, prepare_request, reply_outcome, request_json,
    request_plan, status_keys, text_exec, timestamp_exec, title_keys, AuthInfo, AuthJsonError,
    AuthModel, HttpReply,
};
use crate::clock::{
    clock_pattern, instant_text_fits, rfc3339_accepts, rfc3339_local_text, rfc3339_seconds,
    timestamp_local_text, utc_timestamp_exists,
};
use crate::decimal::FULL_PERCENT;
use crate::json::{
    child, child_count, field, field_or_self, find_text, first_field, integer_or_text_of, key_seq,
    lemma_child_decreases, text_of, JsonValue,
};
use crate::model::{
    copy_opt_text, opt_text, opt_window, CreditItemModel, CreditsModel, ResetCreditItem,
    SnapshotStatus, UsageCredits, UsageWindow, WindowModel,
};
use crate::parser::{first_named, take_named, window_models};
use crate::percent::complement;
use crate::text::owned;

verus! {

pub open spec fn report_duration_keys() -> Seq<Seq<char>> {
    seq![
        "limit_window_seconds"@,
        "limitWindowSeconds"@,
        "windowDurationSeconds"@,
        "window_duration_seconds"@,
    ]
}

pub open spec fn report_used_keys() -> Seq<Seq<char>> {
    seq![
        "usedPercent"@,
        "used_percent"@,
        "usagePercent"@,
        "usage_percent"@,
        "currentUsagePercent"@,
    ]
}

pub open spec fn report_remaining_keys() -> Seq<Seq<char>> {
    seq![
        "remainingPercent"@,
        "remaining_percent"@,
        "remainingPercentage"@,
        "remaining_percentage"@,
    ]
}

pub open spec fn report_window_reset_keys() -> Seq<Seq<char>> {
    seq!["resetAt"@, "reset_at"@, "resetsAt"@, "resets_at"@, "expiresAt"@, "expires_at"@]
}

/// A window of the usage service: five hours or a week long by its length in seconds; the used
/// and the remaining share each default to the complement of the other.
pub open spec fn report_wham_window(v: JsonValue) -> Option<WindowModel> {
    match first_integer(v, report_duration_keys()) {
        None => None,
        Some(secs) => if secs != 18_000 && secs != 604_800 {
            None
        } else {
            let raw_used = first_percent(v, report_used_keys());
            let raw_remaining = first_percent(v, report_remaining_keys());
            let used: Option<int> = match raw_used {
                Some(u) => Some(u),
                None => match raw_remaining {
                    Some(r) => Some(FULL_PERCENT - r),
                    None => None,
                },
            };
            let remaining: Option<int> = match raw_remaining {
                Some(r) => Some(r),
                None => match used {
                    Some(u) => Some(FULL_PERCENT - u),
                    None => None,
                },
            };
            Some(
                WindowModel {
                    name: if secs == 18_000 {
                        "5h"@
                    } else {
                        "weekly"@
                    },
                    used_percent: match used {
                        Some(u) => Some(u as i64),
                        None => None,
                    },
                    remaining_percent: match remaining {
                        Some(r) => Some(r as i64),
                        None => None,
                    },
                    reset_at: match first_timestamp(v, report_window_reset_keys()) {
                        Some(r) => Some(r as i64),
                        None => None,
                    },
                    window_duration_seconds: Some(secs as i64),
                },
            )
        },
    }
}

/// A usage-service window of this report keeps the shares it is given, and a share it is not
/// given is the rest of 100% of the other (see `shares_follow`).
pub proof fn lemma_report_wham_shares(v: JsonValue)
    ensures
        report_wham_window(v) matches Some(w) ==> shares_follow(
            first_percent(v, report_used_keys()),
            first_percent(v, report_remaining_keys()),
            w,
        ),
{
    lemma_first_percent_range(v, report_used_keys());
    lemma_first_percent_range(v, report_remaining_keys());
}

/// Reads one window of the usage service (see `report_wham_window`).
pub fn parse_wham_window(value: &JsonValue) -> (res: Option<UsageWindow>)
    ensures
        opt_window(res) == report_wham_window(*value),
{
    let duration_names = [
        "limit_window_seconds",
        "limitWindowSeconds",
        "windowDurationSeconds",
        "window_duration_seconds",
    ];
    assert(key_seq(duration_names@) =~= report_duration_keys());
    let secs = match first_integer_exec(value, &duration_names) {
        Some(s) => s,
        None => {
            return None;
        },
    };
    let name = if secs == 18_000 {
        "5h"
    } else if secs == 604_800 {
        "weekly"
    } else {
        return None;
    };
    let used_names = [
        "usedPercent",
        "used_percent",
        "usagePercent",
        "usage_percent",
        "currentUsagePercent",
    ];
    assert(key_seq(used_names@) =~= report_used_keys());
    let remaining_names = [
        "remainingPercent",
        "remaining_percent",
        "remainingPercentage",
        "remaining_percentage",
    ];
    assert(key_seq(remaining_names@) =~= report_remaining_keys());
    let raw_used = percent_exec(value, &used_names);
    let raw_remaining = percent_exec(value, &remaining_names);
    let used = match raw_used {
        Some(u) => Some(u),
        None => match raw_remaining {
            Some(r) => Some(complement(r)),
            None => None,
        },
    };
    let remaining = match raw_remaining {
        Some(r) => Some(r),
        None => match used {
            Some(u) => Some(complement(u)),
            None => None,
        },
    };
    let reset_names = ["resetAt", "reset_at", "resetsAt", "resets_at", "expiresAt", "expires_at"];
    assert(key_seq(reset_names@) =~= report_window_reset_keys());
    Some(
        UsageWindow {
            name: owned(name),
            used_percent: used,
            remaining_percent: remaining,
            reset_at: timestamp_exec(value, &reset_names),
            window_duration_seconds: Some(secs),
        },
    )
}

/// Every usage-service window in `v`, depth first.
pub open spec fn report_wham_windows_in(v: JsonValue) -> Seq<WindowModel>
    decreases v, 1int, 0int,
{
    match report_wham_window(v) {
        Some(w) => seq![w],
        None => report_wham_windows_in_children(v, 0),
    }
}

/// `report_wham_windows_in` over the children of `v` from index `i` on, concatenated.
pub open spec fn report_wham_windows_in_children(v: JsonValue, i: int) -> Seq<WindowModel>
    decreases v, 0int, child_count(v) - i,
{
    if 0 <= i < child_count(v) {
        proof {
            lemma_child_decreases(v, i);
        }
        report_wham_windows_in(child(v, i)) + report_wham_windows_in_children(v, i + 1)
    } else {
        seq![]
    }
}

/// Appends `report_wham_windows_in(value)` to `output`.
fn collect_report_wham_windows(value: &JsonValue, output: &mut Vec<UsageWindow>)
    ensures
        window_models(final(output)@) == window_models(old(output)@) + report_wham_windows_in(
            *value,
        ),
    decreases *value, 1int, 0int,
{
    if let Some(window) = parse_wham_window(value) {
        let ghost before = output@;
        output.push(window);
        assert(window_models(output@) =~= window_models(before) + report_wham_windows_in(*value));
        return;
    }
    collect_report_wham_children(value, 0, output);
}

fn collect_report_wham_children(value: &JsonValue, start: usize, output: &mut Vec<UsageWindow>)
    requires
        start <= child_count(*value),
    ensures
        window_models(final(output)@) == window_models(old(output)@)
            + report_wham_windows_in_children(*value, start as int),
    decreases *value, 0int, child_count(*value) - start,
{
    let n = value.child_count();
    if start >= n {
        assert(window_models(output@) =~= window_models(output@) + Seq::<WindowModel>::empty());
        return;
    }
    proof {
        lemma_child_decreases(*value, start as int);
    }
    let ghost before = output@;
    collect_report_wham_windows(value.child(start), output);
    collect_report_wham_children(value, start + 1, output);
    assert(window_models(output@) =~= window_models(before) + report_wham_windows_in_children(
        *value,
        start as int,
    ));
}

pub open spec fn report_granted_keys() -> Seq<Seq<char>> {
    seq!["granted_at"@, "grantedAt"@, "created_at"@, "createdAt"@]
}

pub open spec fn report_expires_keys() -> Seq<Seq<char>> {
    seq!["expires_at"@, "expiresAt"@, "expiration_at"@, "expirationAt"@]
}

/// The instant that `first_value(value, keys)` names, when it can be written as local time: an
/// integer (a number, or numeric text) taken as a Unix timestamp in seconds or, above ten
/// billion, in milliseconds, when in range; otherwise the instant of an RFC 3339 text.
pub open spec fn report_time_instant(v: JsonValue, keys: Seq<Seq<char>>) -> Option<int> {
    match first_field(v, keys) {
        Some(x) => match integer_or_text_of(x) {
            Some(t) => if utc_timestamp_exists(as_seconds(t)) {
                Some(as_seconds(t))
            } else {
                None
            },
            None => match text_of(x) {
                Some(t) => if rfc3339_accepts(t) {
                    Some(rfc3339_seconds(t))
                } else {
                    None
                },
                None => None,
            },
        },
        None => None,
    }
}

/// Whether `first_value(value, keys)` is a time that can be written as local time (see
/// `report_time_instant`).
pub open spec fn report_time_present(v: JsonValue, keys: Seq<Seq<char>>) -> bool {
    report_time_instant(v, keys) is Some
}

/// `first_value(value, keys)` written as a local text of the instant it names (see
/// `report_time_instant`) with the pattern `pattern`.
fn report_local_time(value: &JsonValue, keys: &[&str], pattern: &str) -> (res: Option<String>)
    requires
        clock_pattern(pattern@),
    ensures
        instant_text_fits(report_time_instant(*value, key_seq(keys@)), opt_text(res), pattern@),
{
    match value.first_field(keys) {
        Some(x) => match x.integer_or_text() {
            Some(t) => {
                let seconds = if t > 10_000_000_000 {
                    t / 1000
                } else {
                    t
                };
                timestamp_local_text(seconds, pattern)
            },
            None => match x.as_text() {
                Some(t) => rfc3339_local_text(t.as_str(), pattern),
                None => None,
            },
        },
        None => None,
    }
}

/// Whether a listed credit carries anything at all; credits that do not are left out.
pub open spec fn report_credit_kept(v: JsonValue) -> bool {
    first_text(v, status_keys()).is_some() || first_text(v, title_keys()).is_some()
        || report_time_present(v, report_granted_keys()) || report_time_present(
        v,
        report_expires_keys(),
    )
}

/// How a credit reads: status and title exactly, the two times as local date-time texts that are
/// present exactly when the service gave a readable time.
pub open spec fn report_credit_fits(v: JsonValue, item: CreditItemModel) -> bool {
    &&& item.status == first_text(v, status_keys())
    &&& item.title == first_text(v, title_keys())
    &&& instant_text_fits(
        report_time_instant(v, report_granted_keys()),
        item.granted_at,
        credit_time_pattern(),
    )
    &&& instant_text_fits(
        report_time_instant(v, report_expires_keys()),
        item.expires_at,
        credit_time_pattern(),
    )
}

/// `items` are the kept credits of `values`, in order, each read as `report_credit_fits` says.
pub open spec fn report_credits_fit(values: Seq<JsonValue>, items: Seq<CreditItemModel>) -> bool
    decreases values.len(),
{
    if values.len() == 0 {
        items.len() == 0
    } else if report_credit_kept(values.last()) {
        items.len() > 0 && report_credit_fits(values.last(), items.last()) && report_credits_fit(
            values.drop_last(),
            items.drop_last(),
        )
    } else {
        report_credits_fit(values.drop_last(), items)
    }
}

/// Reads one listed credit.
fn parse_report_credit_item(value: &JsonValue) -> (res: Option<ResetCreditItem>)
    ensures
        match res {
            Some(item) => report_credit_kept(*value) && report_credit_fits(*value, item@),
            None => !report_credit_kept(*value),
        },
{
    let status_names = ["status", "state"];
    assert(key_seq(status_names@) =~= status_keys());
    let title_names = ["title", "displayTitle", "display_title", "name"];
    assert(key_seq(title_names@) =~= title_keys());
    let granted_names = ["granted_at", "grantedAt", "created_at", "createdAt"];
    assert(key_seq(granted_names@) =~= report_granted_keys());
    let expires_names = ["expires_at", "expiresAt", "expiration_at", "expirationAt"];
    assert(key_seq(expires_names@) =~= report_expires_keys());
    let item = ResetCreditItem {
        status: text_exec(value, &status_names),
        title: text_exec(value, &title_names),
        granted_at: report_local_time(value, &granted_names, "%Y-%m-%d %H:%M:%S"),
        expires_at: report_local_time(value, &expires_names, "%Y-%m-%d %H:%M:%S"),
    };
    if item.status.is_some() || item.title.is_some() || item.granted_at.is_some()
        || item.expires_at.is_some() {
        Some(item)
    } else {
        None
    }
}

/// The keys under which an object may list credits.
pub open spec fn report_credit_list_keys() -> Seq<Seq<char>> {
    seq![
        "credits"@,
        "items"@,
        "data"@,
        "resetCredits"@,
        "reset_credits"@,
        "rateLimitResetCredits"@,
    ]
}

/// The list of credits in `v`: `v` itself when it is an array, else the first array under one
/// of `report_credit_list_keys`; empty when there is none.
pub open spec fn report_credit_values(v: JsonValue) -> Seq<JsonValue> {
    match v {
        JsonValue::Array(items) => items@,
        JsonValue::Object(_) => match first_array_from(v, report_credit_list_keys(), 0) {
            Some(items) => items,
            None => seq![],
        },
        _ => seq![],
    }
}

/// The models of a list of credits.
pub open spec fn report_credit_models(items: Seq<ResetCreditItem>) -> Seq<CreditItemModel> {
    items.map_values(|i: ResetCreditItem| i@)
}

/// Appends the kept credits of `value` to `output`.
fn collect_report_credit_items(
    value: &JsonValue,
    Ghost(seen): Ghost<Seq<JsonValue>>,
    output: &mut Vec<ResetCreditItem>,
)
    requires
        report_credits_fit(seen, report_credit_models(old(output)@)),
    ensures
        report_credits_fit(seen + report_credit_values(*value), report_credit_models(final(output)@)),
{
    let list: Option<&Vec<JsonValue>> = match value {
        JsonValue::Array(items) => Some(items),
        JsonValue::Object(_) => {
            let names = [
                "credits",
                "items",
                "data",
                "resetCredits",
                "reset_credits",
                "rateLimitResetCredits",
            ];
            assert(key_seq(names@) =~= report_credit_list_keys());
            let mut found: Option<&Vec<JsonValue>> = None;
            let mut k: usize = 0;
            while k < 6
                invariant_except_break
                    found.is_none(),
                invariant
                    k <= 6,
                    key_seq(names@) == report_credit_list_keys(),
                    names@.len() == 6,
                    first_array_from(*value, report_credit_list_keys(), 0) == first_array_from(
                        *value,
                        report_credit_list_keys(),
                        k as int,
                    ),
                ensures
                    match found {
                        Some(items) => first_array_from(*value, report_credit_list_keys(), 0)
                            == Some(items@),
                        None => first_array_from(*value, report_credit_list_keys(), 0).is_none(),
                    },
                decreases 6 - k,
            {
                if let Some(JsonValue::Array(items)) = value.get(names[k]) {
                    found = Some(items);
                    break;
                }
                k = k + 1;
            }
            found
        },
        _ => None,
    };
    let items = match list {
        Some(items) => items,
        None => {
            assert(seen + report_credit_values(*value) =~= seen);
            return;
        },
    };
    assert(items@ == report_credit_values(*value));
    let n = items.len();
    let mut i: usize = 0;
    while i < n
        invariant
            n == items@.len(),
            i <= n,
            report_credits_fit(seen + items@.subrange(0, i as int), report_credit_models(output@)),
        decreases n - i,
    {
        let ghost before = output@;
        let parsed = parse_report_credit_item(&items[i]);
        let ghost values = seen + items@.subrange(0, i + 1);
        assert(values.drop_last() =~= seen + items@.subrange(0, i as int));
        assert(values.last() == items@[i as int]);
        if let Some(item) = parsed {
            output.push(item);
            assert(report_credit_models(output@).drop_last() =~= report_credit_models(before));
        } else {
            assert(report_credit_models(output@) =~= report_credit_models(before));
        }
        i = i + 1;
    }
    assert(items@.subrange(0, n as int) =~= items@);
}

pub open spec fn report_remaining_count_keys() -> Seq<Seq<char>> {
    seq!["remaining"@, "remainingCount"@]
}

pub open spec fn report_available_keys() -> Seq<Seq<char>> {
    seq!["available_count"@, "availableCount"@, "available"@, "availableCredits"@]
}

pub open spec fn report_reset_credit_keys() -> Seq<Seq<char>> {
    seq!["availableCount"@, "available_count"@, "resetCredits"@, "reset_credits"@]
}

pub open spec fn report_credits_reset_keys() -> Seq<Seq<char>> {
    seq!["resetAt"@, "reset_at"@, "resetsAt"@, "resets_at"@]
}

/// The reset credits of a usage-service answer: counts, reset time and listed credits.
#[derive(Debug)]
pub struct ReportResetCredits {
    pub remaining: Option<i64>,
    pub available_count: Option<i64>,
    pub reset_credits: Option<i64>,
    pub reset_at: Option<i64>,
    pub items: Vec<ResetCreditItem>,
}

impl ReportResetCredits {
    /// These credits as a snapshot holds them: the available count, the reset-credit count, the
    /// reset time and the listed credits.
    pub fn into_usage_credits(self) -> (res: UsageCredits)
        ensures
            res@ == (CreditsModel {
                available_count: self.available_count,
                reset_credits: self.reset_credits,
                reset_at: self.reset_at,
                items: report_credit_models(self.items@),
            }),
    {
        UsageCredits {
            available_count: self.available_count,
            reset_credits: self.reset_credits,
            reset_at: self.reset_at,
            items: self.items,
        }
    }
}

/// The credit listings of a credits document: those of its root (inside `result` when present),
/// then, when the root has a `rateLimitResetCredits` entry, those of that entry.
pub open spec fn report_credit_listing(value: JsonValue) -> Seq<JsonValue> {
    let root = field_or_self(value, "result"@);
    match field(root, "rateLimitResetCredits"@) {
        Some(count_root) => report_credit_values(root) + report_credit_values(count_root),
        None => report_credit_values(root),
    }
}

/// The entry that holds the counts: `rateLimitResetCredits` when present, else the root.
pub open spec fn report_count_root(value: JsonValue) -> JsonValue {
    field_or_self(field_or_self(value, "result"@), "rateLimitResetCredits"@)
}

/// An optional integer narrowed to an `i64` (the integers read from JSON always fit).
pub open spec fn narrowed(o: Option<int>) -> Option<i64> {
    match o {
        Some(n) => Some(n as i64),
        None => None,
    }
}

/// Whether a credits document says anything: a count, a reset time, or a kept credit.
pub open spec fn report_credits_present(value: JsonValue) -> bool {
    let c = report_count_root(value);
    first_integer(c, report_remaining_count_keys()).is_some() || first_integer(
        c,
        report_available_keys(),
    ).is_some() || first_integer(c, report_reset_credit_keys()).is_some() || first_timestamp(
        c,
        report_credits_reset_keys(),
    ).is_some() || exists|i: int|
        0 <= i < report_credit_listing(value).len() && report_credit_kept(
            #[trigger] report_credit_listing(value)[i],
        )
}

/// How `parse_reset_credits` reads a credits document.
pub open spec fn report_reset_credits_fit(value: JsonValue, res: Option<ReportResetCredits>) -> bool {
    let c = report_count_root(value);
    match res {
        None => !report_credits_present(value),
        Some(r) => {
            &&& report_credits_present(value)
            &&& r.remaining == narrowed(first_integer(c, report_remaining_count_keys()))
            &&& r.available_count == narrowed(first_integer(c, report_available_keys()))
            &&& r.reset_credits == narrowed(first_integer(c, report_reset_credit_keys()))
            &&& r.reset_at == narrowed(first_timestamp(c, report_credits_reset_keys()))
            &&& report_credits_fit(report_credit_listing(value), report_credit_models(r.items@))
        },
    }
}

proof fn lemma_report_credits_fit_empty(values: Seq<JsonValue>, items: Seq<CreditItemModel>)
    requires
        report_credits_fit(values, items),
    ensures
        (items.len() == 0) == (forall|i: int|
            0 <= i < values.len() ==> !report_credit_kept(#[trigger] values[i])),
    decreases values.len(),
{
    if values.len() > 0 {
        lemma_report_credits_fit_empty(
            values.drop_last(),
            if report_credit_kept(values.last()) {
                items.drop_last()
            } else {
                items
            },
        );
        if report_credit_kept(values.last()) {
            assert(!(forall|i: int|
                0 <= i < values.len() ==> !report_credit_kept(#[trigger] values[i]))) by {
                assert(report_credit_kept(values[values.len() - 1]));
            }
        } else {
            if forall|i: int|
                0 <= i < values.drop_last().len() ==> !report_credit_kept(
                    #[trigger] values.drop_last()[i],
                ) {
                assert forall|i: int| 0 <= i < values.len() implies !report_credit_kept(
                    #[trigger] values[i],
                ) by {
                    if i < values.len() - 1 {
                        assert(values[i] == values.drop_last()[i]);
                    }
                }
            }
            if forall|i: int| 0 <= i < values.len() ==> !report_credit_kept(#[trigger] values[i]) {
                assert forall|i: int|
                    0 <= i < values.drop_last().len() implies !report_credit_kept(
                    #[trigger] values.drop_last()[i],
                ) by {
                    assert(values[i] == values.drop_last()[i]);
                }
            }
        }
    }
}

/// Reads a credits document: the counts and reset time from `report_count_root`, and the kept
/// credits of `report_credit_listing`; nothing when none of these is there.
pub fn parse_reset_credits(value: &JsonValue) -> (res: Option<ReportResetCredits>)
    ensures
        report_reset_credits_fit(*value, res),
{
    let root = value.get_or_self("result");
    let count = root.get("rateLimitResetCredits");
    let mut items: Vec<ResetCreditItem> = Vec::new();
    assert(report_credits_fit(Seq::<JsonValue>::empty(), report_credit_models(items@)));
    collect_report_credit_items(root, Ghost(Seq::<JsonValue>::empty()), &mut items);
    assert(Seq::<JsonValue>::empty() + report_credit_values(*root) =~= report_credit_values(*root));
    let count_root_value = match count {
        Some(c) => {
            collect_report_credit_items(c, Ghost(report_credit_values(*root)), &mut items);
            c
        },
        None => root,
    };
    assert(*count_root_value == report_count_root(*value));
    assert(report_credits_fit(report_credit_listing(*value), report_credit_models(items@)));
    let remaining_names = ["remaining", "remainingCount"];
    assert(key_seq(remaining_names@) =~= report_remaining_count_keys());
    let available_names = ["available_count", "availableCount", "available", "availableCredits"];
    assert(key_seq(available_names@) =~= report_available_keys());
    let reset_credit_names = ["availableCount", "available_count", "resetCredits", "reset_credits"];
    assert(key_seq(reset_credit_names@) =~= report_reset_credit_keys());
    let reset_names = ["resetAt", "reset_at", "resetsAt", "resets_at"];
    assert(key_seq(reset_names@) =~= report_credits_reset_keys());
    let remaining = first_integer_exec(count_root_value, &remaining_names);
    let available_count = first_integer_exec(count_root_value, &available_names);
    let reset_credits = first_integer_exec(count_root_value, &reset_credit_names);
    let reset_at = timestamp_exec(count_root_value, &reset_names);
    proof {
        lemma_report_credits_fit_empty(report_credit_listing(*value), report_credit_models(items@));
    }
    if remaining.is_some() || available_count.is_some() || reset_credits.is_some()
        || reset_at.is_some() || items.len() > 0 {
        Some(ReportResetCredits { remaining, available_count, reset_credits, reset_at, items })
    } else {
        None
    }
}

/// What the desktop build reads from a usage-service answer.
#[derive(Debug)]
pub struct UsageReport {
    pub five_hour: Option<UsageWindow>,
    pub weekly: Option<UsageWindow>,
    pub plan_type: Option<String>,
    pub rate_limit_reached_type: Option<String>,
    pub credits: Option<ReportResetCredits>,
}

/// How `parse_wham_usage` reads an answer (inside `result` when it has one): the first
/// five-hour and weekly windows found depth first, the plan and the reached limit found depth
/// first, and the reset credits it carries.
pub open spec fn report_usage_fits(value: JsonValue, res: UsageReport) -> bool {
    let root = field_or_self(value, "result"@);
    let ws = report_wham_windows_in(root);
    &&& opt_window(res.five_hour) == first_named(ws, "5h"@)
    &&& opt_window(res.weekly) == first_named(ws, "weekly"@)
    &&& opt_text(res.plan_type) == find_text(root, plan_keys())
    &&& opt_text(res.rate_limit_reached_type) == find_text(root, seq!["rateLimitReachedType"@])
    &&& report_reset_credits_fit(root, res.credits)
}

/// Reads a usage-service answer (see `report_usage_fits`).
pub fn parse_wham_usage(value: &JsonValue) -> (res: UsageReport)
    ensures
        report_usage_fits(*value, res),
{
    let root = value.get_or_self("result");
    let mut windows: Vec<UsageWindow> = Vec::new();
    assert(window_models(windows@) =~= Seq::<WindowModel>::empty());
    collect_report_wham_windows(root, &mut windows);
    assert(window_models(windows@) =~= report_wham_windows_in(*root));
    let plan_names = ["plan_type", "planType", "plan"];
    assert(key_seq(plan_names@) =~= plan_keys());
    let reached_names = ["rateLimitReachedType"];
    assert(key_seq(reached_names@) =~= seq!["rateLimitReachedType"@]);
    let credits = parse_reset_credits(root);
    UsageReport {
        five_hour: take_named(&windows, "5h"),
        weekly: take_named(&windows, "weekly"),
        plan_type: root.find_text(&plan_names),
        rate_limit_reached_type: root.find_text(&reached_names),
        credits,
    }
}

/// Whether the credits reply brings credits of its own: it was read and says anything.
pub open spec fn fresh_report_credits(credits: HttpReply) -> bool {
    match reply_outcome(credits) {
        Ok(v) => report_credits_present(v),
        Err(_) => false,
    }
}

/// How the desktop build reads the login and the replies of the usage and credits requests: a
/// refused login in either reply refuses the whole; a failed usage request still reports the
/// credits and the plan of the login, with a failed status; fresh credits win over those of the
/// usage answer, and the plan of the login stands in for one that the answer lacks.
pub open spec fn report_fetch_fits(
    auth: AuthModel,
    usage: HttpReply,
    credits: HttpReply,
    res: Result<(SnapshotStatus, UsageReport), AuthJsonError>,
) -> bool {
    let u = reply_outcome(usage);
    let c = reply_outcome(credits);
    if u == Err::<JsonValue, AuthJsonError>(AuthJsonError::InvalidAuth) || c == Err::<
        JsonValue,
        AuthJsonError,
    >(AuthJsonError::InvalidAuth) {
        res matches Err(e) && e == AuthJsonError::InvalidAuth
    } else {
        match res {
            Err(_) => false,
            Ok((status, r)) => {
                &&& match c {
                    Ok(v) => report_credits_present(v) ==> report_reset_credits_fit(v, r.credits),
                    Err(_) => true,
                }
                &&& match u {
                    Ok(v) => {
                        let root = field_or_self(v, "result"@);
                        let ws = report_wham_windows_in(root);
                        &&& status == SnapshotStatus::Success
                        &&& opt_window(r.five_hour) == first_named(ws, "5h"@)
                        &&& opt_window(r.weekly) == first_named(ws, "weekly"@)
                        &&& opt_text(r.rate_limit_reached_type) == find_text(
                            root,
                            seq!["rateLimitReachedType"@],
                        )
                        &&& !fresh_report_credits(credits) ==> report_reset_credits_fit(
                            root,
                            r.credits,
                        )
                        &&& opt_text(r.plan_type) == match find_text(root, plan_keys()) {
                            Some(p) => Some(p),
                            None => auth.plan_type,
                        }
                    },
                    Err(_) => {
                        &&& status == SnapshotStatus::RequestFailed
                        &&& r.five_hour is None
                        &&& r.weekly is None
                        &&& r.rate_limit_reached_type is None
                        &&& opt_text(r.plan_type) == auth.plan_type
                        &&& !fresh_report_credits(credits) ==> r.credits is None
                    },
                }
            },
        }
    }
}

/// Makes the desktop build's usage report from the login and the two replies (see
/// `report_fetch_fits`).
pub fn fetch_report(auth: &AuthInfo, usage: &HttpReply, credits: &HttpReply) -> (res: Result<
    (SnapshotStatus, UsageReport),
    AuthJsonError,
>)
    ensures
        report_fetch_fits(auth@, *usage, *credits, res),
{
    let usage_json = request_json(usage);
    let credits_json = request_json(credits);
    let usage_refused = match &usage_json {
        Err(AuthJsonError::InvalidAuth) => true,
        _ => false,
    };
    let credits_refused = match &credits_json {
        Err(AuthJsonError::InvalidAuth) => true,
        _ => false,
    };
    if usage_refused || credits_refused {
        return Err(AuthJsonError::InvalidAuth);
    }
    let parsed_credits = match credits_json {
        Ok(v) => parse_reset_credits(v),
        Err(_) => None,
    };
    match usage_json {
        Err(_) => Ok(
            (
                SnapshotStatus::RequestFailed,
                UsageReport {
                    five_hour: None,
                    weekly: None,
                    plan_type: copy_opt_text(&auth.plan_type),
                    rate_limit_reached_type: None,
                    credits: parsed_credits,
                },
            ),
        ),
        Ok(v) => {
            let mut report = parse_wham_usage(v);
            if parsed_credits.is_some() {
                report.credits = parsed_credits;
            }
            if report.plan_type.is_none() {
                report.plan_type = copy_opt_text(&auth.plan_type);
            }
            Ok((SnapshotStatus::Success, report))
        },
    }
}

/// Reads the desktop build's usage report from the login file (`None` when it is missing or not
/// JSON) and the replies of the usage and credits requests: the login must be usable (see
/// `request_plan`), then `report_fetch_fits` decides.
pub fn read_auth_json_snapshot(
    document: &Option<JsonValue>,
    usage: &HttpReply,
    credits: &HttpReply,
) -> (res: Result<(SnapshotStatus, UsageReport), AuthJsonError>)
    ensures
        match request_plan(*document) {
            Err(e) => res matches Err(r) && r == e,
            Ok((a, _)) => report_fetch_fits(a, *usage, *credits, res),
        },
{
    match prepare_request(document) {
        Err(e) => Err(e),
        Ok((auth, _)) => fetch_report(&auth, usage, credits),
    }
}

/// Reads the desktop build's reset credits from the login file and the reply of the credits
/// request.
pub fn read_auth_json_credits(document: &Option<JsonValue>, credits: &HttpReply) -> (res: Result<
    Option<ReportResetCredits>,
    AuthJsonError,
>)
    ensures
        match request_plan(*document) {
            Err(e) => res matches Err(r) && r == e,
            Ok(_) => match reply_outcome(*credits) {
                Err(e) => res matches Err(r) && r == e,
                Ok(v) => res matches Ok(c) && report_reset_credits_fit(v, c),
            },
        },
{
    prepare_request(document)?;
    let value = request_json(credits)?;
    Ok(parse_reset_credits(value))
}

} // verus!
