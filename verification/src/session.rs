//! Token usage read from Codex session logs: each token-count event gives the tokens used since
//! the one before, and the tokens are summed per day.
use vstd::prelude::*;

use crate::clock::{rfc3339_accepts, rfc3339_local_day, rfc3339_seconds, utc_day};
use crate::json::{field, integer_of, text_field, JsonValue};

verus! {

/// Token counts of one event or one stretch of events.
#[derive(Debug, Clone, Copy, PartialEq, Eq, Structural)]
pub struct UsageTotals {
    pub input_tokens: i64,
    pub cached_input_tokens: i64,
    pub cache_creation_input_tokens: i64,
    pub output_tokens: i64,
    pub reasoning_output_tokens: i64,
    pub total_tokens: i64,
}

/// The count stored under `key`: a number read as an integer, never below zero; zero when
/// missing or not a number.
pub open spec fn count_at(v: JsonValue, key: Seq<char>) -> int {
    match field(v, key) {
        Some(x) => match integer_of(x) {
            Some(n) => if n < 0 {
                0
            } else {
                n
            },
            None => 0,
        },
        None => 0,
    }
}

/// The counts of a token-usage entry.
pub open spec fn totals_of(v: JsonValue) -> UsageTotals {
    UsageTotals {
        input_tokens: count_at(v, "input_tokens"@) as i64,
        cached_input_tokens: count_at(v, "cached_input_tokens"@) as i64,
        cache_creation_input_tokens: count_at(v, "cache_creation_input_tokens"@) as i64,
        output_tokens: count_at(v, "output_tokens"@) as i64,
        reasoning_output_tokens: count_at(v, "reasoning_output_tokens"@) as i64,
        total_tokens: count_at(v, "total_tokens"@) as i64,
    }
}

/// Reads one count (see `count_at`).
fn number_at(value: &JsonValue, key: &str) -> (res: i64)
    ensures
        res as int == count_at(*value, key@),
        res >= 0,
{
    match value.get(key) {
        Some(x) => match x.integer() {
            Some(n) => if n < 0 {
                0
            } else {
                n
            },
            None => 0,
        },
        None => 0,
    }
}

/// Reads the counts of a token-usage entry (see `totals_of`).
pub fn read_usage_totals(value: &JsonValue) -> (res: UsageTotals)
    ensures
        res == totals_of(*value),
{
    proof {
        crate::json::lemma_integer_of_range();
    }
    UsageTotals {
        input_tokens: number_at(value, "input_tokens"),
        cached_input_tokens: number_at(value, "cached_input_tokens"),
        cache_creation_input_tokens: number_at(value, "cache_creation_input_tokens"),
        output_tokens: number_at(value, "output_tokens"),
        reasoning_output_tokens: number_at(value, "reasoning_output_tokens"),
        total_tokens: number_at(value, "total_tokens"),
    }
}

/// All counts are at least zero.
pub open spec fn nonnegative(u: UsageTotals) -> bool {
    u.input_tokens >= 0 && u.cached_input_tokens >= 0 && u.cache_creation_input_tokens >= 0
        && u.output_tokens >= 0 && u.reasoning_output_tokens >= 0 && u.total_tokens >= 0
}

/// The counts with the cached input taken out of the input (never below zero) and the total
/// recomputed as the sum of the parts.
pub open spec fn normalized_sum(u: UsageTotals) -> int {
    let input = if u.input_tokens - u.cached_input_tokens > 0 {
        u.input_tokens - u.cached_input_tokens
    } else {
        0
    };
    input + u.cached_input_tokens + u.cache_creation_input_tokens + u.output_tokens
        + u.reasoning_output_tokens
}

/// The arithmetic of `normalize_totals` stays within `i64`.
pub open spec fn normalize_fits(u: UsageTotals) -> bool {
    let input = if u.input_tokens - u.cached_input_tokens > 0 {
        u.input_tokens - u.cached_input_tokens
    } else {
        0
    };
    &&& i64::MIN <= u.input_tokens - u.cached_input_tokens <= i64::MAX
    &&& i64::MIN <= input + u.cached_input_tokens <= i64::MAX
    &&& i64::MIN <= input + u.cached_input_tokens + u.cache_creation_input_tokens <= i64::MAX
    &&& i64::MIN <= input + u.cached_input_tokens + u.cache_creation_input_tokens
        + u.output_tokens <= i64::MAX
    &&& i64::MIN <= normalized_sum(u) <= i64::MAX
}

/// The normalized counts (see `normalized_sum`).
pub open spec fn normalized(u: UsageTotals) -> UsageTotals {
    UsageTotals {
        input_tokens: (if u.input_tokens - u.cached_input_tokens > 0 {
            u.input_tokens - u.cached_input_tokens
        } else {
            0
        }) as i64,
        total_tokens: normalized_sum(u) as i64,
        ..u
    }
}

/// Normalizes counts (see `normalized`).
pub fn normalize_totals(usage: UsageTotals) -> (res: UsageTotals)
    requires
        normalize_fits(usage),
    ensures
        res == normalized(usage),
{
    let mut usage = usage;
    let d = usage.input_tokens - usage.cached_input_tokens;
    usage.input_tokens = if d > 0 {
        d
    } else {
        0
    };
    usage.total_tokens = usage.input_tokens + usage.cached_input_tokens
        + usage.cache_creation_input_tokens + usage.output_tokens + usage.reasoning_output_tokens;
    usage
}

/// `(a - b).max(0)`.
pub open spec fn sub_floor(a: i64, b: i64) -> int {
    if a - b > 0 {
        a - b
    } else {
        0
    }
}

/// Each difference of `a - b` fits in `i64`.
pub open spec fn sub_fits(a: UsageTotals, b: UsageTotals) -> bool {
    &&& i64::MIN <= a.input_tokens - b.input_tokens <= i64::MAX
    &&& i64::MIN <= a.cached_input_tokens - b.cached_input_tokens <= i64::MAX
    &&& i64::MIN <= a.cache_creation_input_tokens - b.cache_creation_input_tokens <= i64::MAX
    &&& i64::MIN <= a.output_tokens - b.output_tokens <= i64::MAX
    &&& i64::MIN <= a.reasoning_output_tokens - b.reasoning_output_tokens <= i64::MAX
    &&& i64::MIN <= a.total_tokens - b.total_tokens <= i64::MAX
}

/// The counts used since `b`, each at least zero.
pub open spec fn since(a: UsageTotals, b: UsageTotals) -> UsageTotals {
    UsageTotals {
        input_tokens: sub_floor(a.input_tokens, b.input_tokens) as i64,
        cached_input_tokens: sub_floor(a.cached_input_tokens, b.cached_input_tokens) as i64,
        cache_creation_input_tokens: sub_floor(
            a.cache_creation_input_tokens,
            b.cache_creation_input_tokens,
        ) as i64,
        output_tokens: sub_floor(a.output_tokens, b.output_tokens) as i64,
        reasoning_output_tokens: sub_floor(a.reasoning_output_tokens, b.reasoning_output_tokens) as i64,
        total_tokens: sub_floor(a.total_tokens, b.total_tokens) as i64,
    }
}

fn sub_or_zero(a: i64, b: i64) -> (res: i64)
    requires
        i64::MIN <= a - b <= i64::MAX,
    ensures
        res == sub_floor(a, b),
{
    let d = a - b;
    if d > 0 {
        d
    } else {
        0
    }
}

impl UsageTotals {
    /// The counts used since `previous` (see `since`).
    pub fn saturating_sub(self, previous: UsageTotals) -> (res: UsageTotals)
        requires
            sub_fits(self, previous),
        ensures
            res == since(self, previous),
    {
        UsageTotals {
            input_tokens: sub_or_zero(self.input_tokens, previous.input_tokens),
            cached_input_tokens: sub_or_zero(self.cached_input_tokens, previous.cached_input_tokens),
            cache_creation_input_tokens: sub_or_zero(
                self.cache_creation_input_tokens,
                previous.cache_creation_input_tokens,
            ),
            output_tokens: sub_or_zero(self.output_tokens, previous.output_tokens),
            reasoning_output_tokens: sub_or_zero(
                self.reasoning_output_tokens,
                previous.reasoning_output_tokens,
            ),
            total_tokens: sub_or_zero(self.total_tokens, previous.total_tokens),
        }
    }
}

/// The token-count information of a log entry's payload: the payload's own `info` when it is a
/// token count, else that of a token-count message inside it.
pub open spec fn payload_info(payload: JsonValue) -> Option<JsonValue> {
    if text_field(payload, "type"@) == Some("token_count"@) {
        field(payload, "info"@)
    } else {
        match field(payload, "msg"@) {
            Some(m) => if text_field(m, "type"@) == Some("token_count"@) {
                field(m, "info"@)
            } else {
                None
            },
            None => None,
        }
    }
}

/// The token-count information of a log entry that is an event message.
pub open spec fn event_info(value: JsonValue) -> Option<JsonValue> {
    match field(value, "payload"@) {
        Some(p) => if text_field(value, "type"@) == Some("event_msg"@) {
            payload_info(p)
        } else {
            None
        },
        None => None,
    }
}

/// The cumulative counts of a log entry, whether or not it is an event message.
pub open spec fn total_usage_of(value: JsonValue) -> Option<UsageTotals> {
    match field(value, "payload"@) {
        Some(p) => match payload_info(p) {
            Some(info) => match field(info, "total_token_usage"@) {
                Some(t) => Some(totals_of(t)),
                None => None,
            },
            None => None,
        },
        None => None,
    }
}

/// The tokens an event used, before normalizing: the growth of the cumulative counts since the
/// last ones seen, when they grew; else the event's own counts; else its cumulative counts.
pub open spec fn raw_delta(info: JsonValue, previous: Option<UsageTotals>) -> Option<UsageTotals> {
    let last = match field(info, "last_token_usage"@) {
        Some(l) => Some(totals_of(l)),
        None => None,
    };
    let total = match field(info, "total_token_usage"@) {
        Some(t) => Some(totals_of(t)),
        None => None,
    };
    match (last, total, previous) {
        (_, Some(t), Some(p)) if t.total_tokens >= p.total_tokens => Some(since(t, p)),
        (Some(l), _, _) => Some(l),
        (_, Some(t), _) => Some(t),
        _ => None,
    }
}

/// The normalized tokens an event used (without its day), or none when the entry is not a
/// token-count event or carries no counts.
pub open spec fn event_delta(value: JsonValue, previous: Option<UsageTotals>) -> Option<UsageTotals> {
    match event_info(value) {
        Some(info) => match raw_delta(info, previous) {
            Some(d) => Some(normalized(d)),
            None => None,
        },
        None => None,
    }
}

/// The arithmetic for an entry stays within `i64`.
pub open spec fn delta_fits(value: JsonValue, previous: Option<UsageTotals>) -> bool {
    &&& (previous matches Some(p) ==> nonnegative(p))
    &&& match event_info(value) {
        Some(info) => match raw_delta(info, previous) {
            Some(d) => normalize_fits(d),
            None => true,
        },
        None => true,
    }
}

proof fn lemma_totals_nonnegative(v: JsonValue)
    ensures
        nonnegative(totals_of(v)),
{
    crate::json::lemma_integer_of_range();
}

/// Whether a log entry's timestamp is read.
pub open spec fn timestamp_read(value: JsonValue) -> bool {
    match text_field(value, "timestamp"@) {
        Some(t) => rfc3339_accepts(t),
        None => false,
    }
}

/// Whether `day` can be the local calendar day of a log entry's timestamp: within one day of the
/// day on which its instant falls in UTC, as every local UTC offset is less than a day.
pub open spec fn event_day_fits(value: JsonValue, day: int) -> bool {
    match text_field(value, "timestamp"@) {
        Some(t) => utc_day(rfc3339_seconds(t)) - 1 <= day <= utc_day(rfc3339_seconds(t)) + 1,
        None => false,
    }
}

fn info_of(value: &JsonValue) -> (res: Option<&JsonValue>)
    ensures
        match event_info(*value) {
            Some(i) => res matches Some(r) && *r == i,
            None => res.is_none(),
        },
{
    let payload = match value.get("payload") {
        Some(p) => p,
        None => {
            return None;
        },
    };
    let is_event = match value.text_at("type") {
        Some(t) => crate::text::same_text(t.as_str(), "event_msg"),
        None => false,
    };
    proof {
        reveal_strlit("event_msg");
    }
    if !is_event {
        return None;
    }
    payload_info_of(payload)
}

fn payload_info_of(payload: &JsonValue) -> (res: Option<&JsonValue>)
    ensures
        match payload_info(*payload) {
            Some(i) => res matches Some(r) && *r == i,
            None => res.is_none(),
        },
{
    proof {
        reveal_strlit("token_count");
    }
    let direct = match payload.text_at("type") {
        Some(t) => crate::text::same_text(t.as_str(), "token_count"),
        None => false,
    };
    if direct {
        return payload.get("info");
    }
    match payload.get("msg") {
        Some(m) => {
            let nested = match m.text_at("type") {
                Some(t) => crate::text::same_text(t.as_str(), "token_count"),
                None => false,
            };
            if nested {
                m.get("info")
            } else {
                None
            }
        },
        None => None,
    }
}

/// The normalized tokens an event used (see `event_delta`).
pub fn token_count_delta(value: &JsonValue, previous_total: Option<UsageTotals>) -> (res: Option<
    UsageTotals,
>)
    requires
        delta_fits(*value, previous_total),
    ensures
        res == event_delta(*value, previous_total),
{
    let info = match info_of(value) {
        Some(i) => i,
        None => {
            return None;
        },
    };
    let last = match info.get("last_token_usage") {
        Some(l) => Some(read_usage_totals(l)),
        None => None,
    };
    let total = match info.get("total_token_usage") {
        Some(t) => Some(read_usage_totals(t)),
        None => None,
    };
    proof {
        if let Some(l) = field(*info, "last_token_usage"@) {
            lemma_totals_nonnegative(l);
        }
        if let Some(t) = field(*info, "total_token_usage"@) {
            lemma_totals_nonnegative(t);
        }
    }
    let delta = match (last, total, previous_total) {
        (_, Some(t), Some(p)) if t.total_tokens >= p.total_tokens => t.saturating_sub(p),
        (Some(l), _, _) => l,
        (_, Some(t), _) => t,
        _ => {
            return None;
        },
    };
    Some(normalize_totals(delta))
}

/// The day of a token-count event and the normalized tokens it used: there is one exactly when
/// the entry is a token-count event with counts and a readable timestamp. The day is the local
/// calendar day of the timestamp: which of the three days around its UTC day that is depends on
/// the machine's time zone (see `event_day_fits`).
pub fn parse_token_count_delta(value: &JsonValue, previous_total: Option<UsageTotals>) -> (res:
    Option<(i32, UsageTotals)>)
    requires
        delta_fits(*value, previous_total),
    ensures
        match res {
            Some((d, u)) => event_delta(*value, previous_total) == Some(u) && timestamp_read(
                *value,
            ) && event_day_fits(*value, d as int),
            None => event_delta(*value, previous_total).is_none() || !timestamp_read(*value),
        },
{
    if info_of(value).is_none() {
        return None;
    }
    let day = match value.text_at("timestamp") {
        Some(t) => rfc3339_local_day(t.as_str()),
        None => None,
    };
    let day = match day {
        Some(d) => d,
        None => {
            return None;
        },
    };
    match token_count_delta(value, previous_total) {
        Some(u) => Some((day, u)),
        None => None,
    }
}

/// The cumulative counts of a log entry (see `total_usage_of`).
pub fn extract_total_usage(value: &JsonValue) -> (res: Option<UsageTotals>)
    ensures
        res == total_usage_of(*value),
{
    let payload = match value.get("payload") {
        Some(p) => p,
        None => {
            return None;
        },
    };
    match payload_info_of(payload) {
        Some(info) => match info.get("total_token_usage") {
            Some(t) => Some(read_usage_totals(t)),
            None => None,
        },
        None => None,
    }
}

/// Tokens per local day: days counted from the start of the common era, each day once.
#[derive(Debug, Clone)]
pub struct DailyTokens {
    pub days: Vec<(i32, i64)>,
}

/// Each day occurs once and no count is negative.
pub open spec fn daily_wf(days: Seq<(i32, i64)>) -> bool {
    &&& forall|i: int, j: int| 0 <= i < j < days.len() ==> days[i].0 != days[j].0
    &&& forall|i: int| 0 <= i < days.len() ==> days[i].1 >= 0
}

/// The sum of the counts of the days in `[lo, hi]`.
pub open spec fn range_sum(days: Seq<(i32, i64)>, lo: int, hi: int) -> int
    decreases days.len(),
{
    if days.len() == 0 {
        0
    } else {
        range_sum(days.drop_last(), lo, hi) + if lo <= days.last().0 <= hi {
            days.last().1 as int
        } else {
            0
        }
    }
}

/// The sum of all counts.
pub open spec fn all_sum(days: Seq<(i32, i64)>) -> int
    decreases days.len(),
{
    if days.len() == 0 {
        0
    } else {
        all_sum(days.drop_last()) + days.last().1
    }
}

proof fn lemma_sums_bounded(days: Seq<(i32, i64)>, lo: int, hi: int)
    requires
        forall|i: int| 0 <= i < days.len() ==> days[i].1 >= 0,
    ensures
        0 <= range_sum(days, lo, hi) <= all_sum(days),
        forall|i: int| 0 <= i < days.len() ==> days[i].1 <= all_sum(days),
    decreases days.len(),
{
    if days.len() > 0 {
        lemma_sums_bounded(days.drop_last(), lo, hi);
        assert forall|i: int| 0 <= i < days.len() implies days[i].1 <= all_sum(days) by {
            if i < days.len() - 1 {
                assert(days.drop_last()[i] == days[i]);
            }
        }
    }
}

proof fn lemma_sum_update(days: Seq<(i32, i64)>, k: int, v: i64)
    requires
        0 <= k < days.len(),
    ensures
        all_sum(days.update(k, (days[k].0, v))) == all_sum(days) - days[k].1 + v,
    decreases days.len(),
{
    if k < days.len() - 1 {
        assert(days.update(k, (days[k].0, v)).drop_last() =~= days.drop_last().update(
            k,
            (days[k].0, v),
        ));
        lemma_sum_update(days.drop_last(), k, v);
    } else {
        assert(days.update(k, (days[k].0, v)).drop_last() =~= days.drop_last());
    }
}

impl DailyTokens {
    /// No days yet.
    pub fn new() -> (res: DailyTokens)
        ensures
            res.days@.len() == 0,
    {
        DailyTokens { days: Vec::new() }
    }

    /// Adds `tokens` to the count of `day`, starting the day when it is new.
    pub fn add(&mut self, day: i32, tokens: i64)
        requires
            daily_wf(old(self).days@),
            tokens >= 0,
            all_sum(old(self).days@) + tokens <= i64::MAX,
        ensures
            daily_wf(final(self).days@),
            all_sum(final(self).days@) == all_sum(old(self).days@) + tokens,
    {
        proof {
            lemma_sums_bounded(self.days@, 0, 0);
        }
        let n = self.days.len();
        let mut i: usize = 0;
        while i < n
            invariant
                n == self.days@.len(),
                i <= n,
                forall|j: int| 0 <= j < i ==> self.days@[j].0 != day,
                self.days@ == old(self).days@,
                daily_wf(self.days@),
                tokens >= 0,
                all_sum(self.days@) + tokens <= i64::MAX,
                forall|j: int| 0 <= j < self.days@.len() ==> self.days@[j].1 <= all_sum(self.days@),
            decreases n - i,
        {
            if self.days[i].0 == day {
                let current = self.days[i].1;
                assert(current <= all_sum(self.days@));
                let ghost before = self.days@;
                self.days.set(i, (day, current + tokens));
                proof {
                    lemma_sum_update(before, i as int, (current + tokens) as i64);
                    assert(self.days@ == before.update(i as int, (before[i as int].0, (current
                        + tokens) as i64)));
                }
                return;
            }
            i = i + 1;
        }
        let ghost before = self.days@;
        self.days.push((day, tokens));
        assert(self.days@.drop_last() =~= before);
    }
}

/// How many tokens the entries of one log file add, in order: each token-count event with a
/// readable timestamp adds its normalized tokens when they are positive; the cumulative counts
/// of such an event become the base for the next one.
pub open spec fn file_tokens(values: Seq<JsonValue>, previous: Option<UsageTotals>) -> int
    decreases values.len(),
{
    if values.len() == 0 {
        0
    } else {
        let v = values[0];
        match event_delta(v, previous) {
            Some(d) if timestamp_read(v) => {
                let next = match total_usage_of(v) {
                    Some(t) => Some(t),
                    None => previous,
                };
                (if d.total_tokens > 0 {
                    d.total_tokens as int
                } else {
                    0
                }) + file_tokens(values.drop_first(), next)
            },
            _ => file_tokens(values.drop_first(), previous),
        }
    }
}

/// The arithmetic of reading one log file stays within `i64`.
pub open spec fn file_fits(values: Seq<JsonValue>, previous: Option<UsageTotals>) -> bool
    decreases values.len(),
{
    if values.len() == 0 {
        true
    } else {
        let v = values[0];
        &&& delta_fits(v, previous)
        &&& match event_delta(v, previous) {
            Some(_) if timestamp_read(v) => file_fits(
                values.drop_first(),
                match total_usage_of(v) {
                    Some(t) => Some(t),
                    None => previous,
                },
            ),
            _ => file_fits(values.drop_first(), previous),
        }
    }
}

/// Adds the token usage of one log file's entries to the daily counts. The total over all days
/// grows by exactly `file_tokens`; which day each event lands on is its local calendar day.
pub fn read_file_usage(values: &Vec<JsonValue>, daily: &mut DailyTokens)
    requires
        daily_wf(old(daily).days@),
        file_fits(values@, None),
        all_sum(old(daily).days@) + file_tokens(values@, None) <= i64::MAX,
    ensures
        daily_wf(final(daily).days@),
        all_sum(final(daily).days@) == all_sum(old(daily).days@) + file_tokens(values@, None),
{
    let n = values.len();
    let mut previous_total: Option<UsageTotals> = None;
    let mut i: usize = 0;
    assert(values@.subrange(0, n as int) =~= values@);
    while i < n
        invariant
            n == values@.len(),
            i <= n,
            daily_wf(daily.days@),
            file_fits(values@.subrange(i as int, n as int), previous_total),
            all_sum(daily.days@) + file_tokens(values@.subrange(i as int, n as int), previous_total)
                == all_sum(old(daily).days@) + file_tokens(values@, None),
            all_sum(old(daily).days@) + file_tokens(values@, None) <= i64::MAX,
            previous_total matches Some(p) ==> nonnegative(p),
        decreases n - i,
    {
        let ghost rest = values@.subrange(i as int, n as int);
        assert(rest[0] == values@[i as int]);
        assert(rest.drop_first() =~= values@.subrange(i + 1, n as int));
        proof {
            lemma_file_tokens_nonnegative(rest.drop_first(), match total_usage_of(values@[i as int]) {
                Some(t) => Some(t),
                None => previous_total,
            });
            lemma_file_tokens_nonnegative(rest.drop_first(), previous_total);
        }
        let parsed = parse_token_count_delta(&values[i], previous_total);
        match parsed {
            None => {},
            Some((day, delta)) => {
                let total = extract_total_usage(&values[i]);
                proof {
                    if let Some(t) = total_usage_of(values@[i as int]) {
                        lemma_total_usage_nonnegative(values@[i as int]);
                    }
                    lemma_sums_bounded(daily.days@, 0, 0);
                }
                if let Some(t) = total {
                    previous_total = Some(t);
                }
                if delta.total_tokens > 0 {
                    daily.add(day, delta.total_tokens);
                }
            },
        }
        i = i + 1;
    }
}

proof fn lemma_total_usage_nonnegative(v: JsonValue)
    ensures
        total_usage_of(v) matches Some(t) ==> nonnegative(t),
{
    if let Some(p) = field(v, "payload"@) {
        if let Some(info) = payload_info(p) {
            if let Some(t) = field(info, "total_token_usage"@) {
                lemma_totals_nonnegative(t);
            }
        }
    }
}

proof fn lemma_file_tokens_nonnegative(values: Seq<JsonValue>, previous: Option<UsageTotals>)
    ensures
        file_tokens(values, previous) >= 0,
    decreases values.len(),
{
    if values.len() > 0 {
        let v = values[0];
        lemma_file_tokens_nonnegative(values.drop_first(), previous);
        lemma_file_tokens_nonnegative(values.drop_first(), match total_usage_of(v) {
            Some(t) => Some(t),
            None => previous,
        });
    }
}

/// Token usage over time.
#[derive(Debug, Clone, Copy, PartialEq, Eq, Structural)]
pub struct TokenUsage {
    pub today_tokens: Option<i64>,
    pub week_tokens: Option<i64>,
    pub lifetime_tokens: Option<i64>,
    pub peak_daily_tokens: Option<i64>,
}

/// The count of `day`, from index `i` on.
pub open spec fn day_count_from(days: Seq<(i32, i64)>, day: int, i: int) -> Option<i64>
    decreases days.len() - i,
{
    if i < 0 || i >= days.len() {
        None
    } else if days[i].0 == day {
        Some(days[i].1)
    } else {
        day_count_from(days, day, i + 1)
    }
}

/// The largest count.
pub open spec fn peak(days: Seq<(i32, i64)>) -> int
    decreases days.len(),
{
    if days.len() == 0 {
        0
    } else {
        let rest = peak(days.drop_last());
        if days.len() == 1 || days.last().1 > rest {
            days.last().1 as int
        } else {
            rest
        }
    }
}

/// The usage summary of the daily counts: today's count, this week's (from `week_start` to
/// `today`, when positive), the lifetime sum and the busiest day; nothing without any day.
pub open spec fn token_summary(days: Seq<(i32, i64)>, today: int, week_start: int) -> Option<TokenUsage> {
    if days.len() == 0 {
        None
    } else {
        let week = range_sum(days, week_start, today);
        Some(
            TokenUsage {
                today_tokens: day_count_from(days, today, 0),
                week_tokens: if week > 0 {
                    Some(week as i64)
                } else {
                    None
                },
                lifetime_tokens: Some(all_sum(days) as i64),
                peak_daily_tokens: Some(peak(days) as i64),
            },
        )
    }
}

/// In a summary the week never exceeds the lifetime, nor does the busiest day or today.
pub proof fn lemma_summary_bounds(days: Seq<(i32, i64)>, today: int, week_start: int)
    requires
        daily_wf(days),
        days.len() > 0,
    ensures
        0 <= range_sum(days, week_start, today) <= all_sum(days),
        peak(days) <= all_sum(days),
        day_count_from(days, today, 0) matches Some(t) ==> t <= all_sum(days),
{
    lemma_sums_bounded(days, week_start, today);
    lemma_peak_is_a_count(days);
    lemma_day_count_is_a_count(days, today, 0);
}

proof fn lemma_peak_is_a_count(days: Seq<(i32, i64)>)
    requires
        days.len() > 0,
    ensures
        exists|i: int| 0 <= i < days.len() && peak(days) == days[i].1,
    decreases days.len(),
{
    if days.len() > 1 {
        lemma_peak_is_a_count(days.drop_last());
        let i = choose|i: int| 0 <= i < days.drop_last().len() && peak(days.drop_last())
            == days.drop_last()[i].1;
        assert(days.drop_last()[i] == days[i]);
        if days.last().1 > peak(days.drop_last()) {
            assert(peak(days) == days[days.len() - 1].1);
        } else {
            assert(peak(days) == days[i].1);
        }
    } else {
        assert(peak(days) == days[0].1);
    }
}

proof fn lemma_day_count_is_a_count(days: Seq<(i32, i64)>, day: int, i: int)
    ensures
        day_count_from(days, day, i) matches Some(t) ==> exists|j: int|
            0 <= j < days.len() && t == days[j].1,
    decreases days.len() - i,
{
    if 0 <= i < days.len() && days[i].0 != day {
        lemma_day_count_is_a_count(days, day, i + 1);
    }
}

/// Summarizes the daily counts for the day `today` in the week starting `week_start` (see
/// `token_summary`).
pub fn summarize_daily(daily: &DailyTokens, today: i32, week_start: i32) -> (res: Option<TokenUsage>)
    requires
        daily_wf(daily.days@),
        all_sum(daily.days@) <= i64::MAX,
    ensures
        res == token_summary(daily.days@, today as int, week_start as int),
{
    let n = daily.days.len();
    if n == 0 {
        return None;
    }
    proof {
        lemma_sums_bounded(daily.days@, week_start as int, today as int);
    }
    let mut today_tokens: Option<i64> = None;
    let mut week: i64 = 0;
    let mut lifetime: i64 = 0;
    let mut top: i64 = 0;
    let mut i: usize = 0;
    while i < n
        invariant
            n == daily.days@.len(),
            n > 0,
            i <= n,
            daily_wf(daily.days@),
            all_sum(daily.days@) <= i64::MAX,
            week == range_sum(daily.days@.subrange(0, i as int), week_start as int, today as int),
            lifetime == all_sum(daily.days@.subrange(0, i as int)),
            i > 0 ==> top == peak(daily.days@.subrange(0, i as int)),
            day_count_from(daily.days@, today as int, 0) == match today_tokens {
                Some(t) => Some(t),
                None => day_count_from(daily.days@, today as int, i as int),
            },
        decreases n - i,
    {
        let ghost prefix = daily.days@.subrange(0, i + 1);
        assert(prefix.drop_last() =~= daily.days@.subrange(0, i as int));
        assert(prefix.last() == daily.days@[i as int]);
        proof {
            lemma_sums_bounded(prefix, week_start as int, today as int);
            lemma_prefix_sum_bounded(daily.days@, i + 1);
        }
        let (day, tokens) = daily.days[i];
        if today_tokens.is_none() && day == today {
            today_tokens = Some(tokens);
        }
        if week_start <= day && day <= today {
            week = week + tokens;
        }
        lifetime = lifetime + tokens;
        if i == 0 || tokens > top {
            top = tokens;
        }
        i = i + 1;
    }
    assert(daily.days@.subrange(0, n as int) =~= daily.days@);
    Some(
        TokenUsage {
            today_tokens,
            week_tokens: if week > 0 {
                Some(week)
            } else {
                None
            },
            lifetime_tokens: Some(lifetime),
            peak_daily_tokens: Some(top),
        },
    )
}

proof fn lemma_prefix_sum_bounded(days: Seq<(i32, i64)>, k: int)
    requires
        0 <= k <= days.len(),
        forall|i: int| 0 <= i < days.len() ==> days[i].1 >= 0,
    ensures
        all_sum(days.subrange(0, k)) <= all_sum(days),
    decreases days.len() - k,
{
    if k < days.len() {
        lemma_prefix_sum_bounded(days, k + 1);
        let p = days.subrange(0, k + 1);
        assert(p.drop_last() =~= days.subrange(0, k));
    } else {
        assert(days.subrange(0, k) =~= days);
    }
}

} // verus!
