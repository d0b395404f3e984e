//! The wall clock and date-time texts, from `chrono`.
use vstd::prelude::*;

use chrono::TimeZone;

verus! {

/// Whether `DateTime::from_timestamp(seconds, 0)` (which `Utc.timestamp_opt` and
/// `Local.timestamp_opt` go through) yields an instant: whether the day of `seconds`, counted
/// from the start of the common era (the Unix epoch is day 719 163), lies between the first day
/// of year -262143 and the last day of year 262142, the range of dates that `chrono` represents.
pub open spec fn utc_timestamp_exists(seconds: int) -> bool {
    -95_746_129 <= seconds / 86_400 + 719_163 <= 95_745_399
}

/// Whether `DateTime::parse_from_rfc3339` accepts a text.
pub uninterp spec fn rfc3339_accepts(text: Seq<char>) -> bool;

/// The `strftime` patterns that the gauge writes instants with; formatting with a pattern that
/// `chrono` cannot write would panic.
pub open spec fn clock_pattern(p: Seq<char>) -> bool {
    p == "%m-%d %H:%M"@ || p == "%H:%M:%S"@ || p == "%Y-%m-%d %H:%M:%S"@
}

/// The `strftime` pattern that the gauge writes and reads calendar days with; a date has no
/// time of day, so a pattern with one would panic.
pub open spec fn date_pattern(p: Seq<char>) -> bool {
    p == "%Y-%m-%d"@
}

/// Characters `i` and `i + 1` of `t` are decimal digits whose two-digit number is at most `max`.
pub open spec fn two_digits_upto(t: Seq<char>, i: int, max: int) -> bool {
    &&& '0' <= t[i] <= '9'
    &&& '0' <= t[i + 1] <= '9'
    &&& (t[i] as int - 48) * 10 + (t[i + 1] as int - 48) <= max
}

/// How `chrono` writes a year with `%Y`: four zero-padded digits for the years 0 to 9999, else a
/// sign and at least four digits.
pub open spec fn year_text(y: Seq<char>) -> bool {
    ||| y.len() == 4 && forall|i: int| 0 <= i < 4 ==> '0' <= #[trigger] y[i] <= '9'
    ||| y.len() >= 5 && (y[0] == '+' || y[0] == '-') && forall|i: int|
        1 <= i < y.len() ==> '0' <= #[trigger] y[i] <= '9'
}

/// A text that ends, at index `k`, in `-MM-DD` (month up to 12, day up to 31) after a `%Y` year.
pub open spec fn dated_at(t: Seq<char>, k: int) -> bool {
    &&& 0 <= k
    &&& year_text(t.take(k))
    &&& t[k] == '-'
    &&& two_digits_upto(t, k + 1, 12)
    &&& t[k + 3] == '-'
    &&& two_digits_upto(t, k + 4, 31)
}

/// The shape of a text that `chrono` writes with a `clock_pattern` or the `date_pattern`; every
/// number but the year is zero-padded to two digits:
/// - `%H:%M:%S` gives `hh:mm:ss` (hour up to 23, minute up to 59, second up to 60);
/// - `%m-%d %H:%M` gives `MM-DD hh:mm` (month up to 12, day up to 31);
/// - `%Y-%m-%d %H:%M:%S` gives a year (see `year_text`), then `-MM-DD hh:mm:ss`;
/// - `%Y-%m-%d` gives a year, then `-MM-DD`.
pub open spec fn clock_text_shape(t: Seq<char>, pattern: Seq<char>) -> bool {
    if pattern == "%H:%M:%S"@ {
        &&& t.len() == 8
        &&& two_digits_upto(t, 0, 23)
        &&& t[2] == ':'
        &&& two_digits_upto(t, 3, 59)
        &&& t[5] == ':'
        &&& two_digits_upto(t, 6, 60)
    } else if pattern == "%m-%d %H:%M"@ {
        &&& t.len() == 11
        &&& two_digits_upto(t, 0, 12)
        &&& t[2] == '-'
        &&& two_digits_upto(t, 3, 31)
        &&& t[5] == ' '
        &&& two_digits_upto(t, 6, 23)
        &&& t[8] == ':'
        &&& two_digits_upto(t, 9, 59)
    } else if pattern == "%Y-%m-%d %H:%M:%S"@ {
        let k = t.len() - 15;
        &&& t.len() >= 19
        &&& dated_at(t, k)
        &&& t[k + 6] == ' '
        &&& two_digits_upto(t, k + 7, 23)
        &&& t[k + 9] == ':'
        &&& two_digits_upto(t, k + 10, 59)
        &&& t[k + 12] == ':'
        &&& two_digits_upto(t, k + 13, 60)
    } else {
        &&& t.len() >= 10
        &&& dated_at(t, t.len() - 6)
    }
}

/// Whether `text` is how `chrono` writes the instant `seconds` (whole seconds since the Unix
/// epoch) with the `strftime` pattern `pattern` as seen at some UTC offset of a local time zone.
/// Which offset the machine uses is not fixed, so this relates an instant to each of its
/// possible local texts; it does not single one out.
pub uninterp spec fn local_rendering(seconds: int, pattern: Seq<char>, text: Seq<char>) -> bool;

/// The whole seconds since the Unix epoch (`timestamp`) of the instant that
/// `DateTime::parse_from_rfc3339` reads from an accepted text.
pub uninterp spec fn rfc3339_seconds(text: Seq<char>) -> int;

/// The day, counted from the start of the common era, on which the instant `seconds` falls in
/// UTC.
pub open spec fn utc_day(seconds: int) -> int {
    seconds / 86_400 + 719_163
}

/// A time text as the gauge shows an optional instant with one of the `clock_pattern`s: a local
/// text of that very instant (see `local_rendering`), in the pattern's shape, when `chrono`
/// represents the instant; `未知` when it does not or when there is no instant.
pub open spec fn time_text_fits(value: Option<i64>, t: Seq<char>, pattern: Seq<char>) -> bool {
    match value {
        Some(s) => if utc_timestamp_exists(s as int) {
            clock_text_shape(t, pattern) && local_rendering(s as int, pattern, t)
        } else {
            t == "未知"@
        },
        None => t == "未知"@,
    }
}

/// A local text written for an optional instant: present exactly when there is an instant, and
/// then a local text of it in the pattern's shape.
pub open spec fn instant_text_fits(instant: Option<int>, t: Option<Seq<char>>, pattern: Seq<char>) -> bool {
    match instant {
        Some(s) => t matches Some(x) && clock_text_shape(x, pattern) && local_rendering(s, pattern, x),
        None => t is None,
    }
}

/// The current Unix time in seconds (`chrono::Local::now().timestamp()`). Nothing is promised of
/// the value: it is whatever the system clock reads.
#[verifier::external_body]
pub fn unix_now() -> (res: i64) {
    chrono::Local::now().timestamp()
}

/// The instant `seconds` after the Unix epoch (`Utc.timestamp_opt(seconds, 0).single()`),
/// written in the machine's local time zone with the `strftime` pattern `pattern`. There is a
/// text exactly when `chrono` represents the instant; it is then a local text of that instant
/// (see `local_rendering`) in the shape `chrono` documents for the pattern. Which local time it
/// shows depends on the machine's time zone.
#[verifier::external_body]
pub fn timestamp_local_text(seconds: i64, pattern: &str) -> (res: Option<String>)
    requires
        clock_pattern(pattern@),
    ensures
        res.is_some() == utc_timestamp_exists(seconds as int),
        res matches Some(t) ==> clock_text_shape(t@, pattern@) && local_rendering(
            seconds as int,
            pattern@,
            t@,
        ),
{
    chrono::Utc.timestamp_opt(seconds, 0).single().map(
        |t| t.with_timezone(&chrono::Local).format(pattern).to_string(),
    )
}

/// An RFC 3339 date-time text (`DateTime::parse_from_rfc3339`) written in the machine's local
/// time zone with the `strftime` pattern `pattern`. There is a text exactly when the input is
/// accepted; it is then a local text of the instant read (see `rfc3339_seconds`) in the shape
/// `chrono` documents for the pattern. Which local time it shows depends on the machine's time
/// zone.
#[verifier::external_body]
pub fn rfc3339_local_text(text: &str, pattern: &str) -> (res: Option<String>)
    requires
        clock_pattern(pattern@),
    ensures
        res.is_some() == rfc3339_accepts(text@),
        res matches Some(t) ==> clock_text_shape(t@, pattern@) && local_rendering(
            rfc3339_seconds(text@),
            pattern@,
            t@,
        ),
{
    chrono::DateTime::parse_from_rfc3339(text).ok().map(
        |t| t.with_timezone(&chrono::Local).format(pattern).to_string(),
    )
}

/// `Local.timestamp_opt(seconds, 0).single()` written with the `strftime` pattern `pattern`.
/// There is a text exactly when `DateTime::from_timestamp` represents the instant (which
/// `timestamp_opt` goes through); it is then a local text of that instant (see
/// `local_rendering`) in the shape `chrono` documents for the pattern. Which local time it shows
/// depends on the machine's time zone.
#[verifier::external_body]
pub fn local_clock_text(seconds: i64, pattern: &str) -> (res: Option<String>)
    requires
        clock_pattern(pattern@),
    ensures
        res.is_some() == utc_timestamp_exists(seconds as int),
        res matches Some(t) ==> clock_text_shape(t@, pattern@) && local_rendering(
            seconds as int,
            pattern@,
            t@,
        ),
{
    chrono::Local.timestamp_opt(seconds, 0).single().map(|t| t.format(pattern).to_string())
}

/// `DateTime::from_timestamp(seconds, 0)` shown in the machine's local time zone with the
/// `strftime` pattern `pattern`. There is a text exactly when `from_timestamp` represents the
/// instant; it is then a local text of that instant (see `local_rendering`) in the shape
/// `chrono` documents for the pattern. Which local time it shows depends on the machine's time
/// zone.
#[verifier::external_body]
pub fn utc_seconds_local_text(seconds: i64, pattern: &str) -> (res: Option<String>)
    requires
        clock_pattern(pattern@),
    ensures
        res.is_some() == utc_timestamp_exists(seconds as int),
        res matches Some(t) ==> clock_text_shape(t@, pattern@) && local_rendering(
            seconds as int,
            pattern@,
            t@,
        ),
{
    chrono::DateTime::from_timestamp(seconds, 0).map(
        |t| t.with_timezone(&chrono::Local).format(pattern).to_string(),
    )
}

/// The local calendar day of an RFC 3339 date-time text (`DateTime::parse_from_rfc3339`, in the
/// machine's local time zone), as days from the start of the common era. There is a day exactly
/// when the text is accepted; it then lies within one day of the day on which the instant read
/// falls in UTC, as every local UTC offset is less than a day. Which of these days it is depends
/// on the machine's time zone.
#[verifier::external_body]
pub fn rfc3339_local_day(text: &str) -> (res: Option<i32>)
    ensures
        res.is_some() == rfc3339_accepts(text@),
        res matches Some(d) ==> utc_day(rfc3339_seconds(text@)) - 1 <= d <= utc_day(
            rfc3339_seconds(text@),
        ) + 1,
{
    chrono::DateTime::parse_from_rfc3339(text).ok().map(
        |t| chrono::Datelike::num_days_from_ce(&t.with_timezone(&chrono::Local).date_naive()),
    )
}

/// The day that `NaiveDate::parse_from_str(text, pattern)` reads from a text, as days from the
/// start of the common era (`num_days_from_ce`); `None` when the text is not such a date.
pub uninterp spec fn calendar_day(text: Seq<char>, pattern: Seq<char>) -> Option<int>;

/// The text of a day given as days from the start of the common era
/// (`NaiveDate::from_num_days_from_ce_opt`, then `format` with `pattern`); `None` outside the
/// dates `chrono` represents.
pub uninterp spec fn calendar_date_text(day: int, pattern: Seq<char>) -> Option<Seq<char>>;

/// Reads a date with the pattern `pattern` (`NaiveDate::parse_from_str`) as days from the start
/// of the common era. The result is `calendar_day` of the text and pattern.
#[verifier::external_body]
pub fn parse_calendar_day(text: &str, pattern: &str) -> (res: Option<i32>)
    requires
        date_pattern(pattern@),
    ensures
        match res {
            Some(d) => calendar_day(text@, pattern@) == Some(d as int),
            None => calendar_day(text@, pattern@) is None,
        },
{
    chrono::NaiveDate::parse_from_str(text, pattern).ok().map(
        |d| chrono::Datelike::num_days_from_ce(&d),
    )
}

/// Writes a day given as days from the start of the common era with the pattern `pattern`
/// (`NaiveDate::from_num_days_from_ce_opt`, then `format`). The result is `calendar_date_text`
/// of the day and pattern, in the shape `chrono` documents for the pattern.
#[verifier::external_body]
pub fn calendar_text(day: i32, pattern: &str) -> (res: Option<String>)
    requires
        date_pattern(pattern@),
    ensures
        match res {
            Some(t) => calendar_date_text(day as int, pattern@) == Some(t@) && clock_text_shape(
                t@,
                pattern@,
            ),
            None => calendar_date_text(day as int, pattern@) is None,
        },
{
    chrono::NaiveDate::from_num_days_from_ce_opt(day).map(|d| d.format(pattern).to_string())
}

/// Today's date in the machine's local time zone (`Local::now().date_naive()`): its number of
/// days from the start of the common era (`num_days_from_ce`) and its text with the pattern
/// `pattern`. Which day it is depends on the clock; what is promised is that the text is the one
/// `calendar_text` writes for that number, as `chrono` reads its own day numbers back
/// (`from_num_days_from_ce_opt`).
#[verifier::external_body]
pub fn local_date(pattern: &str) -> (res: (i32, String))
    requires
        date_pattern(pattern@),
    ensures
        calendar_date_text(res.0 as int, pattern@) == Some(res.1@),
{
    let today = chrono::Local::now().date_naive();
    (chrono::Datelike::num_days_from_ce(&today), today.format(pattern).to_string())
}

/// The current local time (`Local::now()`) written with the `strftime` pattern `pattern`. Which
/// time it is depends on the clock; what is promised is the shape `chrono` documents for the
/// pattern (see `clock_text_shape`).
#[verifier::external_body]
pub fn local_time_text(pattern: &str) -> (res: String)
    requires
        clock_pattern(pattern@),
    ensures
        clock_text_shape(res@, pattern@),
{
    chrono::Local::now().format(pattern).to_string()
}

/// The Monday that starts the week of a day, both as days from the start of the common era
/// (day 1, the first of January of year 1, was a Monday).
pub open spec fn week_start_model(day: int) -> int {
    day - (day - 1) % 7
}

/// The Monday that starts the week of `day` (see `week_start_model`).
pub fn week_start_day(day: i32) -> (res: i64)
    ensures
        res == week_start_model(day as int),
        res <= day < res + 7,
{
    let d: i64 = day as i64;
    let r: i64 = (d - 1) % 7;
    let offset: i64 = if r < 0 {
        r + 7
    } else {
        r
    };
    d - offset
}

} // verus!
