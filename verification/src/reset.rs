//! Counting resets: natural resets of the five-hour and weekly windows, and reset credits spent
//! by hand, inferred from two snapshots in a row.
use vstd::prelude::*;

use crate::clock::{
    calendar_date_text, calendar_text, local_date, week_start_day, week_start_model,
};
use crate::decimal::PERCENT_UNIT;
use crate::model::{
    CodexUsageSnapshot, CreditsModel, SnapshotModel, WindowModel,
};
use crate::text::{owned, same_text};

verus! {

/// Reset counters: per day, per week and in all, for natural five-hour resets, natural weekly
/// resets and credits spent by hand; and the reset credits available now and at the last
/// snapshot.
#[derive(Debug, Clone, Copy, PartialEq, Eq, Structural)]
pub struct ResetStats {
    pub available_reset_credits: Option<i64>,
    pub today_auto_reset_5h: u32,
    pub week_auto_reset_5h: u32,
    pub total_auto_reset_5h: u32,
    pub today_auto_reset_weekly: u32,
    pub week_auto_reset_weekly: u32,
    pub total_auto_reset_weekly: u32,
    pub today_manual_reset_consumed: u32,
    pub week_manual_reset_consumed: u32,
    pub total_manual_reset_consumed: u32,
    pub last_available_reset_credits: Option<i64>,
}

impl ResetStats {
    /// No resets counted yet.
    pub fn new() -> (res: ResetStats)
        ensures
            res == ResetStats::zero(),
    {
        ResetStats {
            available_reset_credits: None,
            today_auto_reset_5h: 0,
            week_auto_reset_5h: 0,
            total_auto_reset_5h: 0,
            today_auto_reset_weekly: 0,
            week_auto_reset_weekly: 0,
            total_auto_reset_weekly: 0,
            today_manual_reset_consumed: 0,
            week_manual_reset_consumed: 0,
            total_manual_reset_consumed: 0,
            last_available_reset_credits: None,
        }
    }

    /// No resets counted yet.
    pub open spec fn zero() -> ResetStats {
        ResetStats {
            available_reset_credits: None,
            today_auto_reset_5h: 0,
            week_auto_reset_5h: 0,
            total_auto_reset_5h: 0,
            today_auto_reset_weekly: 0,
            week_auto_reset_weekly: 0,
            total_auto_reset_weekly: 0,
            today_manual_reset_consumed: 0,
            week_manual_reset_consumed: 0,
            total_manual_reset_consumed: 0,
            last_available_reset_credits: None,
        }
    }
}

impl Default for ResetStats {
    /// No resets counted yet.
    fn default() -> (res: ResetStats)
        ensures
            res == ResetStats::zero(),
    {
        ResetStats::new()
    }
}

/// A drop in the used share of `min_delta` or more (fixed point) between two readings of a
/// window.
pub open spec fn used_dropped(old: WindowModel, new: WindowModel, min_delta: int) -> bool {
    match (old.used_percent, new.used_percent) {
        (Some(a), Some(b)) => a - b >= min_delta,
        _ => false,
    }
}

/// The least drop that counts as a natural reset: a tenth of a percent.
pub const NATURAL_DROP: i64 = 100_000_000;

/// The least drop that counts towards a credit spent by hand: five percent.
pub const MANUAL_DROP: i64 = 5_000_000_000;

/// Which window a natural reset was seen in, by the name of the new reading: `5h`, `weekly`, or
/// neither.
pub open spec fn natural_reset(old: Option<WindowModel>, new: Option<WindowModel>, now: i64) -> Option<
    Seq<char>,
> {
    match (old, new) {
        (Some(o), Some(n)) => match (o.reset_at, n.reset_at) {
            (Some(old_at), Some(new_at)) => if old_at < now && new_at > old_at && used_dropped(
                o,
                n,
                NATURAL_DROP as int,
            ) {
                Some(n.name)
            } else {
                None
            },
            _ => None,
        },
        _ => None,
    }
}

/// How many natural resets of the window named `name` a pair of snapshots shows (one per window
/// pair).
pub open spec fn natural_hits(previous: SnapshotModel, snapshot: SnapshotModel, now: i64, name: Seq<char>) -> nat {
    (if natural_reset(previous.primary_window, snapshot.primary_window, now) == Some(name) {
        1nat
    } else {
        0nat
    }) + (if natural_reset(previous.secondary_window, snapshot.secondary_window, now) == Some(
        name,
    ) {
        1nat
    } else {
        0nat
    })
}

/// The reset-credit count of a snapshot's credits.
pub open spec fn credit_count(c: Option<CreditsModel>) -> Option<i64> {
    match c {
        Some(x) => x.available_count,
        None => None,
    }
}

/// A window pair whose used share dropped by at least `MANUAL_DROP`.
pub open spec fn pair_dropped(old: Option<WindowModel>, new: Option<WindowModel>) -> bool {
    match (old, new) {
        (Some(o), Some(n)) => used_dropped(o, n, MANUAL_DROP as int),
        _ => false,
    }
}

/// A credit was spent by hand: the count fell (from the last snapshot's count, or the count
/// remembered when it had none) and a window's used share dropped by five percent or more.
pub open spec fn manual_reset(previous: SnapshotModel, snapshot: SnapshotModel, remembered: Option<i64>) -> bool {
    let old = match credit_count(previous.credits) {
        Some(n) => Some(n),
        None => remembered,
    };
    match (old, credit_count(snapshot.credits)) {
        (Some(o), Some(n)) => n < o && (pair_dropped(previous.primary_window, snapshot.primary_window)
            || pair_dropped(previous.secondary_window, snapshot.secondary_window)),
        _ => false,
    }
}

/// The counters after a snapshot: the natural resets and the credit spent by hand seen against
/// the previous snapshot added to the day, week and total counters alike, and the available
/// count taken from the snapshot and remembered.
pub open spec fn inferred_stats(
    stats: ResetStats,
    previous: Option<SnapshotModel>,
    snapshot: SnapshotModel,
    now: i64,
) -> ResetStats {
    let count = credit_count(snapshot.credits);
    match previous {
        None => ResetStats {
            available_reset_credits: count,
            last_available_reset_credits: count,
            ..stats
        },
        Some(p) => {
            let five = natural_hits(p, snapshot, now, "5h"@);
            let week = natural_hits(p, snapshot, now, "weekly"@);
            let manual: nat = if manual_reset(p, snapshot, stats.last_available_reset_credits) {
                1
            } else {
                0
            };
            ResetStats {
                available_reset_credits: count,
                today_auto_reset_5h: (stats.today_auto_reset_5h + five) as u32,
                week_auto_reset_5h: (stats.week_auto_reset_5h + five) as u32,
                total_auto_reset_5h: (stats.total_auto_reset_5h + five) as u32,
                today_auto_reset_weekly: (stats.today_auto_reset_weekly + week) as u32,
                week_auto_reset_weekly: (stats.week_auto_reset_weekly + week) as u32,
                total_auto_reset_weekly: (stats.total_auto_reset_weekly + week) as u32,
                today_manual_reset_consumed: (stats.today_manual_reset_consumed + manual) as u32,
                week_manual_reset_consumed: (stats.week_manual_reset_consumed + manual) as u32,
                total_manual_reset_consumed: (stats.total_manual_reset_consumed + manual) as u32,
                last_available_reset_credits: count,
            }
        },
    }
}

/// 1 when a pair of readings shows that the window named `name` reset by itself: both readings
/// give a reset time and a used share, the earlier reset time had passed at `now`, the new one
/// is later, the used share fell by a tenth of a percent or more, and the new reading is named
/// `name`; 0 otherwise.
pub open spec fn reset_seen(old: Option<WindowModel>, new: Option<WindowModel>, now: i64, name: Seq<char>) -> int {
    match (old, new) {
        (Some(o), Some(n)) => match (o.reset_at, n.reset_at, o.used_percent, n.used_percent) {
            (Some(a), Some(b), Some(x), Some(y)) => if a < now && b > a && x - y >= 100_000_000
                && n.name == name {
                1
            } else {
                0
            },
            _ => 0,
        },
        _ => 0,
    }
}

/// Each natural reset is counted once per window pair: against a previous snapshot, every
/// five-hour and every weekly counter (today, this week, in all) rises by exactly the number of
/// window pairs, primary and secondary, that show a reset of that window (see `reset_seen`).
pub proof fn lemma_natural_resets_counted(stats: ResetStats, p: SnapshotModel, s: SnapshotModel, now: i64)
    requires
        stats.today_auto_reset_5h + 2 <= u32::MAX,
        stats.week_auto_reset_5h + 2 <= u32::MAX,
        stats.total_auto_reset_5h + 2 <= u32::MAX,
        stats.today_auto_reset_weekly + 2 <= u32::MAX,
        stats.week_auto_reset_weekly + 2 <= u32::MAX,
        stats.total_auto_reset_weekly + 2 <= u32::MAX,
    ensures
        ({
            let after = inferred_stats(stats, Some(p), s, now);
            let five = reset_seen(p.primary_window, s.primary_window, now, "5h"@) + reset_seen(
                p.secondary_window,
                s.secondary_window,
                now,
                "5h"@,
            );
            let week = reset_seen(p.primary_window, s.primary_window, now, "weekly"@) + reset_seen(
                p.secondary_window,
                s.secondary_window,
                now,
                "weekly"@,
            );
            &&& after.today_auto_reset_5h == stats.today_auto_reset_5h + five
            &&& after.week_auto_reset_5h == stats.week_auto_reset_5h + five
            &&& after.total_auto_reset_5h == stats.total_auto_reset_5h + five
            &&& after.today_auto_reset_weekly == stats.today_auto_reset_weekly + week
            &&& after.week_auto_reset_weekly == stats.week_auto_reset_weekly + week
            &&& after.total_auto_reset_weekly == stats.total_auto_reset_weekly + week
        }),
{
}

/// Whether the used share of a pair of readings fell by five percent or more.
pub open spec fn fell_five_percent(old: Option<WindowModel>, new: Option<WindowModel>) -> bool {
    match (old, new) {
        (Some(o), Some(n)) => match (o.used_percent, n.used_percent) {
            (Some(x), Some(y)) => x - y >= 5_000_000_000,
            _ => false,
        },
        _ => false,
    }
}

/// A reset credit spent by hand is counted once, and the available count follows the new
/// snapshot. Against a previous snapshot, each manual counter (today, this week, in all) rises by
/// one exactly when the new snapshot's available count is below the earlier one (the previous
/// snapshot's count, or the remembered count when it gives none) and the used share of a window
/// pair fell by five percent or more; otherwise it stays. The available count, now and
/// remembered, becomes the new snapshot's count.
pub proof fn lemma_manual_reset_counted(stats: ResetStats, p: SnapshotModel, s: SnapshotModel, now: i64)
    requires
        stats.today_manual_reset_consumed + 1 <= u32::MAX,
        stats.week_manual_reset_consumed + 1 <= u32::MAX,
        stats.total_manual_reset_consumed + 1 <= u32::MAX,
    ensures
        ({
            let after = inferred_stats(stats, Some(p), s, now);
            let new_count = match s.credits {
                Some(c) => c.available_count,
                None => None,
            };
            let old_count = match p.credits {
                Some(c) => match c.available_count {
                    Some(n) => Some(n),
                    None => stats.last_available_reset_credits,
                },
                None => stats.last_available_reset_credits,
            };
            let spent: int = if (new_count matches Some(n) && old_count matches Some(o) && n < o)
                && (fell_five_percent(p.primary_window, s.primary_window) || fell_five_percent(
                p.secondary_window,
                s.secondary_window,
            )) {
                1
            } else {
                0
            };
            &&& after.today_manual_reset_consumed == stats.today_manual_reset_consumed + spent
            &&& after.week_manual_reset_consumed == stats.week_manual_reset_consumed + spent
            &&& after.total_manual_reset_consumed == stats.total_manual_reset_consumed + spent
            &&& after.available_reset_credits == new_count
            &&& after.last_available_reset_credits == new_count
        }),
{
}

/// With no previous snapshot nothing is counted: every counter stays, and the available count,
/// now and remembered, becomes the snapshot's count.
pub proof fn lemma_first_snapshot_counts_nothing(stats: ResetStats, s: SnapshotModel, now: i64)
    ensures
        ({
            let after = inferred_stats(stats, None, s, now);
            let count = match s.credits {
                Some(c) => c.available_count,
                None => None,
            };
            after == ResetStats {
                available_reset_credits: count,
                last_available_reset_credits: count,
                ..stats
            }
        }),
{
}

/// The counters have room for what a snapshot can add (the original would overflow).
pub open spec fn counters_have_room(
    stats: ResetStats,
    previous: Option<SnapshotModel>,
    snapshot: SnapshotModel,
    now: i64,
) -> bool {
    match previous {
        None => true,
        Some(p) => {
            let five = natural_hits(p, snapshot, now, "5h"@);
            let week = natural_hits(p, snapshot, now, "weekly"@);
            let manual: nat = if manual_reset(p, snapshot, stats.last_available_reset_credits) {
                1
            } else {
                0
            };
            &&& stats.today_auto_reset_5h + five <= u32::MAX
            &&& stats.week_auto_reset_5h + five <= u32::MAX
            &&& stats.total_auto_reset_5h + five <= u32::MAX
            &&& stats.today_auto_reset_weekly + week <= u32::MAX
            &&& stats.week_auto_reset_weekly + week <= u32::MAX
            &&& stats.total_auto_reset_weekly + week <= u32::MAX
            &&& stats.today_manual_reset_consumed + manual <= u32::MAX
            &&& stats.week_manual_reset_consumed + manual <= u32::MAX
            &&& stats.total_manual_reset_consumed + manual <= u32::MAX
        },
    }
}

/// The model of an optional snapshot.
pub open spec fn opt_snapshot(s: Option<CodexUsageSnapshot>) -> Option<SnapshotModel> {
    match s {
        Some(x) => Some(x@),
        None => None,
    }
}

/// Whether the used share fell by at least `min_delta` between two readings.
fn used_percent_dropped(old: &crate::model::UsageWindow, new: &crate::model::UsageWindow, min_delta: i64) -> (res: bool)
    requires
        min_delta >= 0,
    ensures
        res == used_dropped(old@, new@, min_delta as int),
{
    match (old.used_percent, new.used_percent) {
        (Some(a), Some(b)) => (a as i128) - (b as i128) >= min_delta as i128,
        _ => false,
    }
}

/// Which window a natural reset was seen in (see `natural_reset`); returns whether it was the
/// five-hour one and whether it was the weekly one.
fn record_natural_reset(
    old: &Option<crate::model::UsageWindow>,
    new: &Option<crate::model::UsageWindow>,
    now: i64,
) -> (res: (bool, bool))
    ensures
        res.0 == (natural_reset(
            crate::model::opt_window(*old),
            crate::model::opt_window(*new),
            now,
        ) == Some("5h"@)),
        res.1 == (natural_reset(
            crate::model::opt_window(*old),
            crate::model::opt_window(*new),
            now,
        ) == Some("weekly"@)),
{
    proof {
        reveal_strlit("5h");
        reveal_strlit("weekly");
    }
    let (o, n) = match (old, new) {
        (Some(o), Some(n)) => (o, n),
        _ => {
            return (false, false);
        },
    };
    let (old_at, new_at) = match (o.reset_at, n.reset_at) {
        (Some(a), Some(b)) => (a, b),
        _ => {
            return (false, false);
        },
    };
    if old_at >= now || new_at <= old_at || !used_percent_dropped(o, n, NATURAL_DROP) {
        return (false, false);
    }
    (same_text(n.name.as_str(), "5h"), same_text(n.name.as_str(), "weekly"))
}

/// Whether a pair of readings dropped by `MANUAL_DROP` or more.
fn option_window_dropped(
    old: &Option<crate::model::UsageWindow>,
    new: &Option<crate::model::UsageWindow>,
) -> (res: bool)
    ensures
        res == pair_dropped(crate::model::opt_window(*old), crate::model::opt_window(*new)),
{
    match (old, new) {
        (Some(o), Some(n)) => used_percent_dropped(o, n, MANUAL_DROP),
        _ => false,
    }
}

/// Whether a credit was spent by hand (see `manual_reset`).
fn should_record_manual_reset(
    previous: &CodexUsageSnapshot,
    snapshot: &CodexUsageSnapshot,
    remembered: Option<i64>,
) -> (res: bool)
    ensures
        res == manual_reset(previous@, snapshot@, remembered),
{
    let previous_count = match &previous.credits {
        Some(c) => c.available_count,
        None => None,
    };
    let old_count = match previous_count {
        Some(n) => n,
        None => match remembered {
            Some(n) => n,
            None => {
                return false;
            },
        },
    };
    let new_count = match &snapshot.credits {
        Some(c) => match c.available_count {
            Some(n) => n,
            None => {
                return false;
            },
        },
        None => {
            return false;
        },
    };
    new_count < old_count && (option_window_dropped(
        &previous.primary_window,
        &snapshot.primary_window,
    ) || option_window_dropped(&previous.secondary_window, &snapshot.secondary_window))
}

/// Counts the resets that a new snapshot shows against the previous one (see `inferred_stats`).
pub fn apply_reset_inference(
    stats: &mut ResetStats,
    previous: &Option<CodexUsageSnapshot>,
    snapshot: &CodexUsageSnapshot,
    now: i64,
)
    requires
        counters_have_room(*old(stats), opt_snapshot(*previous), snapshot@, now),
    ensures
        *final(stats) == inferred_stats(*old(stats), opt_snapshot(*previous), snapshot@, now),
{
    let count = match &snapshot.credits {
        Some(c) => c.available_count,
        None => None,
    };
    stats.available_reset_credits = count;
    if let Some(p) = previous {
        let (five_a, week_a) = record_natural_reset(&p.primary_window, &snapshot.primary_window, now);
        let (five_b, week_b) = record_natural_reset(
            &p.secondary_window,
            &snapshot.secondary_window,
            now,
        );
        proof {
            reveal_strlit("5h");
            reveal_strlit("weekly");
            assert("5h"@.len() != "weekly"@.len());
        }
        if five_a {
            stats.today_auto_reset_5h = stats.today_auto_reset_5h + 1;
            stats.week_auto_reset_5h = stats.week_auto_reset_5h + 1;
            stats.total_auto_reset_5h = stats.total_auto_reset_5h + 1;
        } else if week_a {
            stats.today_auto_reset_weekly = stats.today_auto_reset_weekly + 1;
            stats.week_auto_reset_weekly = stats.week_auto_reset_weekly + 1;
            stats.total_auto_reset_weekly = stats.total_auto_reset_weekly + 1;
        }
        if five_b {
            stats.today_auto_reset_5h = stats.today_auto_reset_5h + 1;
            stats.week_auto_reset_5h = stats.week_auto_reset_5h + 1;
            stats.total_auto_reset_5h = stats.total_auto_reset_5h + 1;
        } else if week_b {
            stats.today_auto_reset_weekly = stats.today_auto_reset_weekly + 1;
            stats.week_auto_reset_weekly = stats.week_auto_reset_weekly + 1;
            stats.total_auto_reset_weekly = stats.total_auto_reset_weekly + 1;
        }
        if should_record_manual_reset(p, snapshot, stats.last_available_reset_credits) {
            stats.today_manual_reset_consumed = stats.today_manual_reset_consumed + 1;
            stats.week_manual_reset_consumed = stats.week_manual_reset_consumed + 1;
            stats.total_manual_reset_consumed = stats.total_manual_reset_consumed + 1;
        }
    }
    stats.last_available_reset_credits = stats.available_reset_credits;
}

/// Counters only grow: a snapshot never lowers a day, week or total count, and it raises the
/// day, week and total count of a kind by the same amount.
pub proof fn lemma_counters_grow_together(
    stats: ResetStats,
    previous: Option<SnapshotModel>,
    snapshot: SnapshotModel,
    now: i64,
)
    requires
        counters_have_room(stats, previous, snapshot, now),
    ensures
        ({
            let after = inferred_stats(stats, previous, snapshot, now);
            &&& after.total_auto_reset_5h >= stats.total_auto_reset_5h
            &&& after.total_auto_reset_weekly >= stats.total_auto_reset_weekly
            &&& after.total_manual_reset_consumed >= stats.total_manual_reset_consumed
            &&& after.today_auto_reset_5h - stats.today_auto_reset_5h == after.week_auto_reset_5h
                - stats.week_auto_reset_5h
            &&& after.week_auto_reset_5h - stats.week_auto_reset_5h == after.total_auto_reset_5h
                - stats.total_auto_reset_5h
            &&& after.today_auto_reset_weekly - stats.today_auto_reset_weekly
                == after.total_auto_reset_weekly - stats.total_auto_reset_weekly
            &&& after.today_manual_reset_consumed - stats.today_manual_reset_consumed
                == after.total_manual_reset_consumed - stats.total_manual_reset_consumed
            &&& after.last_available_reset_credits == after.available_reset_credits
        }),
{
}

/// What the tracking keeps between snapshots.
#[derive(Debug)]
pub struct ResetTracking {
    pub last_snapshot: Option<CodexUsageSnapshot>,
    pub reset_stats: ResetStats,
    pub stats_start_at: Option<i64>,
    pub last_stats_date: Option<String>,
    pub last_stats_week_start: Option<String>,
}

/// The text of an optional string.
pub open spec fn opt_chars(o: Option<String>) -> Option<Seq<char>> {
    match o {
        Some(s) => Some(s@),
        None => None,
    }
}

/// How starting a new day or week of counting changes the tracking (see
/// `reset_period_counters`).
pub open spec fn period_counters_fit(
    before: ResetTracking,
    after: ResetTracking,
    today: Seq<char>,
    week_start: Seq<char>,
) -> bool {
    let s = before.reset_stats;
    let new_day = opt_chars(before.last_stats_date) != Some(today);
    let new_week = opt_chars(before.last_stats_week_start) != Some(week_start);
    &&& after.last_snapshot == before.last_snapshot
    &&& after.stats_start_at == before.stats_start_at
    &&& opt_chars(after.last_stats_date) == Some(today)
    &&& opt_chars(after.last_stats_week_start) == Some(week_start)
    &&& after.reset_stats == ResetStats {
        today_auto_reset_5h: if new_day { 0 } else { s.today_auto_reset_5h },
        today_auto_reset_weekly: if new_day { 0 } else { s.today_auto_reset_weekly },
        today_manual_reset_consumed: if new_day { 0 } else { s.today_manual_reset_consumed },
        week_auto_reset_5h: if new_week { 0 } else { s.week_auto_reset_5h },
        week_auto_reset_weekly: if new_week { 0 } else { s.week_auto_reset_weekly },
        week_manual_reset_consumed: if new_week { 0 } else { s.week_manual_reset_consumed },
        ..s
    }
}

/// Starts a new day or week of counting: when `today` differs from the day last counted, the
/// day counters go back to zero and `today` is remembered; likewise for the week that starts on
/// `week_start`.
pub fn reset_period_counters(tracking: &mut ResetTracking, today: &str, week_start: &str)
    ensures
        period_counters_fit(*old(tracking), *final(tracking), today@, week_start@),
{
    let same_day = match &tracking.last_stats_date {
        Some(d) => same_text(d.as_str(), today),
        None => false,
    };
    if !same_day {
        tracking.reset_stats.today_auto_reset_5h = 0;
        tracking.reset_stats.today_auto_reset_weekly = 0;
        tracking.reset_stats.today_manual_reset_consumed = 0;
        tracking.last_stats_date = Some(owned(today));
    }
    let same_week = match &tracking.last_stats_week_start {
        Some(w) => same_text(w.as_str(), week_start),
        None => false,
    };
    if !same_week {
        tracking.reset_stats.week_auto_reset_5h = 0;
        tracking.reset_stats.week_auto_reset_weekly = 0;
        tracking.reset_stats.week_manual_reset_consumed = 0;
        tracking.last_stats_week_start = Some(owned(week_start));
    }
}

/// The `%Y-%m-%d` text of the Monday that starts the week of `day`, when that Monday is a day
/// that `chrono` writes (and its number fits in an `i32`).
pub open spec fn monday_text(day: int) -> Option<Seq<char>> {
    if week_start_model(day) >= i32::MIN {
        calendar_date_text(week_start_model(day), "%Y-%m-%d"@)
    } else {
        None
    }
}

/// The period change on day `day` (days from the start of the common era), a day that `chrono`
/// writes: the counters follow `period_counters_fit` with the day's `%Y-%m-%d` text and that of
/// the Monday starting its week; when that Monday lies before the first day `chrono` writes, the
/// tracking stays as it was.
pub open spec fn period_change_on(before: ResetTracking, after: ResetTracking, day: int) -> bool {
    match calendar_date_text(day, "%Y-%m-%d"@) {
        Some(t) => match monday_text(day) {
            Some(w) => period_counters_fit(before, after, t, w),
            None => after == before,
        },
        None => false,
    }
}

/// Starts a new day or week of counting at the machine's current local date. Which day that is
/// depends on the clock, so the result is stated for some day (see `period_change_on`).
pub fn reset_period_counters_today(tracking: &mut ResetTracking)
    ensures
        exists|day: int| #[trigger] period_change_on(*old(tracking), *final(tracking), day),
{
    let (today, today_text) = local_date("%Y-%m-%d");
    let week: i64 = week_start_day(today);
    if week < i32::MIN as i64 {
        assert(period_change_on(*old(tracking), *tracking, today as int));
        return;
    }
    match calendar_text(week as i32, "%Y-%m-%d") {
        Some(w) => {
            reset_period_counters(tracking, today_text.as_str(), w.as_str());
            assert(period_change_on(*old(tracking), *tracking, today as int));
        },
        None => {
            assert(period_change_on(*old(tracking), *tracking, today as int));
        },
    }
}

/// Finishes a snapshot at the time `now`: stamps it, counts the resets it shows against the last
/// one, keeps it as the last one, and starts the statistics at its time when they had not
/// started.
pub fn finalize_snapshot_at(snapshot: CodexUsageSnapshot, tracking: &mut ResetTracking, now: i64) -> (res:
    CodexUsageSnapshot)
    requires
        counters_have_room(
            old(tracking).reset_stats,
            opt_snapshot(old(tracking).last_snapshot),
            SnapshotModel { updated_at: now, ..snapshot@ },
            now,
        ),
    ensures
        res@ == (SnapshotModel { updated_at: now, ..snapshot@ }),
        final(tracking).reset_stats == inferred_stats(
            old(tracking).reset_stats,
            opt_snapshot(old(tracking).last_snapshot),
            res@,
            now,
        ),
        opt_snapshot(final(tracking).last_snapshot) == Some(res@),
        final(tracking).stats_start_at == match old(tracking).stats_start_at {
            Some(t) => Some(t),
            None => Some(now),
        },
        final(tracking).last_stats_date == old(tracking).last_stats_date,
        final(tracking).last_stats_week_start == old(tracking).last_stats_week_start,
{
    let mut snapshot = snapshot;
    snapshot.updated_at = now;
    apply_reset_inference(&mut tracking.reset_stats, &tracking.last_snapshot, &snapshot, now);
    tracking.last_snapshot = Some(snapshot.duplicate());
    if tracking.stats_start_at.is_none() {
        tracking.stats_start_at = Some(snapshot.updated_at);
    }
    snapshot
}

} // verus!
