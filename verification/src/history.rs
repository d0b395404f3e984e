//! The usage history: one entry per day for the last ninety days, each with the day's token
//! count and the usage seen at every refresh.
use vstd::prelude::*;

use crate::clock::{
    calendar_date_text, calendar_day, clock_text_shape, local_date, local_time_text,
    parse_calendar_day,
};
use crate::model::{CodexUsageSnapshot, SnapshotModel};
use crate::reset::ResetStats;
use crate::text::{owned, same_text};

verus! {

/// Days that the history keeps: an entry stays while it is less than this many days old.
pub const HISTORY_DAYS: i64 = 90;

/// The usage seen at one refresh: local time, used percentages (in billionths of a percent
/// point, see `PERCENT_UNIT`) and the reset credits available.
#[derive(Debug, Clone)]
pub struct UsageHistorySnapshot {
    pub time: String,
    pub five_hour_used_percent: Option<i64>,
    pub weekly_used_percent: Option<i64>,
    pub available_reset_credits: Option<i64>,
}

/// The model of a refresh record: its time as text, the rest as it is.
pub struct SnapshotRecord {
    pub time: Seq<char>,
    pub five_hour_used_percent: Option<i64>,
    pub weekly_used_percent: Option<i64>,
    pub available_reset_credits: Option<i64>,
}

impl View for UsageHistorySnapshot {
    type V = SnapshotRecord;

    open spec fn view(&self) -> SnapshotRecord {
        SnapshotRecord {
            time: self.time@,
            five_hour_used_percent: self.five_hour_used_percent,
            weekly_used_percent: self.weekly_used_percent,
            available_reset_credits: self.available_reset_credits,
        }
    }
}

impl UsageHistorySnapshot {
    /// A copy with the same view.
    pub fn duplicate(&self) -> (res: UsageHistorySnapshot)
        ensures
            res@ == self@,
    {
        UsageHistorySnapshot {
            time: owned(self.time.as_str()),
            five_hour_used_percent: self.five_hour_used_percent,
            weekly_used_percent: self.weekly_used_percent,
            available_reset_credits: self.available_reset_credits,
        }
    }
}

/// One day of the history: its `%Y-%m-%d` date, its token count, and the refreshes seen.
#[derive(Debug, Clone)]
pub struct DailyUsageHistory {
    pub date: String,
    pub tokens: Option<i64>,
    pub snapshots: Vec<UsageHistorySnapshot>,
}

/// The model of a day of the history.
pub struct DayRecord {
    pub date: Seq<char>,
    pub tokens: Option<i64>,
    pub snapshots: Seq<SnapshotRecord>,
}

/// The models of a list of refresh records.
pub open spec fn snapshot_records(s: Seq<UsageHistorySnapshot>) -> Seq<SnapshotRecord> {
    s.map_values(|r: UsageHistorySnapshot| r@)
}

impl View for DailyUsageHistory {
    type V = DayRecord;

    open spec fn view(&self) -> DayRecord {
        DayRecord { date: self.date@, tokens: self.tokens, snapshots: snapshot_records(self.snapshots@) }
    }
}

/// The usage history document.
#[derive(Debug, Clone)]
pub struct UsageHistory {
    pub version: u32,
    pub daily: Vec<DailyUsageHistory>,
}

/// The models of a list of days.
pub open spec fn day_records(s: Seq<DailyUsageHistory>) -> Seq<DayRecord> {
    s.map_values(|d: DailyUsageHistory| d@)
}

impl Default for UsageHistory {
    /// An empty history of the current format.
    fn default() -> (res: UsageHistory)
        ensures
            res.version == 1,
            res.daily@.len() == 0,
    {
        UsageHistory { version: 1, daily: Vec::new() }
    }
}

/// A day stays in the history when its date reads as a day less than `HISTORY_DAYS` before
/// `today`; an entry whose date does not read stays no longer.
pub open spec fn day_kept(date: Seq<char>, today: int) -> bool {
    match calendar_day(date, "%Y-%m-%d"@) {
        Some(d) => today - d < HISTORY_DAYS,
        None => false,
    }
}

/// The days of `days` that stay, in their order.
pub open spec fn kept_days(days: Seq<DayRecord>, today: int) -> Seq<DayRecord>
    decreases days.len(),
{
    if days.len() == 0 {
        Seq::empty()
    } else {
        let rest = kept_days(days.drop_last(), today);
        if day_kept(days.last().date, today) {
            rest.push(days.last())
        } else {
            rest
        }
    }
}

/// Index of the first day dated `date`, from index `i` on.
pub open spec fn day_index_from(days: Seq<DayRecord>, date: Seq<char>, i: int) -> Option<int>
    decreases days.len() - i,
{
    if i < 0 || i >= days.len() {
        None
    } else if days[i].date == date {
        Some(i)
    } else {
        day_index_from(days, date, i + 1)
    }
}

/// The history after a refresh on day `today` (dated `date`): old days dropped, then the
/// refresh added to the first entry dated `date` with the day's tokens replaced, or a new entry
/// for the day at the end.
pub open spec fn recorded_days(
    days: Seq<DayRecord>,
    today: int,
    date: Seq<char>,
    tokens: Option<i64>,
    record: SnapshotRecord,
) -> Seq<DayRecord> {
    let kept = kept_days(days, today);
    match day_index_from(kept, date, 0) {
        Some(i) => kept.update(
            i,
            DayRecord { date: kept[i].date, tokens, snapshots: kept[i].snapshots.push(record) },
        ),
        None => kept.push(DayRecord { date, tokens, snapshots: seq![record] }),
    }
}

impl DailyUsageHistory {
    /// A copy with the same view.
    pub fn duplicate(&self) -> (res: DailyUsageHistory)
        ensures
            res@ == self@,
    {
        let mut snapshots: Vec<UsageHistorySnapshot> = Vec::new();
        let n = self.snapshots.len();
        let mut i: usize = 0;
        while i < n
            invariant
                n == self.snapshots@.len(),
                i <= n,
                snapshots@.len() == i,
                forall|j: int| 0 <= j < i ==> #[trigger] snapshots@[j]@ == self.snapshots@[j]@,
            decreases n - i,
        {
            snapshots.push(self.snapshots[i].duplicate());
            i = i + 1;
        }
        assert(snapshot_records(snapshots@) =~= snapshot_records(self.snapshots@));
        DailyUsageHistory { date: owned(self.date.as_str()), tokens: self.tokens, snapshots }
    }
}

/// Whether a day of the history stays on day `today` (see `day_kept`).
fn keeps_day(date: &str, today: i32) -> (res: bool)
    ensures
        res == day_kept(date@, today as int),
{
    match parse_calendar_day(date, "%Y-%m-%d") {
        Some(d) => (today as i64) - (d as i64) < HISTORY_DAYS,
        None => false,
    }
}

/// Records one refresh in the history (see `recorded_days`); the version stays as it was.
pub fn record_usage(
    history: &mut UsageHistory,
    today: i32,
    date: &str,
    tokens: Option<i64>,
    record: UsageHistorySnapshot,
)
    ensures
        final(history).version == old(history).version,
        day_records(final(history).daily@) == recorded_days(
            day_records(old(history).daily@),
            today as int,
            date@,
            tokens,
            record@,
        ),
{
    let ghost days = day_records(history.daily@);
    let mut kept: Vec<DailyUsageHistory> = Vec::new();
    let n = history.daily.len();
    let mut i: usize = 0;
    while i < n
        invariant
            n == history.daily@.len(),
            days == day_records(history.daily@),
            i <= n,
            day_records(kept@) == kept_days(days.take(i as int), today as int),
        decreases n - i,
    {
        assert(days.take(i as int) =~= days.take((i + 1) as int).drop_last());
        if keeps_day(history.daily[i].date.as_str(), today) {
            kept.push(history.daily[i].duplicate());
        }
        i = i + 1;
        assert(day_records(kept@) =~= kept_days(days.take(i as int), today as int));
    }
    assert(days.take(n as int) =~= days);
    let ghost kept_model = day_records(kept@);
    let m = kept.len();
    let mut j: usize = 0;
    let mut found: Option<usize> = None;
    while j < m
        invariant_except_break
            found is None,
        invariant
            m == kept@.len(),
            kept_model == day_records(kept@),
            j <= m,
            found is None ==> day_index_from(kept_model, date@, 0) == day_index_from(
                kept_model,
                date@,
                j as int,
            ),
            found matches Some(k) ==> day_index_from(kept_model, date@, 0) == Some(k as int),
            found matches Some(k) ==> k < m,
        ensures
            found matches Some(k) ==> k < m,
            found matches Some(k) ==> day_index_from(kept_model, date@, 0) == Some(k as int),
            found is None ==> day_index_from(kept_model, date@, 0) is None,
        decreases m - j,
    {
        if same_text(kept[j].date.as_str(), date) {
            found = Some(j);
            break;
        }
        j = j + 1;
    }
    match found {
        Some(k) => {
            let mut day = kept[k].duplicate();
            day.tokens = tokens;
            day.snapshots.push(record);
            assert(snapshot_records(day.snapshots@) =~= kept_model[k as int].snapshots.push(
                record@,
            ));
            kept.set(k, day);
            assert(day_records(kept@) =~= recorded_days(days, today as int, date@, tokens, record@));
        },
        None => {
            let mut snapshots: Vec<UsageHistorySnapshot> = Vec::new();
            snapshots.push(record);
            assert(snapshot_records(snapshots@) =~= seq![record@]);
            kept.push(DailyUsageHistory { date: owned(date), tokens, snapshots });
            assert(day_records(kept@) =~= recorded_days(days, today as int, date@, tokens, record@));
        },
    }
    history.daily = kept;
}

/// The refresh record of a snapshot seen at local time `time`: the used percentages of its
/// five-hour and weekly windows and the reset credits available.
pub open spec fn snapshot_record(time: Seq<char>, snapshot: SnapshotModel, stats: ResetStats) -> SnapshotRecord {
    SnapshotRecord {
        time,
        five_hour_used_percent: match snapshot.primary_window {
            Some(w) => w.used_percent,
            None => None,
        },
        weekly_used_percent: match snapshot.secondary_window {
            Some(w) => w.used_percent,
            None => None,
        },
        available_reset_credits: stats.available_reset_credits,
    }
}

/// Recording on day `day` (days from the start of the common era) at local time `time`, an
/// `hh:mm:ss` text.
pub open spec fn recorded_on(
    before: Seq<DayRecord>,
    after: Seq<DayRecord>,
    day: int,
    time: Seq<char>,
    tokens: Option<i64>,
    snapshot: SnapshotModel,
    stats: ResetStats,
) -> bool {
    clock_text_shape(time, "%H:%M:%S"@) && match calendar_date_text(day, "%Y-%m-%d"@) {
        Some(date) => after == recorded_days(
            before,
            day,
            date,
            tokens,
            snapshot_record(time, snapshot, stats),
        ),
        None => false,
    }
}

/// Records a refresh in the history at the machine's current local date and time, with the
/// day's token count `tokens`. Which day and time that is depends on the clock, so the result
/// is stated for some day and time: the history is always the one that recording on that day
/// and at that time gives (see `recorded_on`).
pub fn record_usage_now(
    history: &mut UsageHistory,
    snapshot: &CodexUsageSnapshot,
    stats: &ResetStats,
    tokens: Option<i64>,
)
    ensures
        final(history).version == old(history).version,
        exists|day: int, time: Seq<char>|
            #[trigger] recorded_on(
                day_records(old(history).daily@),
                day_records(final(history).daily@),
                day,
                time,
                tokens,
                snapshot@,
                *stats,
            ),
{
    let (today, date) = local_date("%Y-%m-%d");
    let time = local_time_text("%H:%M:%S");
    let ghost time_model = time@;
    let record = UsageHistorySnapshot {
        time,
        five_hour_used_percent: match &snapshot.primary_window {
            Some(w) => w.used_percent,
            None => None,
        },
        weekly_used_percent: match &snapshot.secondary_window {
            Some(w) => w.used_percent,
            None => None,
        },
        available_reset_credits: stats.available_reset_credits,
    };
    assert(record@ == snapshot_record(time_model, snapshot@, *stats));
    let ghost before = day_records(history.daily@);
    record_usage(history, today, date.as_str(), tokens, record);
    assert(recorded_on(
        before,
        day_records(history.daily@),
        today as int,
        time_model,
        tokens,
        snapshot@,
        *stats,
    ));
}

/// Every day that stays in the history is less than `HISTORY_DAYS` old, and dropping old days
/// never adds any.
pub proof fn lemma_history_window(days: Seq<DayRecord>, today: int)
    ensures
        forall|i: int|
            0 <= i < kept_days(days, today).len() ==> #[trigger] day_kept(
                kept_days(days, today)[i].date,
                today,
            ),
        kept_days(days, today).len() <= days.len(),
    decreases days.len(),
{
    if days.len() > 0 {
        lemma_history_window(days.drop_last(), today);
    }
}

} // verus!
