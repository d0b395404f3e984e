//! What the gauge keeps between runs, where it keeps it, and how a new snapshot is merged with
//! the last good one.
use vstd::prelude::*;

use crate::auth_json::{join_path, joined_path};
use crate::model::{
    copy_opt_credits, copy_opt_text, copy_opt_window, CodexUsageSnapshot, SnapshotModel,
    SnapshotStatus,
};
use crate::text::{join3, owned, push_text};

verus! {

/// The state kept between runs: the last snapshot shown, how many refreshes failed in a row,
/// and when the last one succeeded.
#[derive(Debug)]
pub struct StateDocument {
    pub last_snapshot: Option<CodexUsageSnapshot>,
    pub consecutive_failures: u32,
    pub last_success_at: Option<i64>,
}

/// What the kept state holds.
pub struct StateModel {
    pub last_snapshot: Option<SnapshotModel>,
    pub consecutive_failures: u32,
    pub last_success_at: Option<i64>,
}

impl View for StateDocument {
    type V = StateModel;

    open spec fn view(&self) -> StateModel {
        StateModel {
            last_snapshot: match self.last_snapshot {
                Some(s) => Some(s@),
                None => None,
            },
            consecutive_failures: self.consecutive_failures,
            last_success_at: self.last_success_at,
        }
    }
}

impl Default for StateDocument {
    /// Nothing kept yet.
    fn default() -> (res: StateDocument)
        ensures
            res@ == (StateModel {
                last_snapshot: None,
                consecutive_failures: 0,
                last_success_at: None,
            }),
    {
        StateDocument { last_snapshot: None, consecutive_failures: 0, last_success_at: None }
    }
}

/// A refresh failed: its status is not a success and it brought no window.
pub open spec fn refresh_failed(s: SnapshotModel) -> bool {
    s.status != SnapshotStatus::Success && s.primary_window.is_none() && s.secondary_window.is_none()
}

/// What is shown after a refresh: a failed refresh keeps showing the windows of the last
/// snapshot, and its credits and plan where it has none of its own.
pub open spec fn merged_snapshot(s: SnapshotModel, last: Option<SnapshotModel>) -> SnapshotModel {
    match last {
        Some(l) if refresh_failed(s) => SnapshotModel {
            primary_window: l.primary_window,
            primary_window_unlimited: l.primary_window_unlimited,
            secondary_window: l.secondary_window,
            credits: if s.credits.is_some() {
                s.credits
            } else {
                l.credits
            },
            plan_type: if s.plan_type.is_some() {
                s.plan_type
            } else {
                l.plan_type
            },
            ..s
        },
        _ => s,
    }
}

/// The state after a refresh that gave `s`: a failure counts one more failure in a row
/// (saturating), a success resets the count and records its time; the shown snapshot is kept.
pub open spec fn state_after(state: StateModel, s: SnapshotModel) -> StateModel {
    let shown = merged_snapshot(s, state.last_snapshot);
    if refresh_failed(s) {
        StateModel {
            last_snapshot: Some(shown),
            consecutive_failures: if state.consecutive_failures == u32::MAX {
                u32::MAX
            } else {
                (state.consecutive_failures + 1) as u32
            },
            last_success_at: state.last_success_at,
        }
    } else {
        StateModel {
            last_snapshot: Some(shown),
            consecutive_failures: 0,
            last_success_at: Some(s.updated_at),
        }
    }
}

/// Merges a new snapshot with the last one kept (see `merged_snapshot`) and updates the kept
/// state (see `state_after`); returns the snapshot to show.
pub fn merge_with_last_success(snapshot: CodexUsageSnapshot, state: &mut StateDocument) -> (res:
    CodexUsageSnapshot)
    ensures
        res@ == merged_snapshot(snapshot@, old(state)@.last_snapshot),
        final(state)@ == state_after(old(state)@, snapshot@),
{
    let mut snapshot = snapshot;
    let has_usage = snapshot.primary_window.is_some() || snapshot.secondary_window.is_some();
    if snapshot.status != SnapshotStatus::Success && !has_usage {
        if let Some(last) = &state.last_snapshot {
            snapshot.primary_window = copy_opt_window(&last.primary_window);
            snapshot.primary_window_unlimited = last.primary_window_unlimited;
            snapshot.secondary_window = copy_opt_window(&last.secondary_window);
            if snapshot.credits.is_none() {
                snapshot.credits = copy_opt_credits(&last.credits);
            }
            if snapshot.plan_type.is_none() {
                snapshot.plan_type = copy_opt_text(&last.plan_type);
            }
        }
        state.consecutive_failures = state.consecutive_failures.saturating_add(1);
    } else {
        state.consecutive_failures = 0;
        state.last_success_at = Some(snapshot.updated_at);
    }
    state.last_snapshot = Some(snapshot.duplicate());
    snapshot
}

/// A failed refresh never loses the windows that were shown before it, and the count of
/// failures in a row grows by one (until it saturates); a successful one resets it.
pub proof fn lemma_failure_keeps_last_usage(state: StateModel, s: SnapshotModel)
    requires
        state.last_snapshot.is_some(),
    ensures
        refresh_failed(s) ==> merged_snapshot(s, state.last_snapshot).primary_window
            == state.last_snapshot.unwrap().primary_window && merged_snapshot(
            s,
            state.last_snapshot,
        ).secondary_window == state.last_snapshot.unwrap().secondary_window,
        refresh_failed(s) && state.consecutive_failures < u32::MAX ==> state_after(
            state,
            s,
        ).consecutive_failures == state.consecutive_failures + 1,
        !refresh_failed(s) ==> merged_snapshot(s, state.last_snapshot) == s && state_after(
            state,
            s,
        ).consecutive_failures == 0,
        state_after(state, s).last_snapshot == Some(merged_snapshot(s, state.last_snapshot)),
{
}

/// How long to wait before the next refresh: the configured interval while refreshes succeed,
/// then 30 s, 60 s, 120 s and at most 300 s as failures pile up.
pub open spec fn refresh_delay_model(failures: u32, configured: u64) -> u64 {
    if failures == 0 {
        configured
    } else if failures == 1 {
        30
    } else if failures == 2 {
        60
    } else if failures == 3 {
        120
    } else {
        300
    }
}

/// The wait before the next refresh, in seconds (see `refresh_delay_model`).
pub fn refresh_delay(failures: u32, configured: u64) -> (res: u64)
    ensures
        res == refresh_delay_model(failures, configured),
{
    match failures {
        0 => configured,
        1 => 30,
        2 => 60,
        3 => 120,
        _ => 300,
    }
}

/// After a failure the wait never shrinks as more failures follow.
pub proof fn lemma_backoff_grows(a: u32, b: u32, configured: u64)
    requires
        1 <= a <= b,
    ensures
        refresh_delay_model(a, configured) <= refresh_delay_model(b, configured),
        refresh_delay_model(b, configured) <= 300,
{
}

/// The folder that holds the gauge's files, and the names of those files.
#[derive(Debug, Clone)]
pub struct AppStorage {
    pub root: String,
}

/// The folder of the gauge's files under the system data folder (`.` when there is none).
pub open spec fn storage_root(data_dir: Option<Seq<char>>) -> Seq<char> {
    joined_path(
        match data_dir {
            Some(d) => d,
            None => "."@,
        },
        "CodexGaugeNative"@,
    )
}

impl AppStorage {
    /// The storage under the system data folder (see `storage_root`).
    pub fn new(data_dir: Option<String>) -> (res: AppStorage)
        ensures
            res.root@ == storage_root(match data_dir {
                Some(d) => Some(d@),
                None => None,
            }),
    {
        let base = match data_dir {
            Some(d) => d,
            None => owned("."),
        };
        AppStorage { root: join_path(base.as_str(), "CodexGaugeNative") }
    }

    /// The storage kept in `root`.
    pub fn with_root(root: String) -> (res: AppStorage)
        ensures
            res.root@ == root@,
    {
        AppStorage { root }
    }

    /// The settings file.
    pub fn config_path(&self) -> (res: String)
        ensures
            res@ == joined_path(self.root@, "config.json"@),
    {
        join_path(self.root.as_str(), "config.json")
    }

    /// The file of the kept state.
    pub fn state_path(&self) -> (res: String)
        ensures
            res@ == joined_path(self.root@, "state.json"@),
    {
        join_path(self.root.as_str(), "state.json")
    }

    /// The log of update checks and installs.
    pub fn update_log_path(&self) -> (res: String)
        ensures
            res@ == joined_path(self.root@, "update.log"@),
    {
        join_path(self.root.as_str(), "update.log")
    }

    /// The daily history of usage.
    pub fn usage_history_path(&self) -> (res: String)
        ensures
            res@ == joined_path(self.root@, "usage-history.json"@),
    {
        join_path(self.root.as_str(), "usage-history.json")
    }
}

/// The size past which the update log is emptied before the next line is written.
pub const UPDATE_LOG_LIMIT: u64 = 262_144;

/// Whether a log of `len` bytes is emptied before the next line.
pub fn update_log_full(len: u64) -> (res: bool)
    ensures
        res == (len > UPDATE_LOG_LIMIT),
{
    len > UPDATE_LOG_LIMIT
}

/// One line of the update log: the time, then what was done, how it went and why, and nothing
/// else.
pub open spec fn update_log_line_model(
    timestamp: Seq<char>,
    method: Seq<char>,
    outcome: Seq<char>,
    category: Seq<char>,
) -> Seq<char> {
    timestamp + " method="@ + method + " outcome="@ + outcome + " category="@ + category + "\n"@
}

/// Formats one line of the update log (see `update_log_line_model`).
pub fn update_log_line(timestamp: &str, method: &str, outcome: &str, category: &str) -> (res:
    String)
    ensures
        res@ == update_log_line_model(timestamp@, method@, outcome@, category@),
{
    let mut line = join3(timestamp, " method=", method);
    push_text(&mut line, " outcome=");
    push_text(&mut line, outcome);
    push_text(&mut line, " category=");
    push_text(&mut line, category);
    push_text(&mut line, "\n");
    line
}

} // verus!
