//! The usage snapshot that every part of the gauge shares.
use vstd::prelude::*;

use crate::clock::unix_now;

verus! {

/// The characters of an optional string.
pub open spec fn opt_text(o: Option<String>) -> Option<Seq<char>> {
    match o {
        Some(s) => Some(s@),
        None => None,
    }
}

/// A copy of an optional string.
pub fn copy_opt_text(o: &Option<String>) -> (res: Option<String>)
    ensures
        opt_text(res) == opt_text(*o),
{
    match o {
        Some(s) => Some(s.clone()),
        None => None,
    }
}

/// One rate-limit window. Percentages are in fixed point (`decimal::PERCENT_UNIT` is 1%).
#[derive(Debug)]
pub struct UsageWindow {
    pub name: String,
    pub used_percent: Option<i64>,
    pub remaining_percent: Option<i64>,
    pub reset_at: Option<i64>,
    pub window_duration_seconds: Option<i64>,
}

/// What a window holds, with its name as characters.
pub struct WindowModel {
    pub name: Seq<char>,
    pub used_percent: Option<i64>,
    pub remaining_percent: Option<i64>,
    pub reset_at: Option<i64>,
    pub window_duration_seconds: Option<i64>,
}

impl View for UsageWindow {
    type V = WindowModel;

    open spec fn view(&self) -> WindowModel {
        WindowModel {
            name: self.name@,
            used_percent: self.used_percent,
            remaining_percent: self.remaining_percent,
            reset_at: self.reset_at,
            window_duration_seconds: self.window_duration_seconds,
        }
    }
}

/// The model of an optional window.
pub open spec fn opt_window(o: Option<UsageWindow>) -> Option<WindowModel> {
    match o {
        Some(w) => Some(w@),
        None => None,
    }
}

impl UsageWindow {
    /// A copy of this window.
    pub fn duplicate(&self) -> (res: UsageWindow)
        ensures
            res@ == self@,
    {
        UsageWindow {
            name: self.name.clone(),
            used_percent: self.used_percent,
            remaining_percent: self.remaining_percent,
            reset_at: self.reset_at,
            window_duration_seconds: self.window_duration_seconds,
        }
    }
}

/// A copy of an optional window.
pub fn copy_opt_window(o: &Option<UsageWindow>) -> (res: Option<UsageWindow>)
    ensures
        opt_window(res) == opt_window(*o),
{
    match o {
        Some(w) => Some(w.duplicate()),
        None => None,
    }
}

/// One reset credit as the service lists it. The two times are local date-time texts.
#[derive(Debug)]
pub struct ResetCreditItem {
    pub status: Option<String>,
    pub title: Option<String>,
    pub granted_at: Option<String>,
    pub expires_at: Option<String>,
}

/// What a reset credit holds, as characters.
pub struct CreditItemModel {
    pub status: Option<Seq<char>>,
    pub title: Option<Seq<char>>,
    pub granted_at: Option<Seq<char>>,
    pub expires_at: Option<Seq<char>>,
}

impl View for ResetCreditItem {
    type V = CreditItemModel;

    open spec fn view(&self) -> CreditItemModel {
        CreditItemModel {
            status: opt_text(self.status),
            title: opt_text(self.title),
            granted_at: opt_text(self.granted_at),
            expires_at: opt_text(self.expires_at),
        }
    }
}

impl ResetCreditItem {
    /// A copy of this credit.
    pub fn duplicate(&self) -> (res: ResetCreditItem)
        ensures
            res@ == self@,
    {
        ResetCreditItem {
            status: copy_opt_text(&self.status),
            title: copy_opt_text(&self.title),
            granted_at: copy_opt_text(&self.granted_at),
            expires_at: copy_opt_text(&self.expires_at),
        }
    }
}

/// The reset credits of the account.
#[derive(Debug)]
pub struct UsageCredits {
    pub available_count: Option<i64>,
    pub reset_credits: Option<i64>,
    pub reset_at: Option<i64>,
    pub items: Vec<ResetCreditItem>,
}

/// What the reset credits hold.
pub struct CreditsModel {
    pub available_count: Option<i64>,
    pub reset_credits: Option<i64>,
    pub reset_at: Option<i64>,
    pub items: Seq<CreditItemModel>,
}

impl View for UsageCredits {
    type V = CreditsModel;

    open spec fn view(&self) -> CreditsModel {
        CreditsModel {
            available_count: self.available_count,
            reset_credits: self.reset_credits,
            reset_at: self.reset_at,
            items: self.items@.map_values(|i: ResetCreditItem| i@),
        }
    }
}

/// The model of optional credits.
pub open spec fn opt_credits(o: Option<UsageCredits>) -> Option<CreditsModel> {
    match o {
        Some(c) => Some(c@),
        None => None,
    }
}

impl UsageCredits {
    /// A copy of these credits.
    pub fn duplicate(&self) -> (res: UsageCredits)
        ensures
            res@ == self@,
    {
        let mut items: Vec<ResetCreditItem> = Vec::new();
        let n = self.items.len();
        let mut i: usize = 0;
        while i < n
            invariant
                n == self.items@.len(),
                i <= n,
                items@.len() == i,
                forall|j: int| 0 <= j < i ==> #[trigger] items@[j]@ == self.items@[j]@,
            decreases n - i,
        {
            items.push(self.items[i].duplicate());
            i = i + 1;
        }
        let res = UsageCredits {
            available_count: self.available_count,
            reset_credits: self.reset_credits,
            reset_at: self.reset_at,
            items,
        };
        assert(res@.items =~= self@.items);
        res
    }
}

/// A copy of optional credits.
pub fn copy_opt_credits(o: &Option<UsageCredits>) -> (res: Option<UsageCredits>)
    ensures
        opt_credits(res) == opt_credits(*o),
{
    match o {
        Some(c) => Some(c.duplicate()),
        None => None,
    }
}

/// Where a snapshot came from.
#[derive(Debug, Clone, Copy, PartialEq, Eq, Structural)]
pub enum SnapshotSource {
    AuthJson,
    AppServer,
}

/// How the last query went.
#[derive(Debug, Clone, Copy, PartialEq, Eq, Structural)]
pub enum SnapshotStatus {
    Success,
    NotLoggedIn,
    InvalidAuth,
    RequestFailed,
}

/// A usage snapshot: the two windows, the plan and the reset credits.
#[derive(Debug)]
pub struct CodexUsageSnapshot {
    pub source: SnapshotSource,
    pub status: SnapshotStatus,
    pub plan_type: Option<String>,
    pub primary_window: Option<UsageWindow>,
    pub primary_window_unlimited: bool,
    pub secondary_window: Option<UsageWindow>,
    pub credits: Option<UsageCredits>,
    pub rate_limit_reached_type: Option<String>,
    pub updated_at: i64,
}

/// What a snapshot holds.
pub struct SnapshotModel {
    pub source: SnapshotSource,
    pub status: SnapshotStatus,
    pub plan_type: Option<Seq<char>>,
    pub primary_window: Option<WindowModel>,
    pub primary_window_unlimited: bool,
    pub secondary_window: Option<WindowModel>,
    pub credits: Option<CreditsModel>,
    pub rate_limit_reached_type: Option<Seq<char>>,
    pub updated_at: i64,
}

impl View for CodexUsageSnapshot {
    type V = SnapshotModel;

    open spec fn view(&self) -> SnapshotModel {
        SnapshotModel {
            source: self.source,
            status: self.status,
            plan_type: opt_text(self.plan_type),
            primary_window: opt_window(self.primary_window),
            primary_window_unlimited: self.primary_window_unlimited,
            secondary_window: opt_window(self.secondary_window),
            credits: opt_credits(self.credits),
            rate_limit_reached_type: opt_text(self.rate_limit_reached_type),
            updated_at: self.updated_at,
        }
    }
}

/// A snapshot with nothing in it yet.
pub open spec fn empty_model(source: SnapshotSource, status: SnapshotStatus, now: i64) -> SnapshotModel {
    SnapshotModel {
        source,
        status,
        plan_type: None,
        primary_window: None,
        primary_window_unlimited: false,
        secondary_window: None,
        credits: None,
        rate_limit_reached_type: None,
        updated_at: now,
    }
}

/// The five-hour window counts as unlimited when a successful query reported only the weekly
/// window.
pub open spec fn unlimited_five_hour(s: SnapshotModel) -> bool {
    s.status == SnapshotStatus::Success && s.primary_window.is_none() && s.secondary_window.is_some()
}

impl CodexUsageSnapshot {
    /// An empty snapshot stamped with the time `now`.
    pub fn empty_at(source: SnapshotSource, status: SnapshotStatus, now: i64) -> (res: Self)
        ensures
            res@ == empty_model(source, status, now),
    {
        CodexUsageSnapshot {
            source,
            status,
            plan_type: None,
            primary_window: None,
            primary_window_unlimited: false,
            secondary_window: None,
            credits: None,
            rate_limit_reached_type: None,
            updated_at: now,
        }
    }

    /// An empty snapshot stamped with the current time.
    pub fn empty(source: SnapshotSource, status: SnapshotStatus) -> (res: Self)
        ensures
            res@ == empty_model(source, status, res.updated_at),
    {
        Self::empty_at(source, status, unix_now())
    }

    /// Stamps the snapshot with `now` and decides whether the five-hour window is unlimited.
    pub fn normalize_at(&mut self, now: i64)
        ensures
            final(self)@ == (SnapshotModel {
                updated_at: now,
                primary_window_unlimited: unlimited_five_hour(old(self)@),
                ..old(self)@
            }),
    {
        self.updated_at = now;
        self.primary_window_unlimited = self.status == SnapshotStatus::Success
            && self.primary_window.is_none() && self.secondary_window.is_some();
    }

    /// Stamps the snapshot with the current time and decides whether the five-hour window is
    /// unlimited.
    pub fn normalize(&mut self)
        ensures
            final(self)@ == (SnapshotModel {
                updated_at: final(self).updated_at,
                primary_window_unlimited: unlimited_five_hour(old(self)@),
                ..old(self)@
            }),
    {
        let now = unix_now();
        self.normalize_at(now);
    }

    /// A copy of this snapshot.
    pub fn duplicate(&self) -> (res: Self)
        ensures
            res@ == self@,
    {
        CodexUsageSnapshot {
            source: self.source,
            status: self.status,
            plan_type: copy_opt_text(&self.plan_type),
            primary_window: copy_opt_window(&self.primary_window),
            primary_window_unlimited: self.primary_window_unlimited,
            secondary_window: copy_opt_window(&self.secondary_window),
            credits: copy_opt_credits(&self.credits),
            rate_limit_reached_type: copy_opt_text(&self.rate_limit_reached_type),
            updated_at: self.updated_at,
        }
    }
}

} // verus!
