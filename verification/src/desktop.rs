//! The desktop gauge's own settings and state: its configuration and how it migrates, window
//! preferences, the refresh cache with its back-off, and start-on-boot.
use vstd::prelude::*;

use crate::config::{default_endpoint_text, default_update_endpoint};
use crate::model::{
    copy_opt_text, CodexUsageSnapshot, SnapshotModel, SnapshotStatus,
};
use crate::text::{is_blank, blank, owned, same_text};

verus! {

/// General settings. `opacity` is in millionths (`config::OPACITY_UNIT` is fully opaque).
#[derive(Debug, Clone)]
pub struct GeneralConfig {
    pub start_on_boot: bool,
    pub show_on_startup: bool,
    pub always_on_top: bool,
    pub main_always_on_top: bool,
    pub top_always_on_top: bool,
    pub lock_position: bool,
    pub top_lock_position: bool,
    pub oled_shift_enabled: bool,
    pub top_status_enabled: bool,
    pub opacity: i64,
    pub refresh_interval_seconds: u64,
}

/// How Codex is reached.
#[derive(Debug, Clone)]
pub struct CodexConfig {
    pub command: String,
    pub transport: String,
    pub preferred_provider: String,
    pub enable_usage_read: bool,
    pub enable_reset_stats: bool,
}

/// Where updates come from.
#[derive(Debug, Clone)]
pub struct UpdateConfig {
    pub auto_check: bool,
    pub channel: String,
    pub endpoint: String,
}

/// The saved window placement, in pixels.
#[derive(Debug, Clone)]
pub struct WindowConfig {
    pub x: Option<i32>,
    pub y: Option<i32>,
    pub top_x: Option<i32>,
    pub width: u32,
    pub height: u32,
}

/// All settings of the desktop gauge.
#[derive(Debug, Clone)]
pub struct AppConfig {
    pub version: u32,
    pub general: GeneralConfig,
    pub codex: CodexConfig,
    pub update: UpdateConfig,
    pub window: WindowConfig,
}

/// The version of the settings layout.
pub const DESKTOP_CONFIG_VERSION: u32 = 5;

/// The value of flags that default to on.
pub fn default_true() -> (res: bool)
    ensures
        res,
{
    true
}

/// The source asked first by default.
pub fn default_provider() -> (res: String)
    ensures
        res@ == "app-server"@,
{
    owned("app-server")
}

impl AppConfig {
    /// Fresh settings.
    pub fn with_defaults() -> (res: AppConfig)
        ensures
            res.version == DESKTOP_CONFIG_VERSION,
            !res.general.start_on_boot,
            res.general.show_on_startup,
            !res.general.always_on_top,
            !res.general.main_always_on_top,
            res.general.top_always_on_top,
            !res.general.lock_position,
            !res.general.top_lock_position,
            !res.general.oled_shift_enabled,
            res.general.top_status_enabled,
            res.general.opacity == 920_000,
            res.general.refresh_interval_seconds == 60,
            res.codex.command@ == "codex"@,
            res.codex.transport@ == "stdio"@,
            res.codex.preferred_provider@ == "app-server"@,
            res.codex.enable_usage_read,
            res.codex.enable_reset_stats,
            res.update.auto_check,
            res.update.channel@ == "stable"@,
            res.update.endpoint@ == default_endpoint_text(),
            res.window.x.is_none(),
            res.window.y.is_none(),
            res.window.top_x.is_none(),
            res.window.width == 360,
            res.window.height == 104,
    {
        AppConfig {
            version: DESKTOP_CONFIG_VERSION,
            general: GeneralConfig {
                start_on_boot: false,
                show_on_startup: true,
                always_on_top: false,
                main_always_on_top: false,
                top_always_on_top: true,
                lock_position: false,
                top_lock_position: false,
                oled_shift_enabled: false,
                top_status_enabled: true,
                opacity: 920_000,
                refresh_interval_seconds: 60,
            },
            codex: CodexConfig {
                command: owned("codex"),
                transport: owned("stdio"),
                preferred_provider: default_provider(),
                enable_usage_read: true,
                enable_reset_stats: true,
            },
            update: UpdateConfig {
                auto_check: true,
                channel: owned("stable"),
                endpoint: default_update_endpoint(),
            },
            window: WindowConfig { x: None, y: None, top_x: None, width: 360, height: 104 },
        }
    }

    /// Brings settings of an earlier layout up to date, one version at a time: version 2 turns
    /// the old always-on-top off and asks the app-server first; version 3 fills a blank update
    /// address; version 4 splits always-on-top into the desktop window and the top bar; version
    /// 5 keeps the top bar on top.
    pub fn migrate(&mut self)
        ensures
            final(self).version == if old(self).version < DESKTOP_CONFIG_VERSION {
                DESKTOP_CONFIG_VERSION
            } else {
                old(self).version
            },
            final(self).general.always_on_top == if old(self).version < 2 {
                false
            } else {
                old(self).general.always_on_top
            },
            final(self).codex.preferred_provider@ == if old(self).version < 2 {
                "app-server"@
            } else {
                old(self).codex.preferred_provider@
            },
            final(self).update.endpoint@ == if old(self).version < 3 && is_blank(
                old(self).update.endpoint@,
            ) {
                default_endpoint_text()
            } else {
                old(self).update.endpoint@
            },
            final(self).general.main_always_on_top == if old(self).version < 4 {
                final(self).general.always_on_top
            } else {
                old(self).general.main_always_on_top
            },
            final(self).general.top_always_on_top == if old(self).version < 5 {
                true
            } else {
                old(self).general.top_always_on_top
            },
            final(self).general.start_on_boot == old(self).general.start_on_boot,
            final(self).general.show_on_startup == old(self).general.show_on_startup,
            final(self).general.lock_position == old(self).general.lock_position,
            final(self).general.top_status_enabled == old(self).general.top_status_enabled,
            final(self).window.x == old(self).window.x,
            final(self).window.y == old(self).window.y,
            final(self).window.top_x == old(self).window.top_x,
            final(self).general.top_lock_position == old(self).general.top_lock_position,
            final(self).general.oled_shift_enabled == old(self).general.oled_shift_enabled,
            final(self).general.opacity == old(self).general.opacity,
            final(self).general.refresh_interval_seconds
                == old(self).general.refresh_interval_seconds,
            final(self).codex.command == old(self).codex.command,
            final(self).codex.transport == old(self).codex.transport,
            final(self).codex.enable_usage_read == old(self).codex.enable_usage_read,
            final(self).codex.enable_reset_stats == old(self).codex.enable_reset_stats,
            final(self).update.auto_check == old(self).update.auto_check,
            final(self).update.channel == old(self).update.channel,
            final(self).window.width == old(self).window.width,
            final(self).window.height == old(self).window.height,
            old(self).version >= DESKTOP_CONFIG_VERSION ==> *final(self) == *old(self),
    {
        if self.version < 2 {
            self.general.always_on_top = false;
            self.codex.preferred_provider = default_provider();
            self.version = 2;
        }
        if self.version < 3 {
            if blank(self.update.endpoint.as_str()) {
                self.update.endpoint = default_update_endpoint();
            }
            self.version = 3;
        }
        if self.version < 4 {
            self.general.main_always_on_top = self.general.always_on_top;
            self.general.top_always_on_top = self.general.always_on_top;
            self.version = 4;
        }
        if self.version < 5 {
            self.general.top_always_on_top = true;
            self.version = 5;
        }
    }

    /// Records whether the window `label` (`main` or `top`) is shown at start; whether anything
    /// changed (another label changes nothing).
    pub fn set_window_visibility_preference(&mut self, label: &str, visible: bool) -> (res: bool)
        ensures
            label@ == "main"@ ==> final(self).general.show_on_startup == visible && res == (old(self).general.show_on_startup != visible) && final(self).general.top_status_enabled == old(self).general.top_status_enabled,
            label@ == "top"@ ==> final(self).general.top_status_enabled == visible && res == (old(self).general.top_status_enabled != visible) && final(self).general.show_on_startup == old(self).general.show_on_startup,
            label@ != "main"@ && label@ != "top"@ ==> !res && final(self).general.show_on_startup
                == old(self).general.show_on_startup && final(self).general.top_status_enabled == old(self).general.top_status_enabled,
            final(self).general.lock_position == old(self).general.lock_position,
            final(self).general.top_lock_position == old(self).general.top_lock_position,
            final(self).window.top_x == old(self).window.top_x,
    {
        proof {
            reveal_strlit("main");
            reveal_strlit("top");
            assert("main"@.len() != "top"@.len());
        }
        if same_text(label, "main") {
            if self.general.show_on_startup == visible {
                return false;
            }
            self.general.show_on_startup = visible;
            true
        } else if same_text(label, "top") {
            if self.general.top_status_enabled == visible {
                return false;
            }
            self.general.top_status_enabled = visible;
            true
        } else {
            false
        }
    }

    /// Saves the desktop window's position unless its position is locked.
    pub fn save_window_position(&mut self, x: i32, y: i32)
        ensures
            old(self).general.lock_position ==> final(self).window.x == old(self).window.x
                && final(self).window.y == old(self).window.y,
            !old(self).general.lock_position ==> final(self).window.x == Some(x) && final(self).window.y == Some(y),
            final(self).window.top_x == old(self).window.top_x,
            final(self).general.lock_position == old(self).general.lock_position,
            final(self).general.top_lock_position == old(self).general.top_lock_position,
    {
        if self.general.lock_position {
            return;
        }
        self.window.x = Some(x);
        self.window.y = Some(y);
    }

    /// Saves the top bar's position unless its position is locked.
    pub fn save_top_window_position(&mut self, x: i32)
        ensures
            final(self).window.top_x == if old(self).general.top_lock_position {
                old(self).window.top_x
            } else {
                Some(x)
            },
            final(self).general.lock_position == old(self).general.lock_position,
            final(self).general.top_lock_position == old(self).general.top_lock_position,
            final(self).general.show_on_startup == old(self).general.show_on_startup,
            final(self).general.top_status_enabled == old(self).general.top_status_enabled,
    {
        if self.general.top_lock_position {
            return;
        }
        self.window.top_x = Some(x);
    }

    /// Whether the window is kept on top.
    pub fn always_on_top_enabled(&self, target: WindowTarget) -> (res: bool)
        ensures
            res == match target {
                WindowTarget::Main => self.general.main_always_on_top,
                WindowTarget::Top => self.general.top_always_on_top,
            },
    {
        match target {
            WindowTarget::Main => self.general.main_always_on_top,
            WindowTarget::Top => self.general.top_always_on_top,
        }
    }

    /// Whether the window's position is locked.
    pub fn lock_position_enabled(&self, target: WindowTarget) -> (res: bool)
        ensures
            res == match target {
                WindowTarget::Main => self.general.lock_position,
                WindowTarget::Top => self.general.top_lock_position,
            },
    {
        match target {
            WindowTarget::Main => self.general.lock_position,
            WindowTarget::Top => self.general.top_lock_position,
        }
    }

    /// Flips whether the window's position is locked; returns the new setting.
    pub fn toggle_lock_position(&mut self, target: WindowTarget) -> (res: bool)
        ensures
            match target {
                WindowTarget::Main => res == !old(self).general.lock_position
                    && final(self).general.lock_position == res && final(self).general.top_lock_position == old(self).general.top_lock_position,
                WindowTarget::Top => res == !old(self).general.top_lock_position
                    && final(self).general.top_lock_position == res && final(self).general.lock_position == old(self).general.lock_position,
            },
            final(self).general.show_on_startup == old(self).general.show_on_startup,
            final(self).general.top_status_enabled == old(self).general.top_status_enabled,
            final(self).window.top_x == old(self).window.top_x,
    {
        match target {
            WindowTarget::Main => {
                self.general.lock_position = !self.general.lock_position;
                self.general.lock_position
            },
            WindowTarget::Top => {
                self.general.top_lock_position = !self.general.top_lock_position;
                self.general.top_lock_position
            },
        }
    }

    /// Flips whether the window is kept on top; returns the new setting.
    pub fn toggle_always_on_top(&mut self, target: WindowTarget) -> (res: bool)
        ensures
            match target {
                WindowTarget::Main => res == !old(self).general.main_always_on_top
                    && final(self).general.main_always_on_top == res && final(self).general.top_always_on_top == old(self).general.top_always_on_top,
                WindowTarget::Top => res == !old(self).general.top_always_on_top
                    && final(self).general.top_always_on_top == res && final(self).general.main_always_on_top == old(self).general.main_always_on_top,
            },
    {
        match target {
            WindowTarget::Main => {
                self.general.main_always_on_top = !self.general.main_always_on_top;
                self.general.main_always_on_top
            },
            WindowTarget::Top => {
                self.general.top_always_on_top = !self.general.top_always_on_top;
                self.general.top_always_on_top
            },
        }
    }
}

/// The two windows that can be pinned on top or locked in place.
#[derive(Debug, Clone, Copy, PartialEq, Eq, Structural)]
pub enum WindowTarget {
    Main,
    Top,
}

/// How long a snapshot is served from the cache, in seconds.
pub const SNAPSHOT_CACHE_SECONDS: i64 = 120;

/// The refresh back-off: failures in a row and when the next refresh may be tried.
#[derive(Debug, Clone, Copy, PartialEq, Eq, Structural)]
pub struct RefreshCache {
    pub failure_count: u32,
    pub retry_after_at: Option<i64>,
}

/// The wait after `failures` failures in a row: 30 s, 60 s, 120 s, then 300 s.
pub open spec fn retry_delay(failures: u32) -> i64 {
    if failures <= 1 {
        30
    } else if failures == 2 {
        60
    } else if failures == 3 {
        120
    } else {
        300
    }
}

impl RefreshCache {
    /// No failures yet.
    pub fn new() -> (res: RefreshCache)
        ensures
            res.failure_count == 0,
            res.retry_after_at.is_none(),
    {
        RefreshCache { failure_count: 0, retry_after_at: None }
    }

    /// Records how a refresh at the time `now` went: a success clears the back-off; a failure
    /// counts one more failure (saturating) and waits according to `retry_delay`.
    pub fn update(&mut self, succeeded: bool, now: i64)
        requires
            now <= i64::MAX - 300,
        ensures
            succeeded ==> final(self).failure_count == 0 && final(self).retry_after_at.is_none(),
            !succeeded ==> final(self).failure_count == (if old(self).failure_count == u32::MAX {
                u32::MAX
            } else {
                (old(self).failure_count + 1) as u32
            }) && final(self).retry_after_at == Some((now + retry_delay(final(self).failure_count)) as i64),
    {
        if succeeded {
            self.failure_count = 0;
            self.retry_after_at = None;
            return;
        }
        self.failure_count = self.failure_count.saturating_add(1);
        let delay: i64 = match self.failure_count {
            1 => 30,
            2 => 60,
            3 => 120,
            _ => 300,
        };
        self.retry_after_at = Some(now + delay);
    }
}

/// Whether a refresh counts as a success for the back-off.
pub fn refresh_succeeded(snapshot: &CodexUsageSnapshot) -> (res: bool)
    ensures
        res == (snapshot.status == SnapshotStatus::Success),
{
    snapshot.status == SnapshotStatus::Success
}

/// The cache serves the snapshot it holds unless a refresh is forced: while the snapshot is
/// younger than two minutes, and while the back-off says to wait.
pub open spec fn serve_cached(force: bool, cached_at: Option<i64>, retry_after_at: Option<i64>, now: i64) -> bool {
    !force && match cached_at {
        Some(t) => now - t < SNAPSHOT_CACHE_SECONDS || (retry_after_at matches Some(r) && r > now),
        None => false,
    }
}

/// Whether to serve the cached snapshot (taken at `cached_at`) rather than refresh (see
/// `serve_cached`).
pub fn use_cached_snapshot(force: bool, cached_at: Option<i64>, retry_after_at: Option<i64>, now: i64) -> (res:
    bool)
    requires
        cached_at matches Some(t) ==> i64::MIN <= now - t <= i64::MAX,
    ensures
        res == serve_cached(force, cached_at, retry_after_at, now),
{
    if force {
        return false;
    }
    match cached_at {
        Some(t) => {
            if now - t < SNAPSHOT_CACHE_SECONDS {
                return true;
            }
            match retry_after_at {
                Some(r) => r > now,
                None => false,
            }
        },
        None => false,
    }
}

/// Whether a snapshot holds a window.
pub open spec fn has_windows(s: SnapshotModel) -> bool {
    s.primary_window.is_some() || s.secondary_window.is_some()
}

/// Whether an optional snapshot holds a window.
pub fn has_usage_data(snapshot: Option<&CodexUsageSnapshot>) -> (res: bool)
    ensures
        res == match snapshot {
            Some(s) => has_windows(s@),
            None => false,
        },
{
    match snapshot {
        Some(s) => s.primary_window.is_some() || s.secondary_window.is_some(),
        None => false,
    }
}

/// What a failed refresh shows: the previous snapshot's usage, with the new status, source,
/// time and reached limit, and the new credits and plan where there are any. A successful
/// refresh, or one with no usable previous snapshot, shows itself.
pub open spec fn merged_failed(s: SnapshotModel, previous: Option<SnapshotModel>) -> SnapshotModel {
    match previous {
        Some(p) if s.status != SnapshotStatus::Success && has_windows(p) => SnapshotModel {
            source: s.source,
            status: s.status,
            updated_at: s.updated_at,
            rate_limit_reached_type: s.rate_limit_reached_type,
            credits: if s.credits.is_some() {
                s.credits
            } else {
                p.credits
            },
            plan_type: if s.plan_type.is_some() {
                s.plan_type
            } else {
                p.plan_type
            },
            ..p
        },
        _ => s,
    }
}

/// Merges a refresh with the previous snapshot (see `merged_failed`).
pub fn merge_failed_snapshot(snapshot: CodexUsageSnapshot, previous: Option<CodexUsageSnapshot>) -> (res:
    CodexUsageSnapshot)
    ensures
        res@ == merged_failed(
            snapshot@,
            match previous {
                Some(p) => Some(p@),
                None => None,
            },
        ),
{
    if snapshot.status == SnapshotStatus::Success || !has_usage_data(previous.as_ref()) {
        return snapshot;
    }
    let mut merged = match previous {
        Some(p) => p,
        None => {
            return snapshot;
        },
    };
    merged.source = snapshot.source;
    merged.status = snapshot.status;
    merged.updated_at = snapshot.updated_at;
    merged.rate_limit_reached_type = snapshot.rate_limit_reached_type;
    if snapshot.credits.is_some() {
        merged.credits = snapshot.credits;
    }
    if snapshot.plan_type.is_some() {
        merged.plan_type = snapshot.plan_type;
    }
    merged
}

/// A failed refresh never hides usage that was shown before it.
pub proof fn lemma_failed_refresh_keeps_windows(s: SnapshotModel, previous: SnapshotModel)
    requires
        s.status != SnapshotStatus::Success,
        has_windows(previous),
    ensures
        merged_failed(s, Some(previous)).primary_window == previous.primary_window,
        merged_failed(s, Some(previous)).secondary_window == previous.secondary_window,
        merged_failed(s, Some(previous)).status == s.status,
        merged_failed(s, Some(previous)).updated_at == s.updated_at,
{
}

/// Positions that the burn-in shift moved windows to, so that the move is not saved as the
/// user's own.
#[derive(Debug)]
pub struct OledMoves {
    pub moves: Vec<(String, i32, i32)>,
}

/// The position recorded for `label`, from index `i` on.
pub open spec fn move_from(moves: Seq<(String, i32, i32)>, label: Seq<char>, i: int) -> Option<(i32, i32)>
    decreases moves.len() - i,
{
    if i < 0 || i >= moves.len() {
        None
    } else if moves[i].0@ == label {
        Some((moves[i].1, moves[i].2))
    } else {
        move_from(moves, label, i + 1)
    }
}

proof fn lemma_move_from_update(
    s1: Seq<(String, i32, i32)>,
    s2: Seq<(String, i32, i32)>,
    other: Seq<char>,
    i: int,
    k: int,
)
    requires
        0 <= i < s1.len(),
        s2.len() == s1.len(),
        forall|j: int| 0 <= j < s1.len() && j != i ==> s2[j] == s1[j],
        s1[i].0@ != other,
        s2[i].0@ != other,
        0 <= k,
    ensures
        move_from(s2, other, k) == move_from(s1, other, k),
    decreases s1.len() - k,
{
    if k < s1.len() {
        lemma_move_from_update(s1, s2, other, i, k + 1);
    }
}

proof fn lemma_move_from_shifted(
    s1: Seq<(String, i32, i32)>,
    s2: Seq<(String, i32, i32)>,
    other: Seq<char>,
    k: int,
)
    requires
        s2.len() == s1.len() + 1,
        forall|j: int| 0 <= j < s1.len() ==> s2[j + 1] == s1[j],
        s2[0].0@ != other,
        0 <= k,
    ensures
        move_from(s2, other, k + 1) == move_from(s1, other, k),
    decreases s1.len() - k,
{
    if k < s1.len() {
        lemma_move_from_shifted(s1, s2, other, k + 1);
    }
}

proof fn lemma_move_from_removed(
    s1: Seq<(String, i32, i32)>,
    s2: Seq<(String, i32, i32)>,
    other: Seq<char>,
    i: int,
    k: int,
)
    requires
        0 <= i < s1.len(),
        s2 == s1.remove(i),
        s1[i].0@ != other,
        0 <= k <= i,
    ensures
        move_from(s2, other, k) == move_from(s1, other, k),
    decreases s1.len() - k,
{
    if k < i {
        lemma_move_from_removed(s1, s2, other, i, k + 1);
    } else {
        lemma_move_from_tail(s1, s2, other, i, i);
    }
}

proof fn lemma_move_from_tail(
    s1: Seq<(String, i32, i32)>,
    s2: Seq<(String, i32, i32)>,
    other: Seq<char>,
    i: int,
    k: int,
)
    requires
        0 <= i <= k,
        i < s1.len(),
        s2 == s1.remove(i),
    ensures
        move_from(s2, other, k) == move_from(s1, other, k + 1),
    decreases s1.len() - k,
{
    if k < s2.len() {
        lemma_move_from_tail(s1, s2, other, i, k + 1);
    }
}

impl OledMoves {
    /// No moves recorded.
    pub fn new() -> (res: OledMoves)
        ensures
            res.moves@.len() == 0,
    {
        OledMoves { moves: Vec::new() }
    }

    /// The position recorded for `label`.
    pub open spec fn recorded(&self, label: Seq<char>) -> Option<(i32, i32)> {
        move_from(self.moves@, label, 0)
    }

    fn find(&self, label: &str) -> (res: Option<usize>)
        ensures
            match res {
                Some(i) => i < self.moves@.len() && self.moves@[i as int].0@ == label@ && self.recorded(
                    label@,
                ) == Some((self.moves@[i as int].1, self.moves@[i as int].2)) && forall|j: int|
                    0 <= j < i ==> self.moves@[j].0@ != label@,
                None => self.recorded(label@).is_none(),
            },
    {
        let n = self.moves.len();
        let mut i: usize = 0;
        while i < n
            invariant
                n == self.moves@.len(),
                i <= n,
                move_from(self.moves@, label@, 0) == move_from(self.moves@, label@, i as int),
                forall|j: int| 0 <= j < i ==> self.moves@[j].0@ != label@,
            decreases n - i,
        {
            if same_text(self.moves[i].0.as_str(), label) {
                return Some(i);
            }
            i = i + 1;
        }
        None
    }

    /// Records that the window `label` is being moved to `(x, y)` by the burn-in shift.
    pub fn mark(&mut self, label: &str, x: i32, y: i32)
        ensures
            final(self).recorded(label@) == Some((x, y)),
            forall|other: Seq<char>|
                other != label@ ==> #[trigger] final(self).recorded(other) == old(self).recorded(
                    other,
                ),
    {
        match self.find(label) {
            Some(i) => {
                let name = owned(label);
                let ghost before = self.moves@;
                self.moves.set(i, (name, x, y));
                assert(forall|j: int| 0 <= j < i ==> self.moves@[j] == before[j]);
                proof {
                    lemma_move_at(self.moves@, label@, i as int);
                    assert forall|other: Seq<char>| other != label@ implies move_from(
                        self.moves@,
                        other,
                        0,
                    ) == move_from(before, other, 0) by {
                        lemma_move_from_update(before, self.moves@, other, i as int, 0);
                    }
                }
            },
            None => {
                let ghost before = self.moves@;
                self.moves.insert(0, (owned(label), x, y));
                proof {
                    lemma_move_at(self.moves@, label@, 0);
                    assert forall|other: Seq<char>| other != label@ implies move_from(
                        self.moves@,
                        other,
                        0,
                    ) == move_from(before, other, 0) by {
                        lemma_move_from_shifted(before, self.moves@, other, 0);
                        assert(move_from(self.moves@, other, 0) == move_from(self.moves@, other, 1));
                    }
                }
            },
        }
    }

    /// Forgets the move of `label` (it failed).
    pub fn clear(&mut self, label: &str)
        ensures
            final(self).recorded(label@).is_none(),
            forall|other: Seq<char>|
                other != label@ ==> #[trigger] final(self).recorded(other) == old(self).recorded(
                    other,
                ),
        decreases self.moves@.len(),
    {
        match self.find(label) {
            Some(i) => {
                let ghost before = self.moves@;
                self.moves.remove(i);
                proof {
                    assert forall|other: Seq<char>| other != label@ implies move_from(
                        self.moves@,
                        other,
                        0,
                    ) == move_from(before, other, 0) by {
                        lemma_move_from_removed(before, self.moves@, other, i as int, 0);
                    }
                }
                self.clear(label);
            },
            None => {},
        }
    }

    /// Whether the window `label` arriving at `(x, y)` is the recorded shift; a matching record
    /// is used up.
    pub fn is_oled_move(&mut self, label: &str, x: i32, y: i32) -> (res: bool)
        ensures
            res == (old(self).recorded(label@) == Some((x, y))),
            res ==> final(self).recorded(label@).is_none(),
            !res ==> final(self).moves@ == old(self).moves@,
    {
        match self.find(label) {
            Some(i) => {
                if self.moves[i].1 == x && self.moves[i].2 == y {
                    self.clear(label);
                    true
                } else {
                    false
                }
            },
            None => false,
        }
    }
}

proof fn lemma_move_at(moves: Seq<(String, i32, i32)>, label: Seq<char>, i: int)
    requires
        0 <= i < moves.len(),
        moves[i].0@ == label,
        forall|j: int| 0 <= j < i ==> moves[j].0@ != label,
    ensures
        move_from(moves, label, 0) == Some((moves[i].1, moves[i].2)),
{
    lemma_move_from(moves, label, 0, i);
}

proof fn lemma_move_from(moves: Seq<(String, i32, i32)>, label: Seq<char>, start: int, i: int)
    requires
        0 <= start <= i < moves.len(),
        moves[i].0@ == label,
        forall|j: int| start <= j < i ==> moves[j].0@ != label,
    ensures
        move_from(moves, label, start) == Some((moves[i].1, moves[i].2)),
    decreases i - start,
{
    if start < i {
        lemma_move_from(moves, label, start + 1, i);
    }
}

/// What happened to the start-on-boot registry entry.
#[derive(Debug, Clone, Copy, PartialEq, Eq, Structural)]
pub enum BootRegistry {
    /// The program runs as a development build, which cannot start on boot.
    DevelopmentBuild,
    /// The program's own path could not be found.
    NoExecutable,
    /// The registry key could not be opened.
    OpenFailed,
    /// The entry was written or removed.
    Done,
    /// There was no entry to remove.
    NotFound,
    /// Writing or removing the entry failed.
    Failed,
}

/// What turning start-on-boot on (`enabled`) or off reports: nothing on success or when there
/// was nothing to remove, else a message.
pub open spec fn start_on_boot_outcome(enabled: bool, registry: BootRegistry) -> Result<(), Seq<char>> {
    match registry {
        BootRegistry::DevelopmentBuild => if enabled {
            Err("开发模式不支持开机启动，请使用安装包版本"@)
        } else {
            Ok(())
        },
        BootRegistry::NoExecutable => Err("无法定位当前程序"@),
        BootRegistry::OpenFailed => Err("无法打开开机启动注册表项"@),
        BootRegistry::Done => Ok(()),
        BootRegistry::NotFound => if enabled {
            Err("无法写入开机启动项"@)
        } else {
            Ok(())
        },
        BootRegistry::Failed => if enabled {
            Err("无法写入开机启动项"@)
        } else {
            Err("无法移除开机启动项"@)
        },
    }
}

/// Reports the outcome of turning start-on-boot on or off (see `start_on_boot_outcome`).
pub fn apply_start_on_boot(enabled: bool, registry: BootRegistry) -> (res: Result<(), String>)
    ensures
        match start_on_boot_outcome(enabled, registry) {
            Ok(()) => res.is_ok(),
            Err(m) => res matches Err(r) && r@ == m,
        },
{
    match registry {
        BootRegistry::DevelopmentBuild => if enabled {
            Err(owned("开发模式不支持开机启动，请使用安装包版本"))
        } else {
            Ok(())
        },
        BootRegistry::NoExecutable => Err(owned("无法定位当前程序")),
        BootRegistry::OpenFailed => Err(owned("无法打开开机启动注册表项")),
        BootRegistry::Done => Ok(()),
        BootRegistry::NotFound => if enabled {
            Err(owned("无法写入开机启动项"))
        } else {
            Ok(())
        },
        BootRegistry::Failed => if enabled {
            Err(owned("无法写入开机启动项"))
        } else {
            Err(owned("无法移除开机启动项"))
        },
    }
}

/// The command that the start-on-boot entry runs: the program's path in quotes.
pub fn boot_command(executable: &str) -> (res: String)
    ensures
        res@ == "\""@ + executable@ + "\""@,
{
    crate::text::join3("\"", executable, "\"")
}

/// What happened to the native build's autostart registry value.
#[derive(Debug, Clone, Copy, PartialEq, Eq, Structural)]
pub enum AutostartRegistry {
    /// The run key could not be opened for writing.
    OpenFailed,
    /// The program's own path could not be found.
    NoExecutable,
    /// The value was written or removed.
    Done,
    /// The registry reported that the value does not exist.
    NotFound,
    /// Writing or removing the value failed otherwise.
    Failed,
}

/// What turning autostart on (`enabled`) or off reports in the native build: nothing on
/// success or when there was nothing to remove, else an error code.
pub open spec fn autostart_outcome_model(enabled: bool, registry: AutostartRegistry) -> Result<
    (),
    Seq<char>,
> {
    match registry {
        AutostartRegistry::OpenFailed => Err("autostart_registry"@),
        AutostartRegistry::NoExecutable => if enabled {
            Err("autostart_path"@)
        } else {
            Err("autostart_registry"@)
        },
        AutostartRegistry::Done => Ok(()),
        AutostartRegistry::NotFound => if enabled {
            Err("autostart_registry"@)
        } else {
            Ok(())
        },
        AutostartRegistry::Failed => Err("autostart_registry"@),
    }
}

/// Reports the outcome of turning autostart on or off (see `autostart_outcome_model`).
pub fn autostart_outcome(enabled: bool, registry: AutostartRegistry) -> (res: Result<(), String>)
    ensures
        match autostart_outcome_model(enabled, registry) {
            Ok(()) => res.is_ok(),
            Err(m) => res matches Err(r) && r@ == m,
        },
{
    match registry {
        AutostartRegistry::OpenFailed => Err(owned("autostart_registry")),
        AutostartRegistry::NoExecutable => if enabled {
            Err(owned("autostart_path"))
        } else {
            Err(owned("autostart_registry"))
        },
        AutostartRegistry::Done => Ok(()),
        AutostartRegistry::NotFound => if enabled {
            Err(owned("autostart_registry"))
        } else {
            Ok(())
        },
        AutostartRegistry::Failed => Err(owned("autostart_registry")),
    }
}

/// The command that the native build's autostart value runs: the program's path in quotes,
/// then the `--autostart` flag.
pub fn autostart_command(executable: &str) -> (res: String)
    ensures
        res@ == "\""@ + executable@ + "\" --autostart"@,
{
    crate::text::join3("\"", executable, "\" --autostart")
}

/// Where the burn-in shift moves window `label` from `(x, y)` by `(dx, dy)`: only the main
/// window and the top bar move.
pub fn oled_target(label: &str, x: i32, y: i32, dx: i32, dy: i32) -> (res: Result<(i32, i32), String>)
    requires
        i32::MIN <= x + dx <= i32::MAX,
        i32::MIN <= y + dy <= i32::MAX,
    ensures
        (label@ == "main"@ || label@ == "top"@) ==> res == Ok::<(i32, i32), String>(
            ((x + dx) as i32, (y + dy) as i32),
        ),
        !(label@ == "main"@ || label@ == "top"@) ==> (res matches Err(m) && m@
            == "窗口不支持防烧屏位移"@),
{
    if same_text(label, "main") || same_text(label, "top") {
        Ok((x + dx, y + dy))
    } else {
        Err(owned("窗口不支持防烧屏位移"))
    }
}

} // verus!
