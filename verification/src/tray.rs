//! The tray of the desktop gauge: its tooltip, its menu labels, the menu-bar title, and what the
//! update commands report.
use vstd::prelude::*;

use crate::clock::{clock_text_shape, time_text_fits, utc_seconds_local_text, utc_timestamp_exists};
use crate::decimal::PERCENT_UNIT;
use crate::model::{CodexUsageSnapshot, SnapshotModel, SnapshotStatus, WindowModel};
use crate::presentation::{remaining_of, reset_of};
use crate::text::{
    contains_seq, contains_text, i64_text, int_text, join2, join3, nat_text, owned, push_text,
    same_text, u64_text,
};

verus! {

/// A percentage (fixed point) rounded half away from zero, as `f64::round` does.
pub open spec fn round_half_away(p: int) -> nat {
    let m = if p < 0 {
        -p
    } else {
        p
    };
    let q = m / (PERCENT_UNIT as int);
    let r = m % (PERCENT_UNIT as int);
    (if 2 * r >= PERCENT_UNIT {
        q + 1
    } else {
        q
    }) as nat
}

/// A rounded percentage as `format!("{}", value.round())` writes it, minus sign kept.
pub open spec fn rounded_text(p: int) -> Seq<char> {
    if p < 0 {
        seq!['-'] + nat_text(round_half_away(p))
    } else {
        nat_text(round_half_away(p))
    }
}

/// Writes a rounded percentage (see `rounded_text`).
fn rounded_percent_text(p: i64) -> (res: String)
    ensures
        res@ == rounded_text(p as int),
{
    let m: u64 = if p < 0 {
        if p == i64::MIN {
            9223372036854775808u64
        } else {
            (-p) as u64
        }
    } else {
        p as u64
    };
    let unit = PERCENT_UNIT as u64;
    let q = m / unit;
    let r = m % unit;
    let n = if 2 * r >= unit {
        q + 1
    } else {
        q
    };
    let digits = u64_text(n);
    if p < 0 {
        proof {
            reveal_strlit("-");
            assert("-"@ =~= seq!['-']);
        }
        join2("-", digits.as_str())
    } else {
        digits
    }
}

/// A percentage in the tooltip: the rounded number and `%`, or `未知`.
pub open spec fn tooltip_percent_model(v: Option<i64>) -> Seq<char> {
    match v {
        Some(p) => rounded_text(p as int) + "%"@,
        None => "未知"@,
    }
}

/// Writes a percentage for the tooltip (see `tooltip_percent_model`).
pub fn percent(value: Option<i64>) -> (res: String)
    ensures
        res@ == tooltip_percent_model(value),
{
    proof {
        reveal_strlit("未知");
    }
    match value {
        Some(p) => {
            let t = rounded_percent_text(p);
            join2(t.as_str(), "%")
        },
        None => owned("未知"),
    }
}

/// A percentage in the menu-bar title: the rounded number and `%`, or a dash.
pub open spec fn compact_percent_model(v: Option<i64>) -> Seq<char> {
    match v {
        Some(p) => rounded_text(p as int) + "%"@,
        None => "—"@,
    }
}

/// Writes a percentage for the menu-bar title (see `compact_percent_model`).
pub fn percent_compact(value: Option<i64>) -> (res: String)
    ensures
        res@ == compact_percent_model(value),
{
    proof {
        reveal_strlit("—");
    }
    match value {
        Some(p) => {
            let t = rounded_percent_text(p);
            join2(t.as_str(), "%")
        },
        None => owned("—"),
    }
}

/// The local time of a reset as an `MM-DD hh:mm` text of that very instant, or `未知` when
/// there is no reset time or `chrono` cannot represent it (see `time_text_fits`). Which local
/// time it shows depends on the machine's time zone.
pub fn compact_time(value: Option<i64>) -> (res: String)
    ensures
        time_text_fits(value, res@, "%m-%d %H:%M"@),
{
    proof {
        reveal_strlit("%m-%d %H:%M");
    }
    let text = match value {
        Some(seconds) => utc_seconds_local_text(seconds, "%m-%d %H:%M"),
        None => None,
    };
    match text {
        Some(t) => t,
        None => owned("未知"),
    }
}

/// The short status word of the tooltip.
pub open spec fn tray_status_model(status: SnapshotStatus) -> Seq<char> {
    match status {
        SnapshotStatus::Success => "正常"@,
        SnapshotStatus::NotLoggedIn => "未登录"@,
        SnapshotStatus::InvalidAuth => "凭据失效"@,
        SnapshotStatus::RequestFailed => "查询失败"@,
    }
}

/// The short status word of the tooltip.
pub fn status_text(status: SnapshotStatus) -> (res: &'static str)
    ensures
        res@ == tray_status_model(status),
{
    match status {
        SnapshotStatus::Success => "正常",
        SnapshotStatus::NotLoggedIn => "未登录",
        SnapshotStatus::InvalidAuth => "凭据失效",
        SnapshotStatus::RequestFailed => "查询失败",
    }
}

/// The tooltip before any snapshot.
pub fn default_tooltip() -> (res: &'static str)
    ensures
        res@ == "5h: 未知\n7d: 未知\n重置: 未知"@,
{
    "5h: 未知\n7d: 未知\n重置: 未知"
}

/// The used share of an optional window.
pub open spec fn used_of(w: Option<WindowModel>) -> Option<i64> {
    match w {
        Some(x) => x.used_percent,
        None => None,
    }
}

/// The reset credits shown in the tooltip: the available count, else the reset-credit count,
/// or `未知`.
pub open spec fn count_model(s: SnapshotModel) -> Seq<char> {
    match s.credits {
        Some(c) => match c.available_count {
            Some(n) => int_text(n as int),
            None => match c.reset_credits {
                Some(n) => int_text(n as int),
                None => "未知"@,
            },
        },
        None => "未知"@,
    }
}

/// How the tooltip follows from a snapshot, given the reset texts of the two windows (local
/// times): the five-hour line (or `5h: 无限`), the weekly line, and the reset credits with the
/// status.
pub open spec fn snapshot_tooltip_model(
    s: SnapshotModel,
    five_reset: Seq<char>,
    seven_reset: Seq<char>,
) -> Seq<char> {
    let five = if s.primary_window_unlimited {
        "5h: 无限"@
    } else {
        "5h: 剩"@ + tooltip_percent_model(remaining_of(s.primary_window)) + " 用"@
            + tooltip_percent_model(used_of(s.primary_window)) + " 重"@ + five_reset
    };
    five + "\n7d: 剩"@ + tooltip_percent_model(remaining_of(s.secondary_window)) + " 用"@
        + tooltip_percent_model(used_of(s.secondary_window)) + " 重"@ + seven_reset + "\n重置: "@
        + count_model(s) + " · "@ + tray_status_model(s.status)
}

/// The tooltip's window lines show each window's shares in order: the remaining share after `剩`,
/// then the used share after `用`, then the reset time after `重`. The tooltip ends with the
/// weekly line followed by the reset-credit line; for a limited five-hour window it starts with
/// the five-hour line.
pub proof fn lemma_tooltip_lines_show_shares(s: SnapshotModel, five_reset: Seq<char>, seven_reset: Seq<char>)
    ensures
        exists|head: Seq<char>|
            snapshot_tooltip_model(s, five_reset, seven_reset) == head + "\n7d: 剩"@
                + tooltip_percent_model(remaining_of(s.secondary_window)) + " 用"@
                + tooltip_percent_model(used_of(s.secondary_window)) + " 重"@ + seven_reset
                + "\n重置: "@ + count_model(s) + " · "@ + tray_status_model(s.status),
        !s.primary_window_unlimited ==> ({
            let five_line = "5h: 剩"@ + tooltip_percent_model(remaining_of(s.primary_window)) + " 用"@
                + tooltip_percent_model(used_of(s.primary_window)) + " 重"@ + five_reset;
            snapshot_tooltip_model(s, five_reset, seven_reset).subrange(0, five_line.len() as int)
                == five_line
        }),
{
    let five = if s.primary_window_unlimited {
        "5h: 无限"@
    } else {
        "5h: 剩"@ + tooltip_percent_model(remaining_of(s.primary_window)) + " 用"@
            + tooltip_percent_model(used_of(s.primary_window)) + " 重"@ + five_reset
    };
    let whole = snapshot_tooltip_model(s, five_reset, seven_reset);
    assert(whole == five + "\n7d: 剩"@ + tooltip_percent_model(remaining_of(s.secondary_window))
        + " 用"@ + tooltip_percent_model(used_of(s.secondary_window)) + " 重"@ + seven_reset
        + "\n重置: "@ + count_model(s) + " · "@ + tray_status_model(s.status));
    if !s.primary_window_unlimited {
        assert(whole.subrange(0, five.len() as int) =~= five);
    }
}

/// The tray tooltip of a snapshot (see `snapshot_tooltip_model`); each window's reset time shows
/// as an `MM-DD hh:mm` local time, or `未知` when it has none or `chrono` cannot represent it
/// (see `time_text_fits`).
pub fn snapshot_tooltip(snapshot: &CodexUsageSnapshot) -> (res: String)
    ensures
        exists|five_reset: Seq<char>, seven_reset: Seq<char>|
            (!snapshot@.primary_window_unlimited ==> time_text_fits(
                reset_of(snapshot@.primary_window),
                five_reset,
                "%m-%d %H:%M"@,
            )) && time_text_fits(reset_of(snapshot@.secondary_window), seven_reset, "%m-%d %H:%M"@)
                && res@ == snapshot_tooltip_model(
                snapshot@,
                five_reset,
                seven_reset,
            ),
{
    proof {
        reveal_strlit("未知");
    }
    let five = &snapshot.primary_window;
    let seven = &snapshot.secondary_window;
    let five_remaining = match five {
        Some(w) => w.remaining_percent,
        None => None,
    };
    let five_used = match five {
        Some(w) => w.used_percent,
        None => None,
    };
    let five_reset_at = match five {
        Some(w) => w.reset_at,
        None => None,
    };
    let seven_remaining = match seven {
        Some(w) => w.remaining_percent,
        None => None,
    };
    let seven_used = match seven {
        Some(w) => w.used_percent,
        None => None,
    };
    let seven_reset_at = match seven {
        Some(w) => w.reset_at,
        None => None,
    };
    let mut text = String::new();
    let five_reset_text = compact_time(five_reset_at);
    if snapshot.primary_window_unlimited {
        push_text(&mut text, "5h: 无限");
    } else {
        push_text(&mut text, "5h: 剩");
        push_text(&mut text, percent(five_remaining).as_str());
        push_text(&mut text, " 用");
        push_text(&mut text, percent(five_used).as_str());
        push_text(&mut text, " 重");
        push_text(&mut text, five_reset_text.as_str());
    }
    let seven_reset_text = compact_time(seven_reset_at);
    push_text(&mut text, "\n7d: 剩");
    push_text(&mut text, percent(seven_remaining).as_str());
    push_text(&mut text, " 用");
    push_text(&mut text, percent(seven_used).as_str());
    push_text(&mut text, " 重");
    push_text(&mut text, seven_reset_text.as_str());
    push_text(&mut text, "\n重置: ");
    let count = match &snapshot.credits {
        Some(c) => match c.available_count {
            Some(n) => i64_text(n),
            None => match c.reset_credits {
                Some(n) => i64_text(n),
                None => owned("未知"),
            },
        },
        None => owned("未知"),
    };
    push_text(&mut text, count.as_str());
    push_text(&mut text, " · ");
    push_text(&mut text, status_text(snapshot.status));
    proof {
        reveal_strlit("");
        assert(""@ =~= Seq::<char>::empty());
    }
    assert((!snapshot@.primary_window_unlimited ==> time_text_fits(
        reset_of(snapshot@.primary_window),
        five_reset_text@,
        "%m-%d %H:%M"@,
    )) && time_text_fits(reset_of(snapshot@.secondary_window), seven_reset_text@, "%m-%d %H:%M"@)
        && text@ =~= snapshot_tooltip_model(
        snapshot@,
        five_reset_text@,
        seven_reset_text@,
    ));
    text
}

/// The title next to the menu-bar icon in the mode `mode` (`iconOnly`, `fiveAndSeven`, or
/// another mode that shows the five-hour window): none in icon mode; with an unlimited
/// five-hour window only the weekly share, and only in the mode that shows both.
pub open spec fn menu_bar_title_model(s: Option<SnapshotModel>, mode: Seq<char>) -> Option<Seq<char>> {
    let weekly = match s {
        Some(x) => remaining_of(x.secondary_window),
        None => None,
    };
    let unlimited = match s {
        Some(x) => x.primary_window_unlimited,
        None => false,
    };
    let five = compact_percent_model(
        match s {
            Some(x) => remaining_of(x.primary_window),
            None => None,
        },
    );
    if mode == "iconOnly"@ {
        None
    } else if unlimited {
        if mode == "fiveAndSeven"@ {
            Some("7d "@ + compact_percent_model(weekly))
        } else {
            None
        }
    } else if mode != "fiveAndSeven"@ {
        Some("5h "@ + five)
    } else {
        Some("5h "@ + five + " · 7d "@ + compact_percent_model(weekly))
    }
}

/// The menu-bar title (see `menu_bar_title_model`).
pub fn menu_bar_title(snapshot: Option<&CodexUsageSnapshot>, mode: &str) -> (res: Option<String>)
    ensures
        match menu_bar_title_model(
            match snapshot {
                Some(x) => Some(x@),
                None => None,
            },
            mode@,
        ) {
            Some(t) => res matches Some(r) && r@ == t,
            None => res.is_none(),
        },
{
    if same_text(mode, "iconOnly") {
        return None;
    }
    let weekly = match snapshot {
        Some(x) => match &x.secondary_window {
            Some(w) => w.remaining_percent,
            None => None,
        },
        None => None,
    };
    let unlimited = match snapshot {
        Some(x) => x.primary_window_unlimited,
        None => false,
    };
    if unlimited {
        if same_text(mode, "fiveAndSeven") {
            let w = percent_compact(weekly);
            return Some(join2("7d ", w.as_str()));
        }
        return None;
    }
    let five_value = match snapshot {
        Some(x) => match &x.primary_window {
            Some(w) => w.remaining_percent,
            None => None,
        },
        None => None,
    };
    let five = percent_compact(five_value);
    if !same_text(mode, "fiveAndSeven") {
        return Some(join2("5h ", five.as_str()));
    }
    let w = percent_compact(weekly);
    let mut title = join3("5h ", five.as_str(), " · 7d ");
    push_text(&mut title, w.as_str());
    Some(title)
}

/// The menu label of a window: a tick and `已打开` when it is shown, a circle and `已隐藏`
/// otherwise.
pub open spec fn window_status_model(name: Seq<char>, visible: bool) -> Seq<char> {
    if visible {
        "✓ "@ + name + "：已打开"@
    } else {
        "○ "@ + name + "：已隐藏"@
    }
}

/// The menu label of a window (see `window_status_model`).
pub fn window_status_label(name: &str, visible: bool) -> (res: String)
    ensures
        res@ == window_status_model(name@, visible),
{
    if visible {
        join3("✓ ", name, "：已打开")
    } else {
        join3("○ ", name, "：已隐藏")
    }
}

/// The outcome of the last update check or install, as the desktop gauge shows it.
#[derive(Debug, Clone)]
pub struct UpdateCheckResult {
    pub available: bool,
    pub version: Option<String>,
    pub message: String,
}

/// A failed update step with its message.
pub fn failed_result(message: &str) -> (res: UpdateCheckResult)
    ensures
        !res.available,
        res.version.is_none(),
        res.message@ == message@,
{
    UpdateCheckResult { available: false, version: None, message: owned(message) }
}

/// The update entry of the menu when the last check found nothing to install: whether the
/// program is up to date, the check failed, or it can be checked again.
pub open spec fn update_check_model(current_version: Seq<char>, message: Seq<char>) -> Seq<char> {
    if contains_seq(message, "最新"@) {
        "更新："@ + current_version + "（已是最新版）"@
    } else if contains_seq(message, "失败"@) || contains_seq(message, "无效"@) {
        "更新："@ + current_version + "（检查失败，点击重试）"@
    } else {
        "更新："@ + current_version + "（重新检查）"@
    }
}

/// The update entry after a check that found nothing (see `update_check_model`).
pub fn update_check_label(current_version: &str, result: &UpdateCheckResult) -> (res: String)
    ensures
        res@ == update_check_model(current_version@, result.message@),
{
    if contains_text(result.message.as_str(), "最新") {
        join3("更新：", current_version, "（已是最新版）")
    } else if contains_text(result.message.as_str(), "失败") || contains_text(
        result.message.as_str(),
        "无效",
    ) {
        join3("更新：", current_version, "（检查失败，点击重试）")
    } else {
        join3("更新：", current_version, "（重新检查）")
    }
}

/// The update entry when an update can be installed.
pub open spec fn update_install_model(current_version: Seq<char>, version: Option<Seq<char>>) -> Seq<
    char,
> {
    match version {
        Some(v) => "更新："@ + current_version + " → v"@ + v + "（点击安装）"@,
        None => "更新："@ + current_version + "（点击安装）"@,
    }
}

/// The update entry when an update can be installed (see `update_install_model`).
pub fn update_install_label(current_version: &str, result: &UpdateCheckResult) -> (res: String)
    ensures
        res@ == update_install_model(
            current_version@,
            match result.version {
                Some(v) => Some(v@),
                None => None,
            },
        ),
{
    match &result.version {
        Some(v) => {
            let mut label = join3("更新：", current_version, " → v");
            push_text(&mut label, v.as_str());
            push_text(&mut label, "（点击安装）");
            label
        },
        None => join3("更新：", current_version, "（点击安装）"),
    }
}

/// The tooltip with the news of an available update before it.
pub open spec fn tooltip_with_update_model(
    usage: Seq<char>,
    update: Option<(bool, Option<Seq<char>>)>,
) -> Seq<char> {
    match update {
        Some((true, Some(v))) => "发现新版本 v"@ + v + "\n"@ + usage,
        Some((true, None)) => "发现新版本\n"@ + usage,
        _ => usage,
    }
}

/// The model of an optional update status: whether an update is available and its version.
pub open spec fn update_status_model(update: Option<&UpdateCheckResult>) -> Option<
    (bool, Option<Seq<char>>),
> {
    match update {
        Some(r) => Some(
            (
                r.available,
                match r.version {
                    Some(v) => Some(v@),
                    None => None,
                },
            ),
        ),
        None => None,
    }
}

/// Adds the news of an available update to the tooltip (see `tooltip_with_update_model`).
pub fn tooltip_with_update(usage: String, update: Option<&UpdateCheckResult>) -> (res: String)
    ensures
        res@ == tooltip_with_update_model(usage@, update_status_model(update)),
{
    match update {
        Some(r) if r.available => match &r.version {
            Some(v) => {
                let mut text = join3("发现新版本 v", v.as_str(), "\n");
                push_text(&mut text, usage.as_str());
                text
            },
            None => join2("发现新版本\n", usage.as_str()),
        },
        _ => usage,
    }
}

/// The labels of the tray menu, and the command behind its update entry.
#[derive(Debug)]
pub struct TrayMenuText {
    pub toggle: String,
    pub toggle_top: String,
    pub detail: String,
    pub settings: String,
    pub main_always_on_top: String,
    pub top_always_on_top: String,
    pub main_lock_position: String,
    pub top_lock_position: String,
    pub update_id: String,
    pub update_label: String,
}

/// What the tray menu depends on.
#[derive(Debug, Clone, Copy, PartialEq, Eq, Structural)]
pub struct MenuFlags {
    pub main_visible: bool,
    pub top_visible: bool,
    pub detail_visible: bool,
    pub settings_visible: bool,
    pub main_always_on_top: bool,
    pub top_always_on_top: bool,
    pub main_lock_position: bool,
    pub top_lock_position: bool,
}

/// The update entry of the menu: install when an update is available, otherwise check, with a
/// label that says how the last check went.
pub open spec fn update_entry_model(current_version: Seq<char>, update: Option<&UpdateCheckResult>) -> (
    Seq<char>,
    Seq<char>,
) {
    match update {
        Some(r) => if r.available {
            (
                "update_install"@,
                update_install_model(
                    current_version,
                    match r.version {
                        Some(v) => Some(v@),
                        None => None,
                    },
                ),
            )
        } else {
            ("update_check"@, update_check_model(current_version, r.message@))
        },
        None => ("update_check"@, "更新：当前 "@ + current_version + "（检查更新）"@),
    }
}

/// Builds the labels of the tray menu: each window's state, the pin and lock toggles, and the
/// update entry for the program at `current_version` (such as `v1.2.3`).
pub fn tray_menu_text(flags: MenuFlags, current_version: &str, update: Option<&UpdateCheckResult>) -> (res:
    TrayMenuText)
    ensures
        res.toggle@ == window_status_model("桌面浮窗"@, flags.main_visible),
        res.toggle_top@ == window_status_model("顶部浮窗"@, flags.top_visible),
        res.detail@ == window_status_model("详细信息"@, flags.detail_visible),
        res.settings@ == window_status_model("设置"@, flags.settings_visible),
        res.main_always_on_top@ == if flags.main_always_on_top {
            "✓ 桌面浮窗置顶"@
        } else {
            "○ 桌面浮窗不置顶"@
        },
        res.top_always_on_top@ == if flags.top_always_on_top {
            "✓ 顶部浮窗置顶"@
        } else {
            "○ 顶部浮窗不置顶"@
        },
        res.main_lock_position@ == if flags.main_lock_position {
            "✓ 锁定桌面浮窗位置"@
        } else {
            "○ 桌面浮窗位置可拖动"@
        },
        res.top_lock_position@ == if flags.top_lock_position {
            "✓ 锁定顶部浮条位置"@
        } else {
            "○ 顶部浮条位置可拖动"@
        },
        (res.update_id@, res.update_label@) == update_entry_model(current_version@, update),
{
    let (update_id, update_label) = match update {
        Some(r) => {
            if r.available {
                (owned("update_install"), update_install_label(current_version, r))
            } else {
                (owned("update_check"), update_check_label(current_version, r))
            }
        },
        None => (owned("update_check"), join3("更新：当前 ", current_version, "（检查更新）")),
    };
    TrayMenuText {
        toggle: window_status_label("桌面浮窗", flags.main_visible),
        toggle_top: window_status_label("顶部浮窗", flags.top_visible),
        detail: window_status_label("详细信息", flags.detail_visible),
        settings: window_status_label("设置", flags.settings_visible),
        main_always_on_top: owned(
            if flags.main_always_on_top {
                "✓ 桌面浮窗置顶"
            } else {
                "○ 桌面浮窗不置顶"
            },
        ),
        top_always_on_top: owned(
            if flags.top_always_on_top {
                "✓ 顶部浮窗置顶"
            } else {
                "○ 顶部浮窗不置顶"
            },
        ),
        main_lock_position: owned(
            if flags.main_lock_position {
                "✓ 锁定桌面浮窗位置"
            } else {
                "○ 桌面浮窗位置可拖动"
            },
        ),
        top_lock_position: owned(
            if flags.top_lock_position {
                "✓ 锁定顶部浮条位置"
            } else {
                "○ 顶部浮条位置可拖动"
            },
        ),
        update_id,
        update_label,
    }
}

/// Why the updater plugin failed, as far as the gauge tells failures apart.
#[derive(Debug)]
pub enum UpdaterFailure {
    /// A network failure, with the plugin's message.
    Network { message: String },
    Reqwest,
    Minisign,
    Base64,
    SignatureUtf8,
    ReleaseNotFound,
    Serialization,
    TargetNotFound,
    TargetsNotFound,
    PackageInstallFailed,
    AuthenticationFailed,
    InvalidUpdaterFormat,
    Io,
    /// Any other failure.
    Other,
}

/// The category under which an updater failure is logged: a missing asset (a network failure
/// that names 404), the network, the signature, the manifest, the install, or anything else.
pub open spec fn failure_category_model(error: UpdaterFailure) -> Seq<char> {
    match error {
        UpdaterFailure::Network { message } => if contains_seq(message@, "404"@) {
            "asset_not_found"@
        } else {
            "network_error"@
        },
        UpdaterFailure::Reqwest => "network_error"@,
        UpdaterFailure::Minisign | UpdaterFailure::Base64 | UpdaterFailure::SignatureUtf8 => "signature_invalid"@,
        UpdaterFailure::ReleaseNotFound | UpdaterFailure::Serialization
        | UpdaterFailure::TargetNotFound | UpdaterFailure::TargetsNotFound => "manifest_invalid"@,
        UpdaterFailure::PackageInstallFailed | UpdaterFailure::AuthenticationFailed
        | UpdaterFailure::InvalidUpdaterFormat | UpdaterFailure::Io => "install_failed"@,
        UpdaterFailure::Other => "updater_error"@,
    }
}

/// The category of an updater failure (see `failure_category_model`).
pub fn updater_error_category(error: &UpdaterFailure) -> (res: &'static str)
    ensures
        res@ == failure_category_model(*error),
{
    match error {
        UpdaterFailure::Network { message } => {
            if contains_text(message.as_str(), "404") {
                "asset_not_found"
            } else {
                "network_error"
            }
        },
        UpdaterFailure::Reqwest => "network_error",
        UpdaterFailure::Minisign | UpdaterFailure::Base64 | UpdaterFailure::SignatureUtf8 => "signature_invalid",
        UpdaterFailure::ReleaseNotFound | UpdaterFailure::Serialization
        | UpdaterFailure::TargetNotFound | UpdaterFailure::TargetsNotFound => "manifest_invalid",
        UpdaterFailure::PackageInstallFailed | UpdaterFailure::AuthenticationFailed
        | UpdaterFailure::InvalidUpdaterFormat | UpdaterFailure::Io => "install_failed",
        UpdaterFailure::Other => "updater_error",
    }
}

/// What the user is told when an install failed in a category.
pub open spec fn install_failure_model(category: Seq<char>) -> Seq<char> {
    if category == "asset_not_found"@ {
        "更新包不存在，请确认 latest.json 与 Release 文件名一致"@
    } else if category == "signature_invalid"@ {
        "更新包签名验证失败，请确认 updater 公钥和签名密钥匹配"@
    } else if category == "network_error"@ {
        "更新包下载失败，请检查网络连接后重试"@
    } else if category == "manifest_invalid"@ {
        "更新清单无效，请检查 latest.json 配置"@
    } else {
        "更新安装失败，请查看本地 update.log"@
    }
}

/// The message for a failed install (see `install_failure_model`).
pub fn install_failure_message(category: &str) -> (res: &'static str)
    ensures
        res@ == install_failure_model(category@),
{
    if same_text(category, "asset_not_found") {
        "更新包不存在，请确认 latest.json 与 Release 文件名一致"
    } else if same_text(category, "signature_invalid") {
        "更新包签名验证失败，请确认 updater 公钥和签名密钥匹配"
    } else if same_text(category, "network_error") {
        "更新包下载失败，请检查网络连接后重试"
    } else if same_text(category, "manifest_invalid") {
        "更新清单无效，请检查 latest.json 配置"
    } else {
        "更新安装失败，请查看本地 update.log"
    }
}

/// Why the configured update address cannot be used.
#[derive(Debug, Clone, Copy, PartialEq, Eq, Structural)]
pub enum EndpointProblem {
    /// The updater could not be built.
    Unavailable,
    /// The address is not a URL.
    BadAddress,
    /// The updater does not take the address.
    Unsupported,
}

/// The message for an unusable update address.
pub fn endpoint_problem_message(problem: EndpointProblem) -> (res: &'static str)
    ensures
        res@ == match problem {
            EndpointProblem::Unavailable => "更新器配置不可用"@,
            EndpointProblem::BadAddress => "更新地址格式无效"@,
            EndpointProblem::Unsupported => "更新地址不受支持"@,
        },
{
    match problem {
        EndpointProblem::Unavailable => "更新器配置不可用",
        EndpointProblem::BadAddress => "更新地址格式无效",
        EndpointProblem::Unsupported => "更新地址不受支持",
    }
}

/// The update address to use: the trimmed configured one, or none (the bundled one) when it is
/// blank.
pub fn configured_endpoint(endpoint: &str) -> (res: Option<String>)
    ensures
        match res {
            Some(e) => !crate::text::is_blank(endpoint@) && e@ == crate::text::trimmed(endpoint@),
            None => crate::text::is_blank(endpoint@),
        },
{
    if crate::text::blank(endpoint) {
        None
    } else {
        Some(crate::text::trim(endpoint))
    }
}

/// One line of the update log: what was done, how it went, and why.
#[derive(Debug)]
pub struct UpdateLogEntry {
    pub method: String,
    pub outcome: String,
    pub category: String,
}

/// How the update check went.
#[derive(Debug)]
pub enum UpdaterCheck {
    /// The update address could not be used.
    ConfigInvalid { message: String },
    /// The check itself failed.
    CheckFailed { error: UpdaterFailure },
    /// No newer release.
    UpToDate,
    /// A newer release.
    Available { version: String },
}

/// The message of a failed check.
pub open spec fn check_failed_text() -> Seq<char> {
    "检查更新失败，请确认 GitHub Release 和签名配置"@
}

/// The message when there is nothing to update.
pub open spec fn up_to_date_text() -> Seq<char> {
    "当前已是最新版本。"@
}

/// What a check reports and logs: the result the gauge shows and the log line.
pub open spec fn check_report_model(outcome: UpdaterCheck) -> (
    (bool, Option<Seq<char>>, Seq<char>),
    (Seq<char>, Seq<char>, Seq<char>),
) {
    match outcome {
        UpdaterCheck::ConfigInvalid { message } => (
            (false, None, message@),
            ("check_update"@, "failed"@, "config_invalid"@),
        ),
        UpdaterCheck::CheckFailed { error } => (
            (false, None, check_failed_text()),
            ("check_update"@, "failed"@, failure_category_model(error)),
        ),
        UpdaterCheck::UpToDate => (
            (false, None, up_to_date_text()),
            ("check_update"@, "success"@, "up_to_date"@),
        ),
        UpdaterCheck::Available { version } => (
            (true, Some(version@), "发现新版本，点击更新即可安装。"@),
            ("check_update"@, "success"@, "update_available"@),
        ),
    }
}

/// The model of a result and its log line.
pub open spec fn report_model(r: (UpdateCheckResult, UpdateLogEntry)) -> (
    (bool, Option<Seq<char>>, Seq<char>),
    (Seq<char>, Seq<char>, Seq<char>),
) {
    (
        (
            r.0.available,
            match r.0.version {
                Some(v) => Some(v@),
                None => None,
            },
            r.0.message@,
        ),
        (r.1.method@, r.1.outcome@, r.1.category@),
    )
}

fn log_entry(method: &str, outcome: &str, category: &str) -> (res: UpdateLogEntry)
    ensures
        res.method@ == method@,
        res.outcome@ == outcome@,
        res.category@ == category@,
{
    UpdateLogEntry { method: owned(method), outcome: owned(outcome), category: owned(category) }
}

/// What an update check reports and logs (see `check_report_model`).
pub fn check_update_report(outcome: &UpdaterCheck) -> (res: (UpdateCheckResult, UpdateLogEntry))
    ensures
        report_model(res) == check_report_model(*outcome),
{
    match outcome {
        UpdaterCheck::ConfigInvalid { message } => (
            failed_result(message.as_str()),
            log_entry("check_update", "failed", "config_invalid"),
        ),
        UpdaterCheck::CheckFailed { error } => (
            failed_result("检查更新失败，请确认 GitHub Release 和签名配置"),
            log_entry("check_update", "failed", updater_error_category(error)),
        ),
        UpdaterCheck::UpToDate => (
            UpdateCheckResult {
                available: false,
                version: None,
                message: owned("当前已是最新版本。"),
            },
            log_entry("check_update", "success", "up_to_date"),
        ),
        UpdaterCheck::Available { version } => (
            UpdateCheckResult {
                available: true,
                version: Some(owned(version.as_str())),
                message: owned("发现新版本，点击更新即可安装。"),
            },
            log_entry("check_update", "success", "update_available"),
        ),
    }
}

/// How an install went.
#[derive(Debug)]
pub enum UpdaterInstall {
    /// The update address could not be used.
    ConfigInvalid { message: String },
    /// The check before the install failed.
    CheckFailed { error: UpdaterFailure },
    /// No newer release to install.
    UpToDate,
    /// Downloading or installing failed.
    InstallFailed { error: UpdaterFailure },
    /// The release was installed.
    Installed { version: String },
}

/// What an install reports and logs: the result the gauge shows and the log line.
pub open spec fn install_report_model(outcome: UpdaterInstall) -> (
    (bool, Option<Seq<char>>, Seq<char>),
    (Seq<char>, Seq<char>, Seq<char>),
) {
    match outcome {
        UpdaterInstall::ConfigInvalid { message } => (
            (false, None, message@),
            ("install_update"@, "failed"@, "config_invalid"@),
        ),
        UpdaterInstall::CheckFailed { error } => (
            (false, None, check_failed_text()),
            ("install_update"@, "failed"@, failure_category_model(error)),
        ),
        UpdaterInstall::UpToDate => (
            (false, None, up_to_date_text()),
            ("install_update"@, "success"@, "up_to_date"@),
        ),
        UpdaterInstall::InstallFailed { error } => (
            (false, None, install_failure_model(failure_category_model(error))),
            ("install_update"@, "failed"@, failure_category_model(error)),
        ),
        UpdaterInstall::Installed { version } => (
            (false, Some(version@), "更新已安装，应用即将按安装器要求重启。"@),
            ("install_update"@, "success"@, "installed"@),
        ),
    }
}

/// What an install reports and logs (see `install_report_model`).
pub fn install_update_report(outcome: &UpdaterInstall) -> (res: (UpdateCheckResult, UpdateLogEntry))
    ensures
        report_model(res) == install_report_model(*outcome),
{
    match outcome {
        UpdaterInstall::ConfigInvalid { message } => (
            failed_result(message.as_str()),
            log_entry("install_update", "failed", "config_invalid"),
        ),
        UpdaterInstall::CheckFailed { error } => (
            failed_result("检查更新失败，请确认 GitHub Release 和签名配置"),
            log_entry("install_update", "failed", updater_error_category(error)),
        ),
        UpdaterInstall::UpToDate => (
            UpdateCheckResult {
                available: false,
                version: None,
                message: owned("当前已是最新版本。"),
            },
            log_entry("install_update", "success", "up_to_date"),
        ),
        UpdaterInstall::InstallFailed { error } => {
            let category = updater_error_category(error);
            (
                failed_result(install_failure_message(category)),
                log_entry("install_update", "failed", category),
            )
        },
        UpdaterInstall::Installed { version } => (
            UpdateCheckResult {
                available: false,
                version: Some(owned(version.as_str())),
                message: owned("更新已安装，应用即将按安装器要求重启。"),
            },
            log_entry("install_update", "success", "installed"),
        ),
    }
}

/// What a tray menu entry does, by the entry's id.
#[derive(Debug, Clone, Copy, PartialEq, Eq, Structural)]
pub enum MenuAction {
    /// `toggle`: show or hide the main window (the menu-bar window on macOS).
    TogglePrimary,
    /// `toggle_top`: show or hide the top bar.
    ToggleTop,
    /// `detail`: show or hide the detail window.
    ToggleDetail,
    /// `settings`: open the settings.
    OpenSettings,
    /// `refresh`: ask for a refresh.
    Refresh,
    /// `always_on_top_main`: toggle always-on-top of the main window.
    PinMain,
    /// `always_on_top_top`: toggle always-on-top of the top bar.
    PinTop,
    /// `lock_position_main`: toggle the position lock of the main window.
    LockMain,
    /// `lock_position_top`: toggle the position lock of the top bar.
    LockTop,
    /// `update_check`: check for an update.
    CheckUpdate,
    /// `update_install`: install the update found.
    InstallUpdate,
    /// `quit`: quit.
    Quit,
    /// Any other id: nothing.
    Nothing,
}

/// The action of the tray menu entry with id `id`.
pub open spec fn menu_action_model(id: Seq<char>) -> MenuAction {
    if id == "toggle"@ {
        MenuAction::TogglePrimary
    } else if id == "toggle_top"@ {
        MenuAction::ToggleTop
    } else if id == "detail"@ {
        MenuAction::ToggleDetail
    } else if id == "settings"@ {
        MenuAction::OpenSettings
    } else if id == "refresh"@ {
        MenuAction::Refresh
    } else if id == "always_on_top_main"@ {
        MenuAction::PinMain
    } else if id == "always_on_top_top"@ {
        MenuAction::PinTop
    } else if id == "lock_position_main"@ {
        MenuAction::LockMain
    } else if id == "lock_position_top"@ {
        MenuAction::LockTop
    } else if id == "update_check"@ {
        MenuAction::CheckUpdate
    } else if id == "update_install"@ {
        MenuAction::InstallUpdate
    } else if id == "quit"@ {
        MenuAction::Quit
    } else {
        MenuAction::Nothing
    }
}

/// The action of the tray menu entry with id `id` (see `menu_action_model`).
pub fn menu_action(id: &str) -> (res: MenuAction)
    ensures
        res == menu_action_model(id@),
{
    if same_text(id, "toggle") {
        MenuAction::TogglePrimary
    } else if same_text(id, "toggle_top") {
        MenuAction::ToggleTop
    } else if same_text(id, "detail") {
        MenuAction::ToggleDetail
    } else if same_text(id, "settings") {
        MenuAction::OpenSettings
    } else if same_text(id, "refresh") {
        MenuAction::Refresh
    } else if same_text(id, "always_on_top_main") {
        MenuAction::PinMain
    } else if same_text(id, "always_on_top_top") {
        MenuAction::PinTop
    } else if same_text(id, "lock_position_main") {
        MenuAction::LockMain
    } else if same_text(id, "lock_position_top") {
        MenuAction::LockTop
    } else if same_text(id, "update_check") {
        MenuAction::CheckUpdate
    } else if same_text(id, "update_install") {
        MenuAction::InstallUpdate
    } else if same_text(id, "quit") {
        MenuAction::Quit
    } else {
        MenuAction::Nothing
    }
}

} // verus!
