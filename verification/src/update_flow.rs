//! What the settings panel and the tray show while an update is checked and installed or the
//! Codex login is opened, and how quick repeated clicks on the widget and the tray icon are told
//! apart.
use vstd::prelude::*;

use crate::text::{join2, join3, owned};
use crate::app_server::{safe_error_kind, safe_error_kind_model, SpawnFailure};
use crate::updater::{UpdateError, UpdateInfo};

verus! {

/// The texts the panel shows once an update check has finished.
#[derive(Debug, Clone)]
pub struct UpdateCheckView {
    pub message: String,
    pub label: String,
    pub available: bool,
}

/// Message, button label and availability after a check with the given outcome.
pub open spec fn check_view_model(result: Result<Option<UpdateInfo>, UpdateError>) -> (
    Seq<char>,
    Seq<char>,
    bool,
) {
    match result {
        Ok(Some(info)) => (
            "发现新版本 v"@ + info.version@ + "，点击安装后自动更新"@,
            "安装 v"@ + info.version@,
            true,
        ),
        Ok(None) => ("已是最新版"@, "检查更新"@, false),
        Err(_) => ("检查更新失败"@, "检查更新"@, false),
    }
}

/// What the panel shows after an update check (see `check_view_model`).
pub fn check_view(result: &Result<Option<UpdateInfo>, UpdateError>) -> (res: UpdateCheckView)
    ensures
        (res.message@, res.label@, res.available) == check_view_model(*result),
{
    match result {
        Ok(Some(info)) => UpdateCheckView {
            message: join3("发现新版本 v", info.version.as_str(), "，点击安装后自动更新"),
            label: join2("安装 v", info.version.as_str()),
            available: true,
        },
        Ok(None) => UpdateCheckView {
            message: owned("已是最新版"),
            label: owned("检查更新"),
            available: false,
        },
        Err(_) => UpdateCheckView {
            message: owned("检查更新失败"),
            label: owned("检查更新"),
            available: false,
        },
    }
}

/// The message shown when installing an update failed.
pub open spec fn install_failure_model(error: UpdateError) -> Seq<char> {
    match error {
        UpdateError::SignatureConfig => "未配置原生版更新公钥"@,
        UpdateError::SignatureInvalid => "更新包签名验证失败"@,
        UpdateError::NoWindowsAsset => "Release 中没有 Windows x64 更新包"@,
        _ => "下载或安装更新失败，请查看 update.log"@,
    }
}

/// The message shown when installing an update failed (see `install_failure_model`).
pub fn install_failure_text(error: UpdateError) -> (res: &'static str)
    ensures
        res@ == install_failure_model(error),
{
    match error {
        UpdateError::SignatureConfig => "未配置原生版更新公钥",
        UpdateError::SignatureInvalid => "更新包签名验证失败",
        UpdateError::NoWindowsAsset => "Release 中没有 Windows x64 更新包",
        _ => "下载或安装更新失败，请查看 update.log",
    }
}

/// What the tray's update entry starts: an install when a newer release is known, else a check.
#[derive(Debug, Clone, Copy, PartialEq, Eq, Structural)]
pub enum UpdateAction {
    Check,
    Install,
}

/// The tray's update entry installs a known release and otherwise checks for one.
pub fn update_action(update_known: bool) -> (res: UpdateAction)
    ensures
        res == (if update_known {
            UpdateAction::Install
        } else {
            UpdateAction::Check
        }),
{
    if update_known {
        UpdateAction::Install
    } else {
        UpdateAction::Check
    }
}

/// The message shown when an install is asked for before any check found a release; `None`
/// when a release is known and the download starts.
pub fn install_request_message(update_known: bool) -> (res: Option<&'static str>)
    ensures
        update_known ==> res is None,
        !update_known ==> (res matches Some(m) && m@ == "请先检查更新"@),
{
    if update_known {
        None
    } else {
        Some("请先检查更新")
    }
}

/// The message shown after trying to start `codex login`: whether the process could be started.
pub fn login_message(started: bool) -> (res: &'static str)
    ensures
        res@ == (if started {
            "已打开 Codex 登录"@
        } else {
            "无法打开 Codex 登录"@
        }),
{
    if started {
        "已打开 Codex 登录"
    } else {
        "无法打开 Codex 登录"
    }
}

/// The desktop build's error when `codex login` could not be started: a fixed message and the
/// code of the failure, which names no path or argument.
pub fn login_failure_message(failure: SpawnFailure) -> (res: String)
    ensures
        res@ == "无法启动 Codex 登录："@ + safe_error_kind_model(failure),
{
    join2("无法启动 Codex 登录：", safe_error_kind(failure))
}

/// Milliseconds within which a second click on the widget is ignored.
pub const PANEL_CLICK_GAP_MS: u64 = 250;

/// Milliseconds within which two clicks on the tray icon make a double click.
pub const TRAY_DOUBLE_CLICK_MS: u64 = 450;

/// Milliseconds from `earlier` to `now`, zero when the clock reads an earlier time.
pub open spec fn elapsed(earlier: u64, now: u64) -> int {
    if now >= earlier {
        now - earlier
    } else {
        0
    }
}

/// The widget's click gate: a click that follows the last accepted click by less than
/// `PANEL_CLICK_GAP_MS` is ignored; any other is accepted and becomes the last accepted click.
/// The pair is the last accepted click afterwards and whether this click was accepted.
pub open spec fn panel_click_model(last: Option<u64>, now: u64) -> (Option<u64>, bool) {
    match last {
        Some(t) => if elapsed(t, now) < PANEL_CLICK_GAP_MS {
            (last, false)
        } else {
            (Some(now), true)
        },
        None => (Some(now), true),
    }
}

/// Whether a click on the widget toggles the panel (see `panel_click_model`).
pub fn panel_click(last: Option<u64>, now: u64) -> (res: (Option<u64>, bool))
    ensures
        res == panel_click_model(last, now),
{
    match last {
        Some(t) => {
            let gap: u64 = if now >= t {
                now - t
            } else {
                0
            };
            if gap < PANEL_CLICK_GAP_MS {
                (last, false)
            } else {
                (Some(now), true)
            }
        },
        None => (Some(now), true),
    }
}

/// The tray icon's click pairing: a click that follows the remembered click by less than
/// `TRAY_DOUBLE_CLICK_MS` is a double click, which brings the windows to the front and forgets
/// the first click; any other click is remembered. The pair is the remembered click afterwards
/// and whether the windows come to the front.
pub open spec fn tray_click_model(last: Option<u64>, now: u64) -> (Option<u64>, bool) {
    match last {
        Some(t) => if elapsed(t, now) < TRAY_DOUBLE_CLICK_MS {
            (None, true)
        } else {
            (Some(now), false)
        },
        None => (Some(now), false),
    }
}

/// Whether a click on the tray icon completes a double click (see `tray_click_model`).
pub fn tray_click(last: Option<u64>, now: u64) -> (res: (Option<u64>, bool))
    ensures
        res == tray_click_model(last, now),
{
    match last {
        Some(t) => {
            let gap: u64 = if now >= t {
                now - t
            } else {
                0
            };
            if gap < TRAY_DOUBLE_CLICK_MS {
                (None, true)
            } else {
                (Some(now), false)
            }
        },
        None => (Some(now), false),
    }
}

/// A double click on the tray icon uses up both clicks: whatever click comes next starts a new
/// pair and never brings the windows to the front by itself.
pub proof fn lemma_double_click_resets(last: Option<u64>, now: u64, next: u64)
    requires
        tray_click_model(last, now).1,
    ensures
        !tray_click_model(tray_click_model(last, now).0, next).1,
{
}

/// An accepted click on the widget starts a quiet period: a click less than
/// `PANEL_CLICK_GAP_MS` after it (by a clock that does not run backwards) is ignored and leaves
/// the accepted click in place.
pub proof fn lemma_click_gap(last: Option<u64>, now: u64, next: u64)
    requires
        panel_click_model(last, now).1,
        now <= next,
        next - now < PANEL_CLICK_GAP_MS,
    ensures
        panel_click_model(panel_click_model(last, now).0, next) == (Some(now), false),
{
}

} // verus!
