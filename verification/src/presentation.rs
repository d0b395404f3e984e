//! The texts that the gauge shows for a snapshot: the panel, the top bar and the tray tooltip.
use vstd::prelude::*;

use crate::clock::{clock_text_shape, local_clock_text, time_text_fits, utc_timestamp_exists};
use crate::decimal::{FULL_PERCENT, PERCENT_UNIT};
use crate::model::{
    CodexUsageSnapshot, CreditItemModel, ResetCreditItem, SnapshotModel, SnapshotSource,
    SnapshotStatus, UsageWindow, WindowModel,
};
use crate::text::{
    blank, contains_seq, contains_text, i64_text, int_text, is_blank, join2, join3, lower_seq,
    nat_text, owned, push_text, same_text, to_lower, u64_text,
};

verus! {

/// A percentage (fixed point, `PERCENT_UNIT` is 1%) clamped to 0..100 and rounded to a whole
/// number, halves to even, as `format!("{:.0}", ..)` rounds.
pub open spec fn rounded_percent(p: int) -> nat {
    let c = if p < 0 {
        0
    } else if p > FULL_PERCENT {
        FULL_PERCENT as int
    } else {
        p
    };
    let q = c / (PERCENT_UNIT as int);
    let r = c % (PERCENT_UNIT as int);
    (if 2 * r > PERCENT_UNIT || (2 * r == PERCENT_UNIT && q % 2 == 1) {
        q + 1
    } else {
        q
    }) as nat
}

/// Rounds a percentage for display (see `rounded_percent`).
pub fn round_percent(p: i64) -> (res: u64)
    ensures
        res as nat == rounded_percent(p as int),
        res <= 100,
{
    let c: i64 = if p < 0 {
        0
    } else if p > FULL_PERCENT {
        FULL_PERCENT
    } else {
        p
    };
    let q = c / PERCENT_UNIT;
    let r = c % PERCENT_UNIT;
    let up = 2 * r > PERCENT_UNIT || (2 * r == PERCENT_UNIT && q % 2 == 1);
    let res = if up {
        q + 1
    } else {
        q
    };
    assert(res <= 100) by {
        assert(q <= 100);
        assert(q == 100 ==> r == 0);
    }
    res as u64
}

/// A whole percentage with its sign, or `未知` when unknown.
pub open spec fn percent_model(v: Option<i64>) -> Seq<char> {
    match v {
        Some(p) => nat_text(rounded_percent(p as int)) + "%"@,
        None => "未知"@,
    }
}

/// Formats a percentage (see `percent_model`).
pub fn percent(value: Option<i64>) -> (res: String)
    ensures
        res@ == percent_model(value),
{
    proof {
        reveal_strlit("未知");
        reveal_strlit("%");
    }
    match value {
        Some(p) => {
            let digits = u64_text(round_percent(p));
            join2(digits.as_str(), "%")
        },
        None => owned("未知"),
    }
}

/// The used share of a window: `已用 N%`, or `已用 未知`.
pub open spec fn used_model(w: Option<WindowModel>) -> Seq<char> {
    match w {
        Some(x) => match x.used_percent {
            Some(p) => "已用 "@ + nat_text(rounded_percent(p as int)) + "%"@,
            None => "已用 未知"@,
        },
        None => "已用 未知"@,
    }
}

/// Formats the used share of a window (see `used_model`).
pub fn used_text(window: &Option<UsageWindow>) -> (res: String)
    ensures
        res@ == used_model(crate::model::opt_window(*window)),
{
    proof {
        reveal_strlit("已用 ");
        reveal_strlit("已用 未知");
        reveal_strlit("%");
    }
    let used = match window {
        Some(w) => w.used_percent,
        None => None,
    };
    match used {
        Some(p) => {
            let digits = u64_text(round_percent(p));
            join3("已用 ", digits.as_str(), "%")
        },
        None => owned("已用 未知"),
    }
}

/// The local time of a reset as an `MM-DD hh:mm` text of that very instant, or `未知` when there
/// is none or `chrono` cannot represent it (see `time_text_fits`). Which local time it shows
/// depends on the machine's time zone.
pub fn reset_time(value: Option<i64>) -> (res: String)
    ensures
        time_text_fits(value, res@, "%m-%d %H:%M"@),
{
    proof {
        reveal_strlit("%m-%d %H:%M");
    }
    let text = match value {
        Some(seconds) => local_clock_text(seconds, "%m-%d %H:%M"),
        None => None,
    };
    match text {
        Some(t) => t,
        None => owned("未知"),
    }
}

/// The local time of day of an instant as an `hh:mm:ss` text of that very instant, or `未知`
/// when `chrono` cannot represent it (see `time_text_fits`). Which local time it is depends on
/// the machine's time zone.
pub fn timestamp(value: i64) -> (res: String)
    ensures
        time_text_fits(Some(value), res@, "%H:%M:%S"@),
{
    proof {
        reveal_strlit("%H:%M:%S");
        reveal_strlit("%m-%d %H:%M");
    }
    match local_clock_text(value, "%H:%M:%S") {
        Some(t) => t,
        None => owned("未知"),
    }
}

/// The text that reports a snapshot status.
pub open spec fn status_model(status: SnapshotStatus) -> Seq<char> {
    match status {
        SnapshotStatus::Success => "用量状态正常"@,
        SnapshotStatus::NotLoggedIn => "未检测到 Codex 登录状态"@,
        SnapshotStatus::InvalidAuth => "Codex 凭据无效，请重新登录"@,
        SnapshotStatus::RequestFailed => "Codex 用量查询失败"@,
    }
}

/// The text that reports a snapshot status.
pub fn status_text(status: SnapshotStatus) -> (res: &'static str)
    ensures
        res@ == status_model(status),
{
    match status {
        SnapshotStatus::Success => "用量状态正常",
        SnapshotStatus::NotLoggedIn => "未检测到 Codex 登录状态",
        SnapshotStatus::InvalidAuth => "Codex 凭据无效，请重新登录",
        SnapshotStatus::RequestFailed => "Codex 用量查询失败",
    }
}

/// The name of a snapshot source.
pub open spec fn source_model(source: SnapshotSource) -> Seq<char> {
    match source {
        SnapshotSource::AppServer => "App Server"@,
        SnapshotSource::AuthJson => "AuthJson API"@,
    }
}

/// The name of a snapshot source.
pub fn source_text(source: SnapshotSource) -> (res: &'static str)
    ensures
        res@ == source_model(source),
{
    match source {
        SnapshotSource::AppServer => "App Server",
        SnapshotSource::AuthJson => "AuthJson API",
    }
}

/// The title of a reset credit: a full reset gets its own name, another non-blank title is
/// kept, and anything else is a plain reset credit.
pub open spec fn credit_title_model(title: Option<Seq<char>>) -> Seq<char> {
    match title {
        Some(v) => if contains_seq(lower_seq(v), "full reset"@) {
            "完整重置（5h + 7d）"@
        } else if !is_blank(v) {
            v
        } else {
            "重置券"@
        },
        None => "重置券"@,
    }
}

/// The title of a reset credit (see `credit_title_model`).
pub fn credit_title(title: Option<&str>) -> (res: String)
    ensures
        res@ == credit_title_model(
            match title {
                Some(t) => Some(t@),
                None => None,
            },
        ),
{
    proof {
        reveal_strlit("完整重置（5h + 7d）");
        reveal_strlit("重置券");
    }
    match title {
        Some(value) => {
            let lower = to_lower(value);
            if contains_text(lower.as_str(), "full reset") {
                owned("完整重置（5h + 7d）")
            } else if !blank(value) {
                owned(value)
            } else {
                owned("重置券")
            }
        },
        None => owned("重置券"),
    }
}

/// The state of a reset credit and whether it can be used: known states in Chinese, another
/// state as given in lower case, an unknown state as `未知`.
pub open spec fn credit_status_model(status: Option<Seq<char>>) -> (Seq<char>, bool) {
    match status {
        Some(v) => {
            let l = lower_seq(v);
            if l == "available"@ || l == "active"@ {
                ("可用"@, true)
            } else if l == "used"@ || l == "consumed"@ {
                ("已使用"@, false)
            } else if l == "expired"@ {
                ("已过期"@, false)
            } else {
                (l, false)
            }
        },
        None => ("未知"@, false),
    }
}

/// The state of a reset credit (see `credit_status_model`).
pub fn credit_status(status: Option<&str>) -> (res: (String, bool))
    ensures
        (res.0@, res.1) == credit_status_model(
            match status {
                Some(t) => Some(t@),
                None => None,
            },
        ),
{
    proof {
        reveal_strlit("可用");
        reveal_strlit("已使用");
        reveal_strlit("已过期");
        reveal_strlit("未知");
    }
    match status {
        Some(value) => {
            let l = to_lower(value);
            let ls = l.as_str();
            if same_text(ls, "available") || same_text(ls, "active") {
                (owned("可用"), true)
            } else if same_text(ls, "used") || same_text(ls, "consumed") {
                (owned("已使用"), false)
            } else if same_text(ls, "expired") {
                (owned("已过期"), false)
            } else {
                (l, false)
            }
        },
        None => (owned("未知"), false),
    }
}

/// One reset credit as the panel lists it.
#[derive(Debug)]
pub struct CreditDisplay {
    pub title: String,
    pub status: String,
    pub expiry: String,
    pub available: bool,
}

/// What a listed credit shows.
pub struct CreditDisplayModel {
    pub title: Seq<char>,
    pub status: Seq<char>,
    pub expiry: Seq<char>,
    pub available: bool,
}

impl View for CreditDisplay {
    type V = CreditDisplayModel;

    open spec fn view(&self) -> CreditDisplayModel {
        CreditDisplayModel {
            title: self.title@,
            status: self.status@,
            expiry: self.expiry@,
            available: self.available,
        }
    }
}

/// How a credit is listed: its title, its state, and when it expires.
pub open spec fn credit_display_model(item: CreditItemModel) -> CreditDisplayModel {
    let (status, available) = credit_status_model(item.status);
    CreditDisplayModel {
        title: credit_title_model(item.title),
        status,
        expiry: match item.expires_at {
            Some(v) => "到期 "@ + v,
            None => "未提供到期时间"@,
        },
        available,
    }
}

/// Lists one credit (see `credit_display_model`).
pub fn credit_display(item: &ResetCreditItem) -> (res: CreditDisplay)
    ensures
        res@ == credit_display_model(item@),
{
    proof {
        reveal_strlit("到期 ");
        reveal_strlit("未提供到期时间");
    }
    let (status, available) = credit_status(
        match &item.status {
            Some(s) => Some(s.as_str()),
            None => None,
        },
    );
    let title = credit_title(
        match &item.title {
            Some(t) => Some(t.as_str()),
            None => None,
        },
    );
    let expiry = match &item.expires_at {
        Some(v) => join2("到期 ", v.as_str()),
        None => owned("未提供到期时间"),
    };
    CreditDisplay { title, status, expiry, available }
}

/// Everything the panel and the top bar show for a snapshot. Remaining shares are in fixed point
/// (`PERCENT_UNIT` is 1%).
#[derive(Debug)]
pub struct GaugeText {
    pub status_text: String,
    pub login_needed: bool,
    pub plan_text: String,
    pub source_text: String,
    pub five_used_text: String,
    pub five_remaining_text: String,
    pub five_reset_text: String,
    pub five_remaining: i64,
    pub five_visible: bool,
    pub five_unlimited: bool,
    pub seven_used_text: String,
    pub seven_remaining_text: String,
    pub seven_reset_text: String,
    pub seven_remaining: i64,
    pub reset_count_text: String,
    pub credit_total_text: String,
    pub credit_items: Vec<CreditDisplay>,
    pub updated_text: String,
}

/// The remaining share of an optional window.
pub open spec fn remaining_of(w: Option<WindowModel>) -> Option<i64> {
    match w {
        Some(x) => x.remaining_percent,
        None => None,
    }
}

/// The reset time of an optional window.
pub open spec fn reset_of(w: Option<WindowModel>) -> Option<i64> {
    match w {
        Some(x) => x.reset_at,
        None => None,
    }
}

/// The reset text of a window: its reset time as an `MM-DD hh:mm` local time, or `未知` when the
/// window names no reset time or `chrono` cannot represent it (see `time_text_fits`).
pub open spec fn reset_text_fits(w: Option<WindowModel>, text: Seq<char>) -> bool {
    time_text_fits(reset_of(w), text, "%m-%d %H:%M"@)
}

/// How the panel texts follow from a snapshot. An unlimited five-hour window gets its own copy
/// and is hidden; the first two credits are listed; the reset and update times are local times.
pub open spec fn gauge_fits(s: SnapshotModel, g: GaugeText) -> bool {
    let five = s.primary_window;
    let seven = s.secondary_window;
    let unlimited = s.primary_window_unlimited;
    let items = match s.credits {
        Some(c) => c.items,
        None => seq![],
    };
    &&& g.status_text@ == status_model(s.status)
    &&& g.login_needed == (s.status == SnapshotStatus::NotLoggedIn || s.status
        == SnapshotStatus::InvalidAuth)
    &&& g.plan_text@ == match s.plan_type {
        Some(p) => p,
        None => "未知"@,
    }
    &&& g.source_text@ == source_model(s.source)
    &&& g.five_used_text@ == if unlimited {
        "当前套餐不受限制"@
    } else {
        used_model(five)
    }
    &&& g.five_remaining_text@ == if unlimited {
        "无限"@
    } else {
        percent_model(remaining_of(five))
    }
    &&& (if unlimited {
        g.five_reset_text@ == "无需重置"@
    } else {
        reset_text_fits(five, g.five_reset_text@)
    })
    &&& g.five_remaining == match remaining_of(five) {
        Some(p) => p,
        None => if unlimited {
            FULL_PERCENT
        } else {
            0
        },
    }
    &&& g.five_visible == !unlimited
    &&& g.five_unlimited == unlimited
    &&& g.seven_used_text@ == used_model(seven)
    &&& g.seven_remaining_text@ == percent_model(remaining_of(seven))
    &&& reset_text_fits(seven, g.seven_reset_text@)
    &&& g.seven_remaining == match remaining_of(seven) {
        Some(p) => p,
        None => 0,
    }
    &&& g.reset_count_text@ == match s.credits {
        Some(c) => match c.available_count {
            Some(n) => int_text(n as int),
            None => "未知"@,
        },
        None => "未知"@,
    }
    &&& g.credit_total_text@ == "共 "@ + nat_text(items.len()) + " 张"@
    &&& g.credit_items@.len() == if items.len() < 2 {
        items.len()
    } else {
        2
    }
    &&& forall|i: int|
        0 <= i < g.credit_items@.len() ==> #[trigger] g.credit_items@[i]@ == credit_display_model(
            items[i],
        )
    &&& time_text_fits(Some(s.updated_at), g.updated_text@, "%H:%M:%S"@)
}

/// The panel shows each window's own shares. For a limited five-hour window that gives a
/// remaining share, the gauge fills to that share and the remaining text is the percent text of
/// that same number; when it gives a used share, the used text is `已用 ` and the percent text of
/// it. The weekly window likewise.
pub proof fn lemma_panel_shows_window_shares(s: SnapshotModel, g: GaugeText)
    requires
        gauge_fits(s, g),
    ensures
        !s.primary_window_unlimited ==> (s.primary_window matches Some(w) ==> (
        w.remaining_percent matches Some(r) ==> g.five_remaining == r && g.five_remaining_text@
            == percent_model(Some(g.five_remaining)))),
        !s.primary_window_unlimited ==> (s.primary_window matches Some(w) ==> (w.used_percent matches Some(
            u,
        ) ==> g.five_used_text@ == "已用 "@ + percent_model(Some(u)))),
        s.secondary_window matches Some(w) ==> (w.remaining_percent matches Some(r) ==> g.seven_remaining
            == r && g.seven_remaining_text@ == percent_model(Some(g.seven_remaining))),
        s.secondary_window matches Some(w) ==> (w.used_percent matches Some(u) ==> g.seven_used_text@
            == "已用 "@ + percent_model(Some(u))),
{
    if let Some(w) = s.primary_window {
        if let Some(u) = w.used_percent {
            assert("已用 "@ + nat_text(rounded_percent(u as int)) + "%"@ =~= "已用 "@ + (nat_text(
                rounded_percent(u as int),
            ) + "%"@));
        }
    }
    if let Some(w) = s.secondary_window {
        if let Some(u) = w.used_percent {
            assert("已用 "@ + nat_text(rounded_percent(u as int)) + "%"@ =~= "已用 "@ + (nat_text(
                rounded_percent(u as int),
            ) + "%"@));
        }
    }
}

/// Builds the panel texts for a snapshot (see `gauge_fits`).
pub fn gauge_data(snapshot: &CodexUsageSnapshot) -> (res: GaugeText)
    ensures
        gauge_fits(snapshot@, res),
{
    proof {
        reveal_strlit("未知");
        reveal_strlit("当前套餐不受限制");
        reveal_strlit("无限");
        reveal_strlit("无需重置");
        reveal_strlit("共 ");
        reveal_strlit(" 张");
    }
    let five = &snapshot.primary_window;
    let seven = &snapshot.secondary_window;
    let unlimited = snapshot.primary_window_unlimited;
    let five_remaining_value = match five {
        Some(w) => w.remaining_percent,
        None => None,
    };
    let seven_remaining_value = match seven {
        Some(w) => w.remaining_percent,
        None => None,
    };
    let five_reset_value = match five {
        Some(w) => w.reset_at,
        None => None,
    };
    let seven_reset_value = match seven {
        Some(w) => w.reset_at,
        None => None,
    };
    let mut credit_items: Vec<CreditDisplay> = Vec::new();
    let mut credit_total: usize = 0;
    if let Some(credits) = &snapshot.credits {
        credit_total = credits.items.len();
        let limit: usize = if credit_total < 2 {
            credit_total
        } else {
            2
        };
        let mut i: usize = 0;
        while i < limit
            invariant
                limit <= credits.items@.len(),
                limit <= 2,
                i <= limit,
                credit_items@.len() == i,
                forall|j: int|
                    0 <= j < i ==> #[trigger] credit_items@[j]@ == credit_display_model(
                        credits.items@[j]@,
                    ),
            decreases limit - i,
        {
            credit_items.push(credit_display(&credits.items[i]));
            i = i + 1;
        }
    }
    let plan_text = match &snapshot.plan_type {
        Some(p) => p.clone(),
        None => owned("未知"),
    };
    let reset_count_text = match &snapshot.credits {
        Some(c) => match c.available_count {
            Some(n) => i64_text(n),
            None => owned("未知"),
        },
        None => owned("未知"),
    };
    let total_digits = u64_text(credit_total as u64);
    let res = GaugeText {
        status_text: owned(status_text(snapshot.status)),
        login_needed: snapshot.status == SnapshotStatus::NotLoggedIn || snapshot.status
            == SnapshotStatus::InvalidAuth,
        plan_text,
        source_text: owned(source_text(snapshot.source)),
        five_used_text: if unlimited {
            owned("当前套餐不受限制")
        } else {
            used_text(five)
        },
        five_remaining_text: if unlimited {
            owned("无限")
        } else {
            percent(five_remaining_value)
        },
        five_reset_text: if unlimited {
            owned("无需重置")
        } else {
            reset_time(five_reset_value)
        },
        five_remaining: match five_remaining_value {
            Some(p) => p,
            None => if unlimited {
                FULL_PERCENT
            } else {
                0
            },
        },
        five_visible: !unlimited,
        five_unlimited: unlimited,
        seven_used_text: used_text(seven),
        seven_remaining_text: percent(seven_remaining_value),
        seven_reset_text: reset_time(seven_reset_value),
        seven_remaining: match seven_remaining_value {
            Some(p) => p,
            None => 0,
        },
        reset_count_text,
        credit_total_text: join3("共 ", total_digits.as_str(), " 张"),
        credit_items,
        updated_text: timestamp(snapshot.updated_at),
    };
    proof {
        let items = match snapshot@.credits {
            Some(c) => c.items,
            None => seq![],
        };
        assert forall|i: int| 0 <= i < res.credit_items@.len() implies #[trigger] (
        res.credit_items@[i])@ == credit_display_model(items[i]) by {
            match &snapshot.credits {
                Some(c) => {
                    assert(items[i] == c.items@[i]@);
                },
                None => {},
            }
        }
    }
    res
}

/// The tray tooltip made of the panel texts: the five-hour line (or `5h 无限`), the weekly line
/// and the reset credits.
pub open spec fn tooltip_model(g: GaugeText) -> Seq<char> {
    let five = if g.five_unlimited {
        "5h 无限"@
    } else {
        "5h 剩"@ + g.five_remaining_text@ + " · "@ + g.five_used_text@ + " · 重置"@
            + g.five_reset_text@
    };
    "Codex Gauge\n"@ + five + "\n7d 剩"@ + g.seven_remaining_text@ + " · "@ + g.seven_used_text@
        + " · 重置"@ + g.seven_reset_text@ + "\n可用重置 "@ + g.reset_count_text@
}

/// The tray tooltip of given panel texts (see `tooltip_model`).
pub fn tooltip_text(data: &GaugeText) -> (res: String)
    ensures
        res@ == tooltip_model(*data),
{
    let mut text = owned("Codex Gauge\n");
    if data.five_unlimited {
        push_text(&mut text, "5h 无限");
    } else {
        push_text(&mut text, "5h 剩");
        push_text(&mut text, data.five_remaining_text.as_str());
        push_text(&mut text, " · ");
        push_text(&mut text, data.five_used_text.as_str());
        push_text(&mut text, " · 重置");
        push_text(&mut text, data.five_reset_text.as_str());
    }
    push_text(&mut text, "\n7d 剩");
    push_text(&mut text, data.seven_remaining_text.as_str());
    push_text(&mut text, " · ");
    push_text(&mut text, data.seven_used_text.as_str());
    push_text(&mut text, " · 重置");
    push_text(&mut text, data.seven_reset_text.as_str());
    push_text(&mut text, "\n可用重置 ");
    push_text(&mut text, data.reset_count_text.as_str());
    text
}

/// The tray tooltip of a snapshot: the tooltip of its panel texts.
pub fn tray_tooltip(snapshot: &CodexUsageSnapshot) -> (res: String)
    ensures
        exists|g: GaugeText| gauge_fits(snapshot@, g) && res@ == tooltip_model(g),
{
    let data = gauge_data(snapshot);
    let res = tooltip_text(&data);
    assert(gauge_fits(snapshot@, data) && res@ == tooltip_model(data));
    res
}

} // verus!
