//! Where a refresh takes its snapshot from, and how the snapshot is finished.
use vstd::prelude::*;

use crate::auth_json::{AuthJsonError};
use crate::clock::unix_now;
use crate::config::ProviderPreference;
use crate::json::{field_or_self, find_text, JsonValue};
use crate::model::{
    empty_model, opt_credits, unlimited_five_hour, CodexUsageSnapshot, SnapshotModel,
    SnapshotSource, SnapshotStatus, UsageCredits,
};
use crate::parser::{first_named, parse_account_plan, parse_rate_limits, report_windows};

verus! {

/// A snapshot reports usage: the query succeeded and found a window.
pub open spec fn usage_reported(s: SnapshotModel) -> bool {
    s.status == SnapshotStatus::Success && (s.primary_window.is_some()
        || s.secondary_window.is_some())
}

/// Whether the snapshot reports usage (see `usage_reported`).
pub fn has_usage(snapshot: &CodexUsageSnapshot) -> (res: bool)
    ensures
        res == usage_reported(snapshot@),
{
    snapshot.status == SnapshotStatus::Success && (snapshot.primary_window.is_some()
        || snapshot.secondary_window.is_some())
}

/// The plan that an account report names (inside `result` when it has one).
pub open spec fn account_plan(account: JsonValue) -> Option<Seq<char>> {
    find_text(field_or_self(account, "result"@), seq!["planType"@, "plan_type"@, "plan"@])
}

/// How the reports of the app-server make a snapshot: the windows, plan and reached limit of
/// the rate-limit report, the plan of the account report when the former names none, and a
/// failed status when no window was found.
pub open spec fn app_server_fits(
    account: Option<JsonValue>,
    rate_limits: JsonValue,
    now: i64,
    s: SnapshotModel,
) -> bool {
    let root = field_or_self(rate_limits, "result"@);
    let ws = report_windows(root);
    let five = first_named(ws, "5h"@);
    let week = first_named(ws, "weekly"@);
    &&& s.source == SnapshotSource::AppServer
    &&& s.status == if five.is_none() && week.is_none() {
        SnapshotStatus::RequestFailed
    } else {
        SnapshotStatus::Success
    }
    &&& s.primary_window == five
    &&& s.secondary_window == week
    &&& !s.primary_window_unlimited
    &&& s.plan_type == match find_text(root, seq!["planType"@, "plan_type"@]) {
        Some(p) => Some(p),
        None => match account {
            Some(a) => account_plan(a),
            None => None,
        },
    }
    &&& s.credits.is_none()
    &&& s.rate_limit_reached_type == find_text(root, seq!["rateLimitReachedType"@])
    &&& s.updated_at == now
}

/// Builds the snapshot of the app-server reports, stamped with `now` (see `app_server_fits`).
pub fn build_app_server_snapshot_at(
    account: &Option<JsonValue>,
    rate_limits: &JsonValue,
    now: i64,
) -> (res: CodexUsageSnapshot)
    ensures
        app_server_fits(*account, *rate_limits, now, res@),
{
    let mut snapshot = CodexUsageSnapshot::empty_at(
        SnapshotSource::AppServer,
        SnapshotStatus::Success,
        now,
    );
    let parsed = parse_rate_limits(rate_limits);
    snapshot.primary_window = parsed.five_hour;
    snapshot.secondary_window = parsed.weekly;
    snapshot.plan_type = match parsed.plan_type {
        Some(p) => Some(p),
        None => match account {
            Some(a) => parse_account_plan(a),
            None => None,
        },
    };
    snapshot.rate_limit_reached_type = parsed.rate_limit_reached_type;
    if snapshot.primary_window.is_none() && snapshot.secondary_window.is_none() {
        snapshot.status = SnapshotStatus::RequestFailed;
    }
    snapshot
}

/// Builds the snapshot of the app-server reports, stamped with the current time.
pub fn build_app_server_snapshot(account: &Option<JsonValue>, rate_limits: &JsonValue) -> (res:
    CodexUsageSnapshot)
    ensures
        app_server_fits(*account, *rate_limits, res.updated_at, res@),
{
    build_app_server_snapshot_at(account, rate_limits, unix_now())
}

/// The snapshot that the login path yields: the snapshot read, or an empty one that reports
/// why none could be read.
pub open spec fn auth_snapshot_model(r: Result<SnapshotModel, AuthJsonError>, now: i64) -> SnapshotModel {
    match r {
        Ok(s) => s,
        Err(e) => empty_model(
            SnapshotSource::AuthJson,
            match e {
                AuthJsonError::NotLoggedIn => SnapshotStatus::NotLoggedIn,
                AuthJsonError::InvalidAuth => SnapshotStatus::InvalidAuth,
                AuthJsonError::RequestFailed => SnapshotStatus::RequestFailed,
            },
            now,
        ),
    }
}

/// Turns the result of the login path into a snapshot; an error yields an empty snapshot
/// stamped with `now`.
pub fn auth_snapshot_at(result: Result<CodexUsageSnapshot, AuthJsonError>, now: i64) -> (res:
    CodexUsageSnapshot)
    ensures
        res@ == auth_snapshot_model(
            match result {
                Ok(s) => Ok(s@),
                Err(e) => Err(e),
            },
            now,
        ),
{
    match result {
        Err(error) => CodexUsageSnapshot::empty_at(SnapshotSource::AuthJson, error.status(), now),
        Ok(snapshot) => snapshot,
    }
}

/// What a refresh does next.
#[derive(Debug, Clone, Copy, PartialEq, Eq, Structural)]
pub enum RefreshStep {
    /// Ask the Codex app-server.
    ReadAppServer,
    /// Read the usage with the local login.
    ReadAuth,
    /// Use the snapshot of the app-server.
    UseAppServer,
    /// Use the snapshot of the login path.
    UseAuth,
}

/// Whether a read of the app-server gave a snapshot with usage.
pub open spec fn app_server_usable(app: Option<Option<SnapshotModel>>) -> bool {
    match app {
        Some(Some(s)) => usage_reported(s),
        _ => false,
    }
}

/// The next step of a refresh, given what was read so far (`None`: not read yet; an app-server
/// read may have failed, `Some(None)`). The preferred source is read first and used when it
/// reports usage; otherwise the other source is read and used when it reports usage; with the
/// app-server preferred the login path is then used whatever it gave, with the login path
/// preferred its snapshot is then kept.
pub open spec fn refresh_step(
    preference: ProviderPreference,
    app: Option<Option<SnapshotModel>>,
    auth: Option<SnapshotModel>,
) -> RefreshStep {
    match preference {
        ProviderPreference::AppServer => if app.is_none() {
            RefreshStep::ReadAppServer
        } else if app_server_usable(app) {
            RefreshStep::UseAppServer
        } else if auth.is_none() {
            RefreshStep::ReadAuth
        } else {
            RefreshStep::UseAuth
        },
        ProviderPreference::Api => match auth {
            None => RefreshStep::ReadAuth,
            Some(a) => if usage_reported(a) {
                RefreshStep::UseAuth
            } else if app.is_none() {
                RefreshStep::ReadAppServer
            } else if app_server_usable(app) {
                RefreshStep::UseAppServer
            } else {
                RefreshStep::UseAuth
            },
        },
    }
}

/// The model of an optional app-server read.
pub open spec fn app_read_model(app: Option<Option<CodexUsageSnapshot>>) -> Option<
    Option<SnapshotModel>,
> {
    match app {
        Some(Some(s)) => Some(Some(s@)),
        Some(None) => Some(None),
        None => None,
    }
}

/// The model of an optional login-path read.
pub open spec fn auth_read_model(auth: Option<CodexUsageSnapshot>) -> Option<SnapshotModel> {
    match auth {
        Some(s) => Some(s@),
        None => None,
    }
}

/// Decides the next step of a refresh (see `refresh_step`). No source is read twice, and a
/// source is used only once it was read.
pub fn next_refresh_step(
    preference: ProviderPreference,
    app_server: &Option<Option<CodexUsageSnapshot>>,
    auth: &Option<CodexUsageSnapshot>,
) -> (res: RefreshStep)
    ensures
        res == refresh_step(preference, app_read_model(*app_server), auth_read_model(*auth)),
        res == RefreshStep::ReadAppServer ==> app_server.is_none(),
        res == RefreshStep::ReadAuth ==> auth.is_none(),
        res == RefreshStep::UseAppServer ==> (app_server matches Some(Some(s)) && usage_reported(
            s@,
        )),
        res == RefreshStep::UseAuth ==> auth.is_some(),
{
    let app_usable = match app_server {
        Some(Some(s)) => has_usage(s),
        _ => false,
    };
    match preference {
        ProviderPreference::AppServer => {
            if app_server.is_none() {
                RefreshStep::ReadAppServer
            } else if app_usable {
                RefreshStep::UseAppServer
            } else if auth.is_none() {
                RefreshStep::ReadAuth
            } else {
                RefreshStep::UseAuth
            }
        },
        ProviderPreference::Api => match auth {
            None => RefreshStep::ReadAuth,
            Some(a) => {
                if has_usage(a) {
                    RefreshStep::UseAuth
                } else if app_server.is_none() {
                    RefreshStep::ReadAppServer
                } else if app_usable {
                    RefreshStep::UseAppServer
                } else {
                    RefreshStep::UseAuth
                }
            },
        },
    }
}

/// A refresh ends after at most one read of each source: from the state before any read,
/// following `refresh_step` reaches a use within three steps, and the preferred source is
/// used whenever its read reports usage.
pub proof fn lemma_refresh_settles(
    preference: ProviderPreference,
    app: Option<SnapshotModel>,
    auth: SnapshotModel,
)
    ensures
        ({
            let first = refresh_step(preference, None, None);
            let after_app = refresh_step(preference, Some(app), None);
            let after_auth = refresh_step(preference, None, Some(auth));
            let after_both = refresh_step(preference, Some(app), Some(auth));
            &&& preference == ProviderPreference::AppServer ==> {
                &&& first == RefreshStep::ReadAppServer
                &&& app_server_usable(Some(app)) ==> after_app == RefreshStep::UseAppServer
                &&& !app_server_usable(Some(app)) ==> after_app == RefreshStep::ReadAuth
                    && after_both == RefreshStep::UseAuth
            }
            &&& preference == ProviderPreference::Api ==> {
                &&& first == RefreshStep::ReadAuth
                &&& usage_reported(auth) ==> after_auth == RefreshStep::UseAuth
                &&& !usage_reported(auth) ==> after_auth == RefreshStep::ReadAppServer && (
                after_both == RefreshStep::UseAppServer || after_both == RefreshStep::UseAuth)
            }
        }),
{
}

/// Whether a snapshot lacks credits, so that the credits are read on their own.
pub fn needs_credits(snapshot: &CodexUsageSnapshot) -> (res: bool)
    ensures
        res == snapshot.credits.is_none(),
{
    snapshot.credits.is_none()
}

/// Finishes a refresh at the time `now`: credits read on their own fill in missing credits, the
/// snapshot is stamped and the five-hour window marked unlimited when only the weekly one came.
pub fn finish_refresh_at(
    snapshot: CodexUsageSnapshot,
    fallback_credits: Option<UsageCredits>,
    now: i64,
) -> (res: CodexUsageSnapshot)
    ensures
        res@ == (SnapshotModel {
            credits: if snapshot.credits.is_none() {
                opt_credits(fallback_credits)
            } else {
                snapshot@.credits
            },
            updated_at: now,
            primary_window_unlimited: unlimited_five_hour(snapshot@),
            ..snapshot@
        }),
{
    let mut snapshot = snapshot;
    if snapshot.credits.is_none() {
        snapshot.credits = fallback_credits;
    }
    snapshot.normalize_at(now);
    snapshot
}

/// Finishes a refresh at the current time (see `finish_refresh_at`).
pub fn finish_refresh(snapshot: CodexUsageSnapshot, fallback_credits: Option<UsageCredits>) -> (res:
    CodexUsageSnapshot)
    ensures
        res@ == (SnapshotModel {
            credits: if snapshot.credits.is_none() {
                opt_credits(fallback_credits)
            } else {
                snapshot@.credits
            },
            updated_at: res.updated_at,
            primary_window_unlimited: unlimited_five_hour(snapshot@),
            ..snapshot@
        }),
{
    finish_refresh_at(snapshot, fallback_credits, unix_now())
}

} // verus!
