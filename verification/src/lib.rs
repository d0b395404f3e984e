use vstd::prelude::*;

pub mod app_server;
pub mod auth_json;
pub mod badge;
pub mod clock;
pub mod codex;
pub mod config;
pub mod decimal;
pub mod desktop;
pub mod history;
pub mod json;
pub mod layout;
pub mod menu_icon;
pub mod model;
pub mod parser;
pub mod percent;
pub mod presentation;
pub mod rate_limits;
pub mod reset;
pub mod session;
pub mod storage;
pub mod text;
pub mod tray;
pub mod update_flow;
pub mod updater;
pub mod usage_report;

verus! {

} // verus!
