# Codex Gauge

Codex Gauge watches the local Codex usage: the five-hour and weekly limits, when they reset,
the plan and the reset credits. It asks the local `codex app-server` first and falls back to the
usage service with the Codex login, backs off after failures, and never lets credentials reach a
snapshot, a setting, an error message or a log line.

## Layout

- `src/` is the library, verified with Verus. Each module states its behaviour in contracts over
  mathematical models (sequences of characters for texts, fixed-point integers for percentages,
  a JSON value type for the documents it reads):
  - `json`, `decimal`, `percent`, `text`: the JSON documents, exact decimal numbers and texts;
  - `parser`, `rate_limits`, `auth_json`, `usage_report`, `codex`, `app_server`: reading the
    app-server and the usage service, and choosing where a refresh takes its snapshot from;
  - `model`, `reset`, `session`, `history`, `storage`: snapshots, reset counting, token totals,
    the usage history and the saved state;
  - `config`, `desktop`: settings and their normalization;
  - `presentation`, `tray`, `update_flow`, `badge`, `menu_icon`, `layout`: what the windows and
    the tray show, and where windows go;
  - `updater`: the release manifest, version comparison, package checks and signatures;
  - `clock`: the calls into `chrono`.
- `tests/` runs the library on concrete values.
- `app/` is a console driver: it reads and writes the files (settings, state, reset counts and
  the usage history), talks to the network and to the `codex` process, and hands the library
  plain values.
