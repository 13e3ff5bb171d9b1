# sys_stats

The verified core of a small system-telemetry product: a command-line agent
that registers a device, installs itself as a background service and posts
samples to a backend; a desktop app that buffers samples locally; and the
backend that stores them and raises alerts.

`src/` is the library, verified with Verus:

- `service/` — choosing the init system (launchd, systemd, OpenRC, Windows
  task scheduler), the plan of commands and file operations for install,
  start, stop, status and uninstall, and the state machine (`plan::ServiceRun`)
  that walks a plan one outside action at a time.
- `config.rs` — the agent's configuration, its defaults, token updates and
  API endpoints.
- `collector.rs` — token choice, sync interval, the integer counters of a
  sample, the desktop token store and what a sync round deletes.
- `telemetry.rs` — the agent's upload loop as a state machine: each round
  waits the sync interval, samples, posts once and warns on failure.
- `local_db.rs` — the desktop buffer's file locations (Unix or Windows
  separators), reading back the saved token, and the delete statement.
- `auth.rs`, `dashboard.rs` — sign-in outcomes and the dashboard's view logic.
- `backend.rs`, `alerts.rs` — request authentication, alert-rule settings and
  the state machine that handles one alert rule after an upload.
- `status.rs` — the agent's status report lines.
- `text.rs` — string primitives (trimming, prefixes, paths, digits).

`app/` is the agent program around it: command line, file and process I/O,
HTTP, system sampling, the desktop app's SQLite buffer and the backend's
Worker routes.
