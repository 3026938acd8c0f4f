# cc_switch

The rules behind a switcher for coding assistants, verified with Verus: what the
local proxy sends on, which usage is billed, how a database migration makes way with
a running daemon, and what the commands, the terminal screens and the web dashboard
do.

- `src/proxy` rewrites a stream of Responses events into Anthropic events.
- `src/services` reads the session logs of Codex and the database of OpenCode into
  requests that are billed once.
- `src/daemon` decides, step by step, how a daemon is shut down before a migration and
  brought back after it.
- `src/session_manager` keeps what was read of session files and says which have to be
  read again.
- `src/web` holds the commands of the dashboard: their arguments, the operations they
  run, and their answers.
- `src/cli` holds the commands and the screens of the terminal.
- `src/text.rs`, `src/json.rs`, `src/file_name.rs`, `src/text_set.rs` and
  `src/app_type.rs` are what the others build on.

Each function states in its contract what it returns, over models of the data. Public
proof functions whose names begin with `law_` state what holds of several calls.

What is believed without proof is marked where it stands: a few functions of the
standard library, and those of `serde_json`, `uuid` and `chrono` that are called.

`app` is ordinary Rust around the library: files, sockets, processes, the database,
the terminal and the web server. `tests` runs the library.
