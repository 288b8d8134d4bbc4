# Herdr Workbench

Herdr Workbench is a Windows-first companion for [Herdr](https://herdr.dev):
it binds Herdr workspaces to Workbench workspaces, opens one preview window
per workspace, records what the preview shows (state, screenshots, browser
diagnostics), sends that feedback to the workspace's coding agent, and
serves all of it over a localhost HTTP API and a WebSocket event stream.

The core is written in Verus and verified. The functions that compute state
what they return or change. Those that hand work to Herdr or the preview
window state what they hand over, and the preview window and the agent
bridge say, through relations of their own, which answers they
may give; a companion function that takes the outside answer states exactly
what follows from it. Storage and the event bus keep a record of what was
written and published, so the order "commit, then publish" is part of the
contracts. The properties that span several operations (binding is
idempotent and keyed by the Herdr workspace alone, every durable change
advances a workspace's revision by exactly one and publishes that revision,
a page report keeps what it omits, a workspace keeps only its latest
diagnostics, reconciling the same listing twice changes nothing and binds
no Herdr workspace twice, a workspace's event stream sends exactly that
workspace's events in the order received) are proved in `src/laws.rs`.

## Layout

- `src/` — the verified library.
  - `text`, `ident`, `clock`, `digest` — texts, UUIDs, instants and SHA-256
    digests (UUIDs, time and hashing come from `uuid`, `chrono` and `sha2`).
  - `domain`, `preview` — workspaces, Windows workspace roots, preview
    sessions, screenshots, diagnostics and events.
  - `herdr` — Herdr's workspaces, panes and agents, how a workspace gets its
    root, which agent gets feedback, and the Herdr command lines.
  - `ports`, `memory`, `bus` — the storage and service interfaces with their
    models, the in-memory implementations, and the event bus (`tokio`).
  - `usecases`, `previewing`, `render` — binding, reconciling, opening and
    capturing previews, page state, and the feedback text for an agent.
  - `contracts`, `transport` — the API shapes and what each route answers.
  - `window` — preview window labels, allowed URLs (`url`), page events.
  - `storage` — database rows and the server's constants.
  - `laws` — the properties above.
- `tests/` — tests of the library.
- `app/` — the server program: HTTP and WebSocket plumbing (`axum`), the
  Herdr process and named pipe, the SQLite record (`sqlx`) and the JSON
  forms of the API (`serde`, `utoipa`).
