# jsentinel

A local-first, read-only security dashboard core for Windows: an action
policy, a guarded safe-action executor, an event timeline model, the
decoding of read-only system snapshots, and the conversions of a local
audit store. Verus proves the contracts of the functions in `src/`; the
three that call the standard library directly (`clock::unix_time_seconds`,
`clock::unix_time_nanos`, `text::push_char`) are trusted wrappers.

## Layout

- `src/` — the verified library.
  - `policy.rs` — action kinds, risk classification, availability and plans.
  - `actions.rs` — reveal-path and settings-page validation, the
    kill-process safety check, and the executor that runs a planned action
    through an OS adapter and records the result.
  - `events.rs` — timeline events, their names, and the demo timeline.
  - `foundation.rs` — capability status, read-only query results and the
    read-only provider boundary.
  - `windows.rs` — Windows capabilities and the decoding of process,
    network and startup snapshots.
  - `db.rs` — list-query parameters, the dashboard summary, and the rows
    under which events and action results are stored.
  - `json.rs`, `text.rs`, `clock.rs` — the JSON model, text helpers and
    timestamps the rest is stated over.
  - `ids.rs` — increasing sequence numbers for generated identifiers.
  - `device_access.rs`, `files.rs`, `linux.rs`, `network.rs`,
    `quarantine.rs`, `startup.rs` — placeholders and plans.
- `tests/` — tests of the library.
- `app/` — the program around it: the SQLite store, PowerShell snapshots,
  the OS adapter, and JSON output of the commands.
