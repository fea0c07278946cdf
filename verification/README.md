# codepulse

Verified core of a small desktop monitor that shows what local Codex sessions
are doing (thinking, executing, waiting for approval, completed, failed) in a
floating window and a tray icon.

- `src/` is the library, written in Verus and verified:
  - `model.rs`: statuses and their urgency ranks, threads, snapshots, window
    placement and settings (with the migration of early settings files);
  - `text.rs`: character-level text predicates (ASCII case folding, prefixes,
    suffixes, occurrences) and line splitting;
  - `events.rs`: reading rollout lines (JSON through serde_json) and
    classifying them into statuses, and the incremental per-file read cache;
  - `provider.rs`: which threads are shown and how, the snapshot summary, the
    state database choice and query, the process and file-change filters;
  - `window.rs`: resizing, restoring, snapping and recording the window
    position on a monitor's work area;
  - `session.rs`: settings preview and save, tray menu, and what each poll
    announces.
- `tests/` runs the library on concrete values.
- `app/` is the Tauri shell: commands, tray, file watching, process listing,
  SQLite and file reading, settings serialisation, and the polling task.
