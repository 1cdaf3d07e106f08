# window_dock

A native window dock for Windows: a Tauri shell that reparents other
applications' windows into a non-activating container, keeps them on a
scrollable virtual canvas, and hosts small overlay webviews whose placement is
persisted in `overlay.json`.

- `src/` is the library, verified with Verus:
  - `models/` – the data exchanged with the front end and the window system;
    `OverlayConfigFile` is an overlay table with distinct keys.
  - `state/` – the overlay store (load/merge, lookup, moving with size limits)
    and the dock store (docked windows and the snapshots that undo docking).
  - `commands/` – what each dock command decides: validation, the geometry of
    newly docked windows, the docking and undocking plans with their failure
    unwinding, and syncing of virtual bounds.
  - `win32/` – the decisions around Win32 calls: handle validation, placements,
    style bits, window listing, layer registration and activation guards.
  - `text.rs` – decimal rendering and Unicode blankness for messages and titles.
- `app/` is the Tauri program around it: command handlers, file I/O, serde
  copies of the data types, and the `unsafe` Win32 calls, which run the plans
  and ask the library at each decision.
- `tests/` exercises the library on concrete values.
