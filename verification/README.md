# sokuten

The verified core of Sokuten (速貼), a Windows system-tray text expander that
injects saved phrases into the focused window.

- `src/` — the library, verified with Verus:
  - `phrases` — phrases, the persisted configuration, its defaults, and what
    each way a load can end yields;
  - `text` — substring search, prefix test, Unicode whitespace trimming,
    lower-casing;
  - `inject` — UTF-16 encoding and the key events that inject a text;
  - `hotkey` — the global hotkeys and the handling of queue messages;
  - `tray` — the tray icon's image and menu commands;
  - `ui` — the application state machine (paste delay, visibility, modes,
    search, keyboard navigation, adding and deleting phrases, status line);
  - `laws` — properties that span several operations.
- `app/` — the Windows program around it: window (eframe), tray, hotkey
  thread, `SendInput`, and the JSON files.
- `tests/` — tests of the library.
