# recordatorio

A voice reminder assistant for Spanish speakers: it reads phrases such as
"recuérdame comprar leche mañana a las 9" or "reunión en 30 minutos", works
out when the reminder is due, keeps reminders in a local SQLite file or on a
shared SQL Server, and notifies them on time.

The crate is a library verified with Verus (`src/`), with the desktop
application around it in `app/`.

- `src/text.rs` — trimming, searching, removing and splitting text, and
  decimal numbers, each against a short specification.
- `src/pattern.rs` — regular-expression search (the `regex` crate) and
  lower-casing, whose results are named.
- `src/clock.rs` — local wall-clock readings as plain numbers; the clock, the
  time zone and date rendering are `chrono`'s.
- `src/date_parser.rs` — reading a phrase: which moment it names, with what
  confidence, and the title left once that part is removed; placing the
  moment on the calendar.
- `src/shortcuts.rs` — accelerator texts ("Ctrl+Alt+R") and shortcut actions.
- `src/store.rs` — reminder records, default settings and shortcuts, the
  local/shared mode, and the SQL statements each store operation sends.
- `src/whisper.rs`, `src/notifications.rs`, `src/scheduler.rs`,
  `src/commands.rs` — the decisions of speech recognition, notification
  sounds, the notification loop and the application's commands.

`app/` holds the Tauri application: windows, tray, global shortcuts,
notifications, database connections and the Whisper recogniser.
