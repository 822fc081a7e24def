# wrusp

Wrusp is an unofficial desktop client for WhatsApp: WhatsApp Web in
WebKitGTK views, several accounts with isolated sessions, a tray icon with an
unread badge, desktop notifications, a light/dark theme, and dropping or
pasting files into a chat.

The crate is split in two:

- `src/` is the library, verified with Verus. It holds the decisions and
  the data: the settings and their validation, accounts and their order,
  unread counts, which URLs a view may load or open, the scripts injected in
  the pages, the diagnostic report, timestamps and the log tail, download
  names, the notification and tray logic, and the start-up environment.
  Calls into `uuid`, `url`, `serde_json` and a few std functions sit behind
  small trusted wrappers whose contracts say what those crates do.
- `app/` is the program around it: `main`, the Tauri window and views, file
  and D-Bus I/O, the clipboard, and the drawing of the badge (floating
  point). It hands plain values to the library and acts on what comes back.

`tests/` runs the library on concrete values.
