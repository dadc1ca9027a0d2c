# communique

A desktop notification daemon for the freedesktop notifications interface,
with a layer-shell popup that lists the notifications.

- `src/` is the verified library: urgency levels (`types`), the daemon's
  request handling, identifier allocation and channel wiring (`api`), time
  readings and the local wall-clock text (`clock`), and the popup's decisions:
  row layout, rows by notification identifier, age texts (`ui`).
- `app/` is the program around it: the session-bus interface and signal
  emission (`dbus.rs`) and the GTK popup (`popup.rs`).
- `tests/` runs the library on concrete values.
