# oofbot

The decision logic of a small Discord bot, verified with Verus.

- `src/` is the library: message and presence routing (`handler`, `presence`),
  replies to a rival bot and the watch that runs while it is offline (`dogebot`),
  the list of users who may be updating their client (`canary`), the per-guild
  music queue (`voice`), the message clean-up commands (`admin`), the `@someone`
  ping (`someone`), permission encodings for the database (`permissions`), log
  lines (`logger`) and the text helpers they share (`text`, `mention`).
  Calls into `regex`, `rand`, `chrono` and `std::time` go through the small
  trusted wrappers in `pattern`, `someone` and `clock`.
- `app/` is the program around it: the Discord client, the database, the voice
  connection, the timers and the log file.
- `tests/` runs the library on concrete values.
