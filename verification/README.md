# rs_voice_controller

A Discord bot that gives members voice channels of their own. Joining the
configured start channel creates a channel named after the member, in the
start channel's category, with the member as its owner; when the owner
leaves, the channel goes to someone still in it, or is deleted once empty.

- `src/` is the verified library. Each event handler is a decision machine
  (`connect`, `disconnect`, `voice_state`, `checker`): it is started on the
  event, asks for one Discord, cache or database operation at a time, and is
  told what came of it. `voice` routes voice-state changes and reads voice
  states, `text` renders and parses ids and builds the channel texts,
  `random` picks new owners, `permissions` holds the permission rules,
  `models` the database rows, and `table` the channel table's uniqueness
  rules and the laws about them.
- `app/` is the program: it connects to Discord and to SQLite, performs the
  operations the machines ask for, and reports back.
- `tests/` drives the machines through whole runs on concrete values.
