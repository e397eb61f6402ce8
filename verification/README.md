# SlippyBot

A small Slack bot that answers greetings, thanks and "how are you", says
things on request, and announces a saying to preserve the joy on a schedule.

- `src/` is the verified library: the commands (`commands/`), the bot that
  offers each message to them in turn and answers help requests
  (`brain.rs`), the decision of which messages reach the bot
  (`handler.rs`), and the thin, trusted wrappers around the regex, cron,
  chrono and rand crates and the system clock (`pattern.rs`, `schedule.rs`,
  `time.rs`, `chance.rs`).
- `app/` is the program: it reads `slippybot.conf` and `joy.json`, talks to
  Slack, posts what the library answers, and runs the timer thread.
- `tests/` runs the library with the real outside crates.

To add a command, implement the `Command` trait for it in `src/commands/`,
add a variant for it to `BuiltinCommand` (which dispatches to each
command), and push it onto the command list in `SlippyBrain::new`.
