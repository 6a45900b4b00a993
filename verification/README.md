# swear_jar

The rules of a Discord swear-jar bot, verified with Verus.

- `src/pattern.rs`: swear patterns (a regex and its source text), reading a
  list of patterns from text, counting the patterns that match a message.
- `src/jar.rs`: the bot's state (`SwearJar`), its mathematical view
  (`JarView`) and the commands: create, add patterns, quit, shame, messages,
  gamble, daily reward.
- `src/clock.rs`: the 24-hour test of the daily reward.
- `src/saved.rs`: reading the saved swear counters (JSON).
- `src/text.rs`: the std text operations used (lowercase, trim, split).
- `src/laws.rs`: properties that span several commands.
- `app/main.rs`: the bot itself (poise/serenity, files, the clock).
