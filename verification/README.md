# discord_handler

The decisions of a Discord bot's gateway handler, verified with Verus.

- `src/` is the library. Each conversation with Discord is a state machine with an exact
  specification: taking a message in (`intake`, with the search for a thread's starter text in
  `starter`), answering it while the answer is still being made (`turn`), keeping the posted
  messages in line with the chunks of a text (`chunks`), and answering a slash command (`slash`).
  `handler` decides whom the bot listens to and announces events; `prompt` and `mention` build the
  text of a prompt. The functions named `law_...` state what holds of whole conversations.
- `app/` carries the decisions out through `serenity` and `tokio`. Formatting, message conversion
  and the slash commands themselves come from the surrounding program, through the trait `Bridge`.
- `tests/` runs the library.
