# wordbot

The rules of a small Discord community bot, verified with Verus.

- `src/text.rs`: white space, word counting, punctuation, integer parsing and
  joining words, each with a contract over sequences of characters.
- `src/mention.rs`: how a user is mentioned in a message (through serenity).
- `src/counting.rs`: the counting game, its step function and its laws.
- `src/story.rs`: the one-word story, its step function and its laws.
- `src/commands.rs`: the slash commands' answers, the channels, message routing.
- `src/registry.rs`: the slash commands as they are registered.
- `src/bot.rs`: the whole state of the bot and its two entry points.
- `app/main.rs`: the serenity client that feeds events to the library and
  performs its answers.
