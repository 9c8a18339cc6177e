# admiral

The command logic of "The Admiral", a small Discord bot, as a library verified
with Verus, and the Discord client around it.

- `src/` — the verified library:
  - `dice` — the dice notation (`NdM`, `dM`), found leftmost in any text;
  - `rolls` — drawing dice, ordering them highest first, the roll message;
  - `commands` — the reply and the log entry for each slash command;
  - `options` — command options and their lookup by name and kind;
  - `startup` — the slash-command table, the start-up sequence once connected,
    and the log lines for failures;
  - `logging` — console log lines;
  - `text` — decimal numerals and character helpers;
  - `chance` — the random draws, through `rand`.
- `app/` — the serenity client, the clock, the console and the tokio runtime.
- `tests/` — tests of the library, among them a comparison of the dice
  notation with the `regex` crate's reading of `([0-9]+)?d([0-9]+)`.
