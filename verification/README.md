# mewbot

A Discord bot whose logic is a library verified with Verus.

- `src/` is the verified library: permission levels, cooldowns, the command
  registry, the wallet (balances, credits, debits, inits, resets, the display
  unit, and what each wallet command decides and answers), the help pages, the
  flashback player card, the voice commands' steps, the command line's plugin
  generator, the self-updater's checks, log lines and data paths. Each public
  function states its result in its `ensures`; the laws of the library are the
  `law_*` proof functions.
- `app/` is the program around it: the Discord client and its events, the
  wallet file, HTTP requests, the command line and self-replacement.
- `tests/` runs the library on concrete values.

Environment variables: `DISCORD_TOKEN` (required), `COMMAND_PREFIX` (default
`m/`), `ADMIN_USER_ID` (the bot owner, above every server's admins and free of
cooldowns).
