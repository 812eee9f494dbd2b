# barista

A Discord bot whose triage module holds new guild members until a moderator
approves, kicks or bans them.

- `src/` is the verified library: the decimal ids and button custom ids
  (`decimal`, `text`, `buttons`), the embeds and times the bot posts
  (`embeds`, `clock`), the triage request and the button-press workflow
  (`triage`, `interaction`), the configuration commands and what they write to
  the `triage` table (`commands`), and event routing and error reporting
  (`events`). Laws about them are proof functions beside the code.
- `app/` is the bot itself: poise commands, the serenity event loop, sqlx
  queries, and the driver that carries out the steps the library decides.
- `tests/` runs the library on concrete values, against std, chrono and
  serenity where they compute the same thing.
