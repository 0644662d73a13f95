# brobot

A music bot for chat servers: it keeps a queue of tracks for each guild, downloads
them, and plays them in a voice channel.

- `src/` is the library, written in Verus: what the bot decides and what it says.
  - `queue` holds the queue of a guild and how it moves on; operations return the
    effects that are to be performed outside.
  - `track` and `download` are where tracks come from and how they reach the disk.
  - `commands` and `enqueue` read arguments and decide on answers; `args`, `error`,
    `message` and `text` are what they are made of.
  - `search` builds requests to the search sites and turns replies into results.
- `app/` is the program around it: the connection to the chat service, files, the
  download command, audio. Its `voice` module needs the `voice` feature of `serenity`
  in addition to those in `Cargo.toml`, and with it the Opus library of the system.
- `tests/` runs the library with its outside crates.

Volumes are floating-point numbers; the library carries them as bit patterns and
leaves the arithmetic to the program.
