# voicefox

A terminal music player whose decisions are proved with Verus.

`src/` is the verified library. Every public function states in its
contract what it returns or changes, over spec functions and views:

- `download/` — the download engine's rules (range planning, size and
  checksum checks, candidate URLs, retries), the download queue and its
  task states, the download records with their de-duplication index, and
  the WebDAV paths and answers.
- `pages/` — key and mouse handling, scrolling and layout of the pages and
  overlays (help, downloads, history, favorites, local music, leaderboard,
  song menu, login, lyrics, status bar, notification toast), the frame of
  the screen, and the text they show.
- `app_loop.rs`, `playback.rs`, `config_migration.rs` — the main loop's key
  routing and program actions, the steps of starting a song (downloaded
  copy first, then its own source, then other sources), and bringing an
  older configuration up to date.
- `cover.rs`, `navigation.rs`, `player_settings.rs`, `notify.rs` — cover
  cache names and loads, navigation between lists and pages, playback
  setting cycles and the A-B loop, notifications.
- `text.rs`, `width.rs`, `casefold.rs` — string helpers, terminal column
  widths (from `unicode-width`) and lower-casing.

Calls into other crates (`unicode-width`, `md-5`, `qrcode`, std's hasher
and lower-casing) go through small trusted wrappers whose contracts name
what the call returns.

`app/` is a small program around the library: the command line, a
terminal loop that routes keys through the library's main-loop step and
shows the help overlay, the downloads panel and notifications, HTTP
transfers, files on disk, and the conversions to and from the library's
types. The player, search and the music sources are not part of it. `tests/` exercises the library from outside.
