# Lyra core

Lyra is a desktop overlay that shows the currently playing track and keeps a
lyric line in sync with playback. This crate is its core, written in Verus:
every function in `src/` carries a contract that Verus proves.

- `src/sync/engine.rs` — the playback model: interpolates the position
  between polls, snaps on seeks, eases drift, guards against polls captured
  before a local seek, and picks the active lyric line. The state machine is
  specified by `EngineState` (`poll`, `seek`, `tick`), with its laws proved
  beside it.
- `src/lyrics/parser.rs` — the LRC parser, specified character by character
  (lines, trimming, timestamp tags, stable sort by time).
- `src/lyrics/fetcher.rs` — the lyric-source chain (LRCLIB lookup, LRCLIB
  search, lyrics.ovh) as a state machine; the caller performs the requests.
- `src/app.rs`, `src/overlay/screen.rs`, `src/tray.rs`, `src/hotkey.rs` —
  the overlay's per-frame decisions (time labels, lyric-row transitions,
  window placement, menu and hotkey events).
- `src/media/` — the media-session boundary and conversions of what
  platform backends report.
- `src/text.rs` — character-level building blocks shared by the above.

`app/` is a terminal front-end around the core: it polls the media session
(`media-control` or AppleScript), performs the HTTP requests with `ureq`,
caches lyrics on disk, and prints each line as playback reaches it.
