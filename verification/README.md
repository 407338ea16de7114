# at-tui

A keyboard-first Bluesky client for the terminal. The library (`src/`) holds
its logic, verified with Verus: reading the service's JSON documents into posts,
threads, notifications, profiles and feed lists; the navigation stack and its
views; key bindings and what each key does in every mode; the background
requests and which replies are still wanted; the media caches and the disk
cache cleanup; the records a post, like, repost or follow writes; and the text
of every row, overlay and of the status bar as drawn.

The program around it (`app/`) reads keys, talks to the network, stores the
account file, decodes images and video frames, runs the video player and draws
with ratatui.

Layout:

- `src/json.rs`, `src/feed.rs`, `src/model.rs` — documents and what they become.
- `src/navigation.rs` — views and the stack of open views.
- `src/keymap.rs`, `src/app.rs` — keys, overlays, pending requests, the effect
  of replies on the views.
- `src/api.rs` — endpoints, queries, records, error replies.
- `src/config.rs` — saved accounts.
- `src/clock.rs` — the system clock, which may read a time before 1970.
- `src/media.rs`, `src/media_store.rs`, `src/media_scheduler.rs`,
  `src/disk_cache.rs`, `src/video_player.rs` — media.
- `src/ui.rs`, `src/row_text.rs`, `src/overlay_text.rs` — what is drawn.
- `tests/` — tests of the library.
