# arto_desktop

The core of the Arto desktop Markdown viewer as a verified Verus library.

- `src/pinned_search/` — pinned searches: colors and the least-used color
  rule, id generation, and what saving and loading the pinned-search file do.
- `src/state/` — the per-window state: sidebar root directory, right sidebar,
  search bar, and the pinned-search list operations, with their laws.
- `src/ipc.rs` — the single-instance protocol: socket location, the messages
  a second instance sends, what a received line means, and the safe setup of
  the listening socket.
- `src/components/` — what the user-interface components compute: CSS
  classes, labels and page scripts.
- `src/text.rs`, `src/paths.rs` — decimal rendering, JSON string literals,
  path joining and parents.

`app/` holds the unverified desktop side: JSON encoding with serde, the
pinned-search file on disk, the local socket, and syncing pinned searches
across windows.
