# nanabobo

A desktop toolbox for Bilibili live streamers: QR login, room lookup with
audience statistics, and a live danmaku (chat) feed for a desktop overlay.

## Layout

- `src/` — the library, verified with Verus.
  - `danmaku` — the danmaku wire protocol: packets, budgeted frame parsing
    (raw, zlib, brotli), chat extraction, reconnect backoff.
  - `client` — what Bilibili's answers mean: QR login states, login cookies,
    account and room records.
  - `commands` — the command rules: QR login lifecycle, credential commits,
    the danmaku connection record, stable error codes.
  - `credentials` — the credential store contract and an in-memory store.
  - `session` — the front end's session as an event-driven state machine:
    login, room, feed, desktop window, statistics, with stale answers dropped.
  - `feed`, `stats`, `resources`, `inbox`, `images`, `persistence`, `host` —
    the bounded danmaku feed, snapshot history, image slots, the event queue,
    image decoding, the saved-state rules and the script host's key-value store.
  - `json`, `text`, `models`, `events` — JSON values, text and decimal helpers,
    the records, typed events.
- `app/` — the program around it: HTTP requests, the websocket loop, the
  keyring, files, and a terminal front end.
- `tests/` — tests of the library.
