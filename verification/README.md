# whatsapp_unofficial

The logic of a Linux desktop wrapper around WhatsApp Web, as a library
verified with Verus, and the Tauri application around it.

- `src/` — the verified library:
  - `text`: white space, suffixes, truncation by characters, decimal rendering;
  - `audio`: parsing `pactl list ... short` listings, and the outcome of running `pactl`;
  - `navigation`: which hosts the main window may show, and what happens to
    links that ask for a new window (URLs are parsed with the `url` crate);
  - `notification`: the shown text of relayed notifications;
  - `tray`: the unread-count tooltip;
  - `window`: the maximize toggle, the saved geometry and what is restored;
  - `session`: session-key lookup outcomes, the autostart entry, update check;
  - `shortcuts`: the global keyboard shortcuts;
  - `media`: the report of the GStreamer PipeWire check;
  - `webview`: the injected scripts and web-view settings.
- `app/` — the Tauri commands, the window setup and the I/O (processes,
  files, keyring, settings store) that call into the library.
- `tests/` — tests of the library.
