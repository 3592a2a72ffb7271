# zed_core

The decisions of the Zed editor's startup, its peer-to-peer panels and its incoming-call
notifications, as Verus-verified functions on plain values.

- `src/` is the verified library:
  - `text`: decimal numerals (proved injective) and prefix/suffix tests;
  - `panel`, `p2p_panel`, `libp2p_panel`: panel state, list rows with provably distinct
    element ids, context menu entries, docking;
  - `notifications`: the incoming-call notification text and buttons, answering a call,
    and the bookkeeping of notification windows;
  - `launch_errors`, `plugin`: grouping the directories that could not be created and the
    launch-failure report, the failure plugin;
  - `ids`: the machine and installation ids, with the proof that a stored id is found
    again by every later launch;
  - `startup`: open requests, signing in, workspace restoration, URL arguments, fonts,
    themes and language files;
  - `environment`: user agent, proxy and Node.js options (calling `url`, `shellexpand`
    and `std::path` behind trusted wrappers).
- `app/` is the GPUI application around the library: windows, the key-value store,
  file watching, the Willow store, and the event loops.
- `tests/` runs the library on concrete values.
