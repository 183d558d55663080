# wellwon-desktop

The verified core of the WellWon desktop shell, a Tauri window around the
WellWon web app. The library (`src/`) is written in Verus; every function
in it carries a contract that Verus proves.

- `geometry` — monitors and positions: whether a remembered position is
  still on screen, which monitor the cursor is on, where the compact panel
  snaps and where a window is centred.
- `panel` — the window layouts of full and compact mode, and the memory of
  where the window was hidden, so that the show/hide hotkey brings it back
  in the same place.
- `updater` — the update-prompt protocol with the webview: what a check
  emits, what a ready webview is sent again, and how a confirmed toast
  suppresses repeats of the same version.
- `token` — how the token file is read, deleted and protected.
- `shell` — navigation targets (parsed with the `url` crate) and the user
  agent.
- `inject` — the version substitution in the injected page script.
- `text` — trimming and substring replacement on Unicode strings.

`app/` is the Tauri program around it: window-system calls, file I/O, the
updater plugin, and the page script itself.
