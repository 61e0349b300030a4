# faster_chant

A quick-chat helper for the game 300 Heroes: a hotkey opens a small panel
beside the game window, digits pick prepared messages (or whole panels sent
one by one, a few seconds apart), and typing pinyin initials searches the
stored schemes.

Layout:

- `src/` is the library, verified with Verus: the panel state machine
  (`state`), the scheme book (`scheme`), pinyin-initial search (`search`,
  `pinyin_table`), the program's decisions per key press, tray click and
  settings change (`app`), panel layout (`overlay`), the burst decisions
  (`burst`), keystroke plans (`input`), log timestamps (`logger`), update
  checks (`updater`), the settings window's data (`ui`) and game-window
  recognition (`window`).
- `app/` is the Windows program around it: keyboard hook, panel window,
  clipboard and key injection, files and the update download.
- `tests/` runs the library on concrete values.
