# vorto

A modal terminal Bible reader: books, chapters and verses in a drill-down
stack of lists, Vim-style keys, fuzzy filtering, a quick-jump menu, a global
search, a jump history, visual yanking and a translation switcher and
manager.

The navigation logic is a library verified with Verus:

- `src/app.rs` — the reader's state (`App`), its mathematical view
  (`AppView`) and the operations on it: opening lists, the jump history,
  number jumps, translation changes, yanking.
- `src/keys.rs` — one key press as a function from state to next state and
  the outside work left to do (`Effect`); `App::handle_key` is proved
  equal to `key_step`.
- `src/pane.rs` — one list with its filter and cursor.
- `src/navigate.rs`, `src/jump.rs`, `src/manager.rs` — opening the selected
  row, chapter and book jumps, the quick-jump parser, the translation
  manager and the saved form of its choices.
- `src/books.rs`, `src/search.rs` — canonical book order and the search
  filter (case-insensitive regular expression, substring fallback).
- `src/display.rs`, `src/text.rs` — the text put on screen, and string
  helpers.
- `src/laws.rs` — properties that relate several operations.

`app/` is the terminal program around it: SQLite access (rusqlite),
drawing (ratatui), key events (crossterm) and the clipboard (arboard).
It reads `VORTO_DB_PATH` (default `bibles.db`) and keeps the translation
manager's choices in `VORTO_PREFS_PATH` (default: the database path with
`.prefs` appended).
