# chunk

`chunk` shows Git diffs in a terminal: a tree of changed files, a syntax-highlighted
unified diff, search, text selection, staging and discarding of files and hunks, custom
shell commands, and questions to an assistant about the focused code.

The crate is in two parts.

- `src/` is the library, verified with Verus. It holds everything that `chunk` decides:
  parsing patches and settings, laying out and styling rows, wrapping, intra-line
  differences, search, selection, scroll bounds, render caches, and the session that turns
  keys, mouse events and results into a new state and the effects to perform.
- `app/` is the program around it: it draws with Ratatui, reads events with Crossterm,
  watches the worktree with Notify, and runs Git, editors, shells and the clipboard.

The session is a state machine. `App::handle_key`, `App::handle_mouse` and
`App::handle_runtime_event` change the state as `AppView::after_key`, `after_mouse` and
`after_event` say, and `App::take_effects` hands out what is to be done in the outside
world. Laws that relate several functions stand beside them as public proof functions.

What the proofs take from outside crates is stated at the wrappers that call them: widths
of text (`src/rows/text.rs`), Markdown events (`src/rows/markdown.rs`), syntax
highlighting (`src/syntax.rs`), text from bytes (`src/process.rs`), debug quoting
(`src/rows/status.rs`) and properties of characters (`src/text.rs`).
