# mmterm

The verified core of a keyboard-driven terminal emulator, written in Verus.

- `src/` is the library. Every function in it carries a contract, proved
  by Verus except for the few trusted calls described below: key bindings and their configuration, the key dispatch of each
  input mode, the command palette, text motions, the terminal grid,
  scrollback search, the search history file format, mouse and paste
  encodings, the effects drained from the parser, the status bar and
  overlay layout, and the pixel-buffer primitives of the renderer.
  Public `lemma_*` proof functions state the library's laws (a saved
  history reads back unchanged, motions undo each other, the user's
  key bindings overlay the defaults, ...).
- `tests/` runs the library on concrete inputs.
- `app/` is the program around it: command-line handling, configuration
  and history files, conversion of window-toolkit events, screenshot files
  and the floating-point pixel blending.

Calls into `regex` and `base64`, and the few `std` text functions whose
behaviour follows the Unicode tables, go through small functions whose
contracts Verus takes on trust; each says what the called crate documents.
