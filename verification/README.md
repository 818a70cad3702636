# lazygitrs core

The verified core of a terminal front end for git, written in Verus.

- `src/` — the library, every function with its contract:
  - `git/` — the git invocations each operation runs, as plain values, and
    what their output means (commit log, stash list, ahead/behind counts);
  - `gui/` — panel navigation, the interactive-rebase screen, what each key
    asks or runs, the input-trace settings and the text of list rows;
  - `pager/` — choosing a syntax-highlighting language for a file (built-in
    and user-installed), the syntax menu, and laying highlighter output out
    by line;
  - `config/` — where the configuration lives, the colours it names and
    the colour themes;
  - `os/` — the programs that open files and copy to the clipboard;
  - `text.rs`, `order.rs`, `paths.rs` — character sequences, sorting and
    paths, with their specifications.
- `app/` — what runs around the library: ratatui rendering and styles,
  running git and other programs, loading grammars from disk, the trace file.
- `tests/` — tests of the library on concrete values.
