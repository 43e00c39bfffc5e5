# des

A terminal client that browses a ROM collection on a server over SSH, lets
the user pick ROMs per console and downloads and unpacks them.

- `src/` is the verified library: the state machine of the browser
  (`app_state`, `transitions`), the highlight of the lists (`list_cursor`,
  moved by ratatui's `ListState`), remote paths, commands and listing parsing
  (`remote`), what the screens show (`screen`), byte counts for humans
  (`utils`), and properties that hold across operations (`laws`).
- `app/` runs it: the SSH session, the terminal, the input thread and the
  download thread.
