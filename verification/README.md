# cursor_guest

A desktop tool that closes the Cursor editor and gives it fresh identifiers:
new machine and device identifiers in Cursor's `storage.json` (keeping the
SQM identifier where one exists) and, on Windows, a new system
`MachineGuid`.

- `src/` is the verified library (Verus): identifier generation and its
  shapes, where the configuration lives, how the outcome of closing Cursor is
  judged, the replacement of `MachineGuid` with its read-back check and
  restore, and the whole reset as a sequence of steps with the progress
  reports the front end shows.
- `app/` is the Tauri application around it: files, processes, the
  registry, the clock and the window.
- `tests/` runs the library on concrete cases.
