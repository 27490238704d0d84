# rhythm-win

A focus / rest reminder for Windows: a focus period counts down, a
full-screen overlay asks for a rest (ESC skips it), every rest is recorded,
and locking the screen starts a new focus period.

- `src/` — the verified library (Verus): the timer state machine and its
  laws (`timer_engine`), its laws over whole call histories (`timer_history`), settings and their migration (`config`), the rest
  history (`session`), the decisions of the running application
  (`rhythm`), the registry / lock-probe / overlay decisions (`platform`),
  and every text shown (`display`, `text`).
- `app/` — the program around it: command line, panel (eframe/egui),
  background loop, disk, registry and overlay processes. The panel needs
  `eframe`, `egui` and (on Windows) `windows`; they are not listed in
  `Cargo.toml` to keep the dependency set small (with them it grows past
  400 packages, or past 600 MiB of sources with their features trimmed).
  Add them to build the panel.
- `tests/` — tests of the library.
