# mousse

A terminal inspector for macOS mouse events: live cursor position, button
states, scroll deltas with bounded histories and statistics, and a bounded,
timestamped event log.

- `src/` is the verified library (Verus):
  - `window.rs` — the bounded window (push, drop the oldest past capacity) and
    its laws;
  - `text.rs` — decimal text of integers and substring search;
  - `state.rs` — `AppState`, its mathematical model, and how mouse events,
    log messages and key presses change it;
  - `display.rs` — what the screen shows: title, chart bars and scale,
    history statistics, log lines newest first with their colouring;
  - `laws.rs` — properties proved of the state machine as a whole;
  - `clock.rs` — the one call into chrono (local time of day) and the
    `HH:MM:SS.mmm` form it produces;
- `app/` is the program: the CoreGraphics event tap, the crossterm/ratatui
  interface loop and drawing.
- `tests/` runs the library on concrete values.
