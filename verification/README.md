# window_timer

Keeps a log of how long each X11 window has the input focus.

- `src/` is the verified library (Verus): window titles from property bytes
  (`text`), wall-clock instants and their RFC 3339 text (`stamp`), the
  tracker that cuts focus time into rows `(title, start, end)` (`tracker`),
  the CSV encoding of rows (`csv_rows`), the sorting of RECORD replies
  (`record`) and the lines reported for protocol errors and events
  (`messages`).
- `app/` is the program around it: the X11 connection, the clocks, the
  channel between the threads and the log file `window_times.csv`.
- `tests/` runs the library against the real chrono and csv crates.
