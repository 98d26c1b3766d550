# hubnity

The decision-making core of the Hubnity desktop time tracker, written in
Verus. The functions in `src/` carry contracts that Verus proves, except a
few small wrappers around outside calls (the random number generator and
`str::to_lowercase`), whose contracts are trusted as stated in their doc
comments.

- `src/timer.rs`: the work timer as a state machine. Commands (`Start`,
  `Stop`, `Reset`), one-second ticks and database answers go in; the writes,
  window changes and events the application performs come out as a list of
  actions. Chunking into ten-minute slots, minute-wise stub refreshes, idle
  detection and the split at local midnight are stated and proved here.
- `src/calendar.rs`: day keys and whole-second durations.
- `src/screenshot.rs`: the random screenshot plan of a chunk and the
  scheduler that fires it.
- `src/app_tracker.rs`: per-application usage accumulation and flushing.
- `src/activity.rs`: input activity counting.
- `src/sync.rs`: sync requests, result matching, back-off and the sync
  cycle as a state machine.
- `src/settings.rs`, `src/models.rs`, `src/commands.rs`: server data,
  settings resolution, local records and the small interface decisions.

`app/` is the unverified shell around the library: the Tauri application,
the database, the HTTP client, screen capture and input listening. It
performs the actions the library asks for and feeds back what happened.

`tests/` runs the library on concrete scenarios.
