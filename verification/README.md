# auto-shutdown

Shuts a PC down when a service that it depends on goes silent. The typical service is a small board
plugged into the mains: when the mains fail, its heartbeat stops, and the PC shuts down in time.

- Every three seconds the PC exchanges an encrypted heartbeat with the service.
- After a minute without an answer, and with no answer to a search of the local network either, the
  service counts as lost. A service that never answered is never lost.
- A countdown of sixty seconds opens. The user can shut down at once, cancel, or put it off for
  thirty seconds. When the service answers again, the countdown closes.

## Layout

- `src/` is the library: frames, messages, the verdict on the service, the state of the window and
  the countdown, log files, tray and start at logon. Every function is verified with Verus. What it
  takes from other crates (AES, HMAC, SHA-256, Base64, JSON, random bytes) stands behind small
  functions whose contracts say what is relied on.
- `src/history.rs`, `src/app_history.rs` and `src/guard.rs` hold the laws over time: no report
  before the first success, one report for each loss, no countdown without a loss, and so on.
- `app/` is the program around it: windows, tray icon, sockets, files and the task scheduler.
- `tests/` runs the library, with the real crates behind it.

Points in time are nanoseconds on one monotonic clock that the program provides.
