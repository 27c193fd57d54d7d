# checkup

A monitoring API's logic as a verified library: the system heartbeat and the
uptime figure it feeds, the CPU counters of `/proc/stat`, bearer tokens,
registration and watcher answers, and the server's settings. `src/` is
verified with Verus; `app/` is the server around it (HTTP endpoints, SQLite
queries, background loops, `/proc` reads and the floating-point figures).

- `src/background/heartbeat.rs`: what a heartbeat writes, with proofs that it
  leaves an "online until now" as the latest record and records an outage
  exactly after a gap of more than nine minutes.
- `src/features/metrics/metrics_handlers.rs`: the `/proc/stat` parser, usage
  between two readings, and the uptime over the last seven days, with a proof
  that the online time never exceeds the window.
- `src/auth.rs`, `src/features/users/`: tokens and registration.
- `src/text.rs`, `src/clock.rs`: characters, numbers and times.
