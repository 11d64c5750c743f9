# rusteventloop

Runs a compio runtime inside a platform's own event loop: a glib source on
Linux, the Win32 message queue on Windows, a Core Foundation run loop on
Apple platforms.

- `src/` is the verified library: the decisions each loop takes.
  - `timing`: timeouts as the milliseconds C timer APIs take.
  - `runtime`: the read of the compio runtime's nearest timer.
  - `glib_source`: the answers of the glib source's `prepare`, `check` and
    `dispatch` callbacks.
  - `message_loop`: the Win32 message loop as a state machine over a job
    (`NeverJob` ends on `WM_QUIT`, `FutureJob` on a future's output), with the
    timer and message-filter hook callbacks.
  - `run_loop`: what the run-loop descriptor, timer and observer callbacks do.
- `app/` is the program: the FFI plumbing, polling and running the runtime,
  the loops that perform what the library decides, and the demo windows.
- `tests/` exercise the library, partly against a real compio runtime.
