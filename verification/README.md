# metron

A load-testing toolchain. The library (`src/`) is written in Verus: the plans
of a load test, the schedule of request times a plan implies, the command-line
and wire forms of plans, and the rules of the echo server and the controller
are stated as contracts and proved.

- `src/duration.rs` — exact spans and instants.
- `src/plan.rs`, `src/rate_plan.rs` — plans, segment lookup and the walk over
  request times (`Ticks`).
- `src/span.rs` — human-readable spans, read with humantime.
- `src/cli.rs` — plans built from command-line values.
- `src/proto.rs`, `src/rate_proto.rs` — wire messages and their conversions.
- `src/echo.rs` — the echo server's injected status and delay.
- `src/control.rs`, `src/agent.rs`, `src/config.rs`, `src/runtime.rs`,
  `src/telemetry.rs`, `src/grpc.rs` — runners, controller and configuration.

`app/` is the program around the library: argument handling, configuration
files, the HTTP client and the echo server, and the floating-point arithmetic
of request rates. `tests/` exercises the library.
