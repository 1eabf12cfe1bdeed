# kharbranth

Keeps WebSocket connections open: reads from them, writes to them, answers and sends pings, and
opens them again when they fail.

- `src/` is the library, verified with Verus. Its actors, managers and queues are state machines:
  each takes an event and says what is to be done about it, and its contract says exactly what,
  given what the clock reads.
  - `connection`, `manager`, `message`: connections with actors, and their manager
  - `ws`, `hooks`: the hook-based manager
  - `ping`: pings that wait for their pong
  - `routing`: queues with backpressure, handlers and statistics
  - `wire`, `text`, `request`, `clock`, `names`, `config`: what these rest on
- `app/` drives the state machines with Tokio: sockets, channels, timers and tasks.
- `tests/` runs the library.
