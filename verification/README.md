# exact

A judging service for Cortex-M code: users submit a `solve` function for a
problem, the service builds it for a board, a runner agent runs it on the
device (or its emulator) case by case, and the cycle counts rank the
submissions on per-(problem, board) leaderboards.

- `src/` is the verified library: the wire types, the access rules for
  problems, submissions and leaderboards, input checks, the judging of case
  results, runner admission and the runner registry, token minting and
  verification, the configuration check, the build worker's code
  generation, and the agent's side of the protocol (status mapping,
  synthetic cycle counts, the emulator's PTY announcement).
- `tests/` exercises the library on concrete values.
- `app/` is the program around it: HTTP and WebSocket handlers, Postgres,
  GitHub OAuth, the build worker's processes, the event bus, and the runner
  agent's device loop. `app/main.rs` serves the API, or runs the agent when
  its first argument is `runner`.
