# mate

A job queue in three programs: a scheduler that keeps jobs in Redis, an
executor that stores WebAssembly tasks and runs the jobs that name them, and
a REPL that talks to both over named pipes.

- `src/` is the verified library: the task store, message framing, job keys,
  the Redis command sequences of push, pop and list (as state machines), the
  replies of the scheduler and the executor, the REPL's parsing and its
  exchange machine, and the child-process plan of `start`.
- `app/` runs the programs: pipes, sockets, Redis round trips, the clock,
  wasm execution, serde encodings and the command line.
- `tests/` exercises the library on concrete values.
