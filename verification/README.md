# agent

An agent framework whose decisions are verified with Verus.

- `src/` is the verified library: the iteration budget and the agent loop's
  step functions, tool permissions, cron schedules and the scheduler's
  missed-run policies, the kanban task lifecycle and its laws, the background
  worker's retry and heartbeat rules, delegation limits, memory and session
  text, the HTTP gateway's rules and the model clients' wire handling.
- `app/` is the `agent` program around it: the command line, the HTTP server,
  the SQLite stores, the HTTP model clients and the asynchronous extension
  points. It drives the library and performs the I/O the library decides on.
- `tests/` runs the library on concrete values.
