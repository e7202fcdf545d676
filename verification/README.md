# passthrough_async

Asynchronous requests of a passthrough file system, relayed to synchronous
handlers. The handlers execute blocking syscalls, inline or on the blocking
thread pool of the runtime.

- `src/` is the verified library: the settings of an instance (`fs`), the calls
  that requests become (`relay`) and the handlers that they reach (`calls`,
  `handlers`), how a finished task is answered (`join`), mounting (`mount`), and
  what holds of all requests (`laws`).
- `app/` spawns and awaits the calls on tokio and implements the asynchronous
  interface for any set of synchronous handlers.
- `tests/` serves requests over an in-memory file system, on both routes.

The library trusts two facts about tokio: that `JoinError::is_panic` and, for
the error of a task that panicked, `JoinError::into_panic` depend on the error
alone.
