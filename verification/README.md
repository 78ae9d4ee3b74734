# qubit_task

A task service whose decisions are proved with Verus: it accepts work that
outlives a request, schedules it against CPU, GPU and named resource budgets,
retries it within a budget of attempts, and keeps a queryable history.

## Layout

- `src/` is the verified library.
  - `model`: requests, records, lifecycle states, queries, identifiers.
  - `store`: lifecycle transitions, the in-memory store, and what a SQLite store
    decides about its rows, queries, ownership and schema.
  - `scheduling`: resource fit and the fair first-in, first-out policy.
  - `engine`: reservation and release of resources.
  - `handler`: handlers by exact type and version.
  - `service`: admission, submission, cancellation, retry, scheduling passes,
    attempt ends, recovery and shutdown, each as a step from state and event to
    state and action.
  - `event`, `spi`, `text`, `lists`, `keyed`, `totals`: notifications, component
    choices and supporting theory.
- `app/` performs the actions: storage I/O, the asynchronous runtime, handler
  execution, notification and component discovery.
- `tests/` runs the library, partly against a real SQLite database.

Names that begin with `law_` state what holds across operations. Functions
marked `external_body`, and one `assume_specification`, are what the proofs take
on trust: UUID generation and text, and the system clock.
