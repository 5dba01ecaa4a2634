# mirror_manager

A verified core for a mirror synchronisation service.

- `src/manager/status.rs`, `src/backend/manager/status.rs`: typed job state
  machines; every transition states the next job and its effects.
- `src/backend/manager/queue.rs`: the scheduling queue, viewed as a map from
  mirror to due time; `dequeue` takes the entry that runs first (by time,
  then by mirror identifier).
- `src/manager/manager.rs`: the manager's decisions on worker reports,
  control events and ticks.
- `src/config`: the configuration model, its validation and its resolution.
- `src/repository`: stored job states and snapshots.
- `src/text.rs`, `src/timestamp.rs`: text predicates and UTC timestamps.

`app/` holds the runtime: configuration files and serde, channels and the
event loop, and the SQLite store.
