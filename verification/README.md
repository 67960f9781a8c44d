# telemetry_gateway

A telemetry gateway: sensor devices report readings to an aggregator, which
keeps per-device running metrics, publishes snapshots to subscribing clients
and hands batches of readings to a storage writer.

## Layout

- `src/` — the verified library (Verus). Each task of the gateway is a state
  and a step function from an event to the next state and an action:
  - `aggregator.rs`: the aggregator's state, its model and invariant,
    processing of readings, batching (at most `STORAGE_BATCH_SIZE` readings
    per batch, everything flushed at shutdown), and its event loop step;
  - `pipeline.rs`: runs of aggregator operations and the laws proved of them
    (no reading lost or reordered, consecutive batch ids, per-device counts
    and their sum, latest timestamps);
  - `device.rs`, `client.rs`, `storage.rs`: the state machines of the
    devices, the clients and the storage writer, with the laws on bandwidth
    slots, battery levels, database connections and draining the queue at
    shutdown;
  - `health.rs`: which devices a round of health checks queries;
  - `metrics.rs`: event counters shared by clones; `types.rs`: shared data; `config.rs`:
    integer settings; `random.rs`: the calls into `rand`.
- `app/` — the runtime: tokio tasks and channels, timers, logging, the
  floating-point parts (sensor values, running averages, probabilities) and
  `main`.
- `tests/` — tests of the library on concrete values.
