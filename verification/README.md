# microgrid_kernel

The control kernel of an edge agent that manages an isolated solar + battery +
diesel microgrid, written in Verus and verified.

* `dispatch` — rule-based dispatch (solar, then battery, then diesel, then load
  shedding), with its power balance, equipment limits and merit order proved.
* `autonomic` — the five safety shields that override the optimizer (battery
  floor and ceiling, diesel auto-start and auto-stop, a diesel runtime cap
  per UTC day that starts again at midnight), each proved for every decision
  the optimizer can produce.
* `devices` — sensor readings and the simulated device backend.
* `ml_bridge` — forecast types, the request sent to the Python worker and the
  persistence fallback forecast.
* `journal` — the append-only event journal in `redb`, modelled by its
  table contents; consecutive appends get consecutive sequence numbers, a
  failed append leaves no partial entry and no key is reused after it.
* `knowledge` — the site knowledge graph in SQLite: the schema is created on
  the connection opened at the given path, and queries answer from that
  connection.
* `sync` — store-and-forward naming of queued fleet telemetry; file stamps
  strictly increase, so no queued message overwrites another.
* `clock`, `text`, `units`, `config` — timestamps (chrono), decimal rendering,
  fixed-point units and configuration sections.

All quantities are integers in fixed-point units: watts, watt-hours,
millionths of a percent of state of charge, parts per million, mW/m², m°C and
seconds (see `src/units.rs`).

`app/` holds what runs around the kernel: configuration and wire records in
kilowatts and percent with their JSON encoding, file-system and subprocess
I/O, and async sharing of the components.
