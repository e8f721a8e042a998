# diem_block_executor

Gas metrics of the block executor, verified with Verus.

- `src/counters.rs`: the gas categories (`GasType`) and execution modes (`Mode`), the
  four recording functions that turn a gas cost into a `GasObservation` (family, mode,
  gas category, cost), the `GasHistograms` pair of prometheus histogram families, and
  the laws that tie them together.
- `src/histograms.rs`: the trusted boundary to prometheus (creating a histogram family,
  looking up one of its histograms, registering it).
- `src/startup.rs`: the decisions of the node's service start-up: which of the API and
  indexer runtimes start, in what order, and when a failure ends it; how the peer
  monitoring service runs.
- `src/names.rs`: prometheus's rules for metric and label names, as spec functions.
- The metrics run on `prometheus` 0.13: the node's own metrics crate, `diem_metrics_core`,
  only re-exports prometheus's histogram types and macros and is not published.
- `app/`: the process-wide statics, the `f64` conversion of each sample, and the node's
  service start-up steps, which run on diem node crates that are not published on crates.io.
