# metrix

Metrics for monitoring applications and alerting, written in Verus.

Observations made while an application runs are sent to processors, which
update instruments (counters, gauges, switches, ...). Instruments, cockpits,
processors and drivers write their current values into a `Snapshot`, which
can be searched by path and written as JSON.

## Layout

- `src/` is the verified library; Verus checks all of it, and the functions
  whose results matter carry contracts. Implementations of the traits that
  users implement too, such as `PutsSnapshot` or `HandlesObservations`,
  promise nothing beyond their signatures; so what hands work to them
  (adapters, cockpits, processors, mounts, the driver's loop, polling
  instruments) keeps a ghost record of what each was handed and what came
  back, and its contract is stated over those records:
  - `observation`, `time`: observations, their values and the model of time
    (nanoseconds; reading the system clock is the only trusted step);
  - `snapshot`, `json_output`: snapshots, searching them by path, and their
    JSON text (written by the `json` crate);
  - `instruments`: label filters, counters, gauges with per-second tracking,
    switches, the ring of per-second buckets they build on, and the
    allocator's statistics (read through `jemalloc-ctl`);
  - `cockpit`, `processor`: grouping handlers, the processor that receives
    observations through a `crossbeam-channel` channel, mounts;
  - `driver`: the decisions of the driver's loop and its own metrics.
- `app/` holds what Verus does not check: the instruments that compute in
  floating point (meters, histograms), the driver's thread, and a
  transmitter that can be shared between threads.
- `tests/` holds the tests; they run against the compiled library with the
  real outside crates.

Laws of the library (what holds across calls) are public proof functions
named `law_*` next to the functions they speak of.
