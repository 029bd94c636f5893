# timeless_tools

Fixtures, acceptance suites and release rules for the timeless telemetry
extension of SQLite, written in Verus.

- `src/` is the verified library. Every function states in its contract what it
  returns; the public proof functions state what holds across functions.
- `tests/` runs the library on concrete values, with the outside crates linked.
- `app/` is the command line program around it: files, processes, network,
  database connections and floating point averages.

The modules, by subject:

- release: `archive`, `bundle`, `checksums`, `inventory`, `sbom`
- fixtures: `blobs`, `fixture_build`, `frames`, `remote_write`, `rich_logs`,
  `rich_traces`, `spans`, `trace_fixture`, `workload`
- acceptance suites: `gate` and the `gate_*` modules hold, action by action,
  what is done to a database and what has to come back; `crash` and
  `trace_duration` plan the two timed suites
- query answers compared with outside servers: the `oracle_*` modules
- SQL examples: `parameters`, `recipes`, `regressions` and the `regression_*`
  modules, `setup`, `splitter`
- runs on a production server: `probes`, `production` and the `production_*`
  modules, `soak`, `stats`, `trace_plan`
- common ground: `bytes`, `calendar`, `documents`, `floats`, `ieee`, `json`,
  `moments`, `order`, `ranks`, `text`, `values`

A floating point number stands in the library as its bit pattern. Text of a
calendar date, what a JSON document holds, digests, compressed and archived
bytes and matches of a regular expression come from outside crates; each such call has a small function of its
own whose comment says what is relied on.
