//! Fixtures, gates and release rules of the timeless telemetry extension.
pub mod archive;
pub mod blobs;
pub mod batch_laws;
pub mod bundle;
pub mod bundle_laws;
pub mod bytes;
pub mod calendar;
pub mod checksums;
pub mod crash;
pub mod documents;
pub mod expectation_laws;
pub mod fixture_build;
pub mod floats;
pub mod frames;
pub mod frame_laws;
pub mod gate;
pub mod gate_spans;
pub mod gate_atomicity;
pub mod gate_processes;
pub mod gate_schemas;
pub mod gate_instances;
pub mod gate_laws;
pub mod gate_catalog;
pub mod gate_companions;
pub mod gate_reindex;
pub mod gate_health;
pub mod gate_reads;
pub mod gate_rows;
pub mod gate_logs;
pub mod gate_traces;
pub mod gate_bounds;
pub mod ieee;
pub mod inventory;
pub mod json;
pub mod measurement_laws;
pub mod moments;
pub mod oracle_answers;
pub mod oracle_cases;
pub mod oracle_expectations;
pub mod oracle_forms;
pub mod oracle_laws;
pub mod oracle_log_laws;
pub mod oracle_logs;
pub mod oracle_manifest;
pub mod oracle_series;
pub mod order;
pub mod parameters;
pub mod probes;
pub mod production;
pub mod production_bodies;
pub mod production_queries;
pub mod production_laws;
pub mod ranks;
pub mod recipes;
pub mod regression_documents;
pub mod regression_laws;
pub mod regression_rule_laws;
pub mod regression_steps;
pub mod regression_tables;
pub mod regressions;
pub mod release_laws;
pub mod remote_write;
pub mod rich_logs;
pub mod rich_traces;
pub mod sbom;
pub mod sbom_laws;
pub mod setup;
pub mod soak;
pub mod spans;
pub mod splitter;
pub mod stats;
pub mod text;
pub mod tooling_laws;
pub mod trace_duration;
pub mod trace_fixture;
pub mod trace_laws;
pub mod trace_plan;
pub mod values;
pub mod wire_laws;
pub mod workload;
pub mod workload_laws;
