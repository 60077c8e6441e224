//! Chaos/performance experiment orchestration for a distributed cluster.
//!
//! Given a snapshot of a running cluster, the library plans which nodes to
//! stop, which to drive load against, whether and when to capture a trace,
//! and how to report metrics afterwards, and it guarantees through its
//! controller state machine that fault injection is reverted exactly once
//! per run, whatever happened in between. All decisions are made here and
//! verified; the surrounding process performs the stops, the load, the
//! queries, and hands the results back as events.

pub mod benchmark;
pub mod controller;
pub mod label;
pub mod outside;
pub mod params;
pub mod report;
pub mod topology;
pub mod trace;

pub use benchmark::PerformanceBenchmark;
pub use params::PerformanceBenchmarkParams;
pub use params::DEFAULT_BENCH_DURATION;
