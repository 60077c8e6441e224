//! Immutable experiment parameters, fixed before a run is built.

use vstd::prelude::*;

verus! {

/// Default length of the load window in seconds.
pub const DEFAULT_BENCH_DURATION: u64 = 120;

/// Upper bound on a configured duration, leaving the deadline, window
/// and clock arithmetic comfortably in range.
pub const MAX_DURATION_SECS: u64 = 0x7fff_0000;

/// Configuration of one performance-benchmark run: how many nodes to take
/// down, how long to drive load, whether to trace and from which source,
/// an optional fixed transaction rate, and whether to exercise a backup.
pub struct PerformanceBenchmarkParams {
    /// Percent of validator nodes which should be down, in `[0, 100]`.
    pub percent_nodes_down: usize,
    /// Whether the benchmark should capture a trace.
    pub trace: bool,
    /// Whether the trace should come from the log-index backend instead
    /// of the live sidecars.
    pub use_logs_for_trace: bool,
    /// Duration of the experiment in seconds.
    pub duration: u64,
    /// Fixed transactions-per-second target; `None` means the global
    /// default request policy applies.
    pub tps: Option<u64>,
    /// Whether the benchmark should pick one node to run a DB backup.
    pub backup: bool,
}

impl PerformanceBenchmarkParams {
    /// The parameter set is valid: the percentage is a percentage and the
    /// duration leaves room for the fixed scheduling margins.
    pub open spec fn wf(self) -> bool {
        self.percent_nodes_down <= 100 && self.duration <= MAX_DURATION_SECS
    }

    /// A run that stops `percent_nodes_down` percent of the validators,
    /// with every optional feature off.
    pub fn new_nodes_down(percent_nodes_down: usize) -> (r: Self)
        ensures
            r == (PerformanceBenchmarkParams {
                percent_nodes_down,
                duration: DEFAULT_BENCH_DURATION,
                trace: false,
                tps: None,
                use_logs_for_trace: false,
                backup: false,
            }),
            percent_nodes_down <= 100 ==> r.wf(),
    {
        Self {
            percent_nodes_down,
            duration: DEFAULT_BENCH_DURATION,
            trace: false,
            tps: None,
            use_logs_for_trace: false,
            backup: false,
        }
    }

    /// A run with a fixed transactions-per-second target.
    pub fn new_fixed_tps(percent_nodes_down: usize, fixed_tps: u64) -> (r: Self)
        ensures
            r == (PerformanceBenchmarkParams {
                percent_nodes_down,
                duration: DEFAULT_BENCH_DURATION,
                trace: false,
                tps: Some(fixed_tps),
                use_logs_for_trace: false,
                backup: false,
            }),
            percent_nodes_down <= 100 ==> r.wf(),
    {
        Self {
            percent_nodes_down,
            duration: DEFAULT_BENCH_DURATION,
            trace: false,
            tps: Some(fixed_tps),
            use_logs_for_trace: false,
            backup: false,
        }
    }

    /// The same run, with the background DB backup switched on.
    pub fn enable_db_backup(self) -> (r: Self)
        ensures
            r == (PerformanceBenchmarkParams { backup: true, ..self }),
    {
        Self { backup: true, ..self }
    }
}

} // verus!
