//! Reporting: the metrics query window derived from the wall clock, and
//! the decisions about which metrics and summaries the sink receives.

use vstd::prelude::*;

verus! {

/// The time range, in Unix seconds, that the metrics backend is queried
/// over: the raw experiment window with the settling buffer taken off
/// both ends.
pub struct RunWindow {
    pub start_secs: u64,
    pub end_secs: u64,
}

/// Derives the metrics query window from the clock reading at reporting
/// time: it ends one buffer before now and spans the load window less a
/// buffer at each end. Returns nothing exactly when the clock reading
/// leaves no such range in bounds, which a sane clock never does.
pub fn report_window(now: i64, window_secs: u64, buffer_secs: u64) -> (r: Option<RunWindow>)
    requires
        window_secs <= 0x8000_0000,
        buffer_secs <= 0x8000_0000,
    ensures
        r is Some <==> now >= buffer_secs && now + buffer_secs >= window_secs && now + buffer_secs
            <= i64::MAX,
        r is Some ==> r->0.end_secs == now - buffer_secs && r->0.start_secs == now + buffer_secs
            - window_secs,
        r is Some ==> r->0.start_secs + window_secs == r->0.end_secs + 2 * buffer_secs,
{
    let b = buffer_secs as i64;
    let w = window_secs as i64;
    if now >= b && now <= i64::MAX - b && now + b >= w {
        let end = now - b;
        let start = now + b - w;
        Some(RunWindow { start_secs: start as u64, end_secs: end as u64 })
    } else {
        None
    }
}

/// What the reporting step hands the sink, given what the metrics
/// backend had. Reporting never fails the run: an unavailable series only
/// omits or defaults its metric.
pub struct ReportEmission {
    /// Report the average transactions per block; omitted when the
    /// backend had no data.
    pub emit_avg_txns_per_block: bool,
    /// Report the raw load statistics, tagged with label and window;
    /// always done.
    pub emit_txn_stats: bool,
    /// Report the average backup throughput; only when a backup ran.
    pub emit_backup_metric: bool,
    /// Emit the human-readable backup summary line; only when a backup
    /// ran.
    pub emit_backup_text: bool,
    /// The backup throughput had no data and is reported as zero.
    pub backup_value_defaulted: bool,
}

/// Decides what the sink receives: transactions per block only if the
/// backend had it, the load statistics always, and the backup metric and
/// summary exactly when a backup ran, defaulting to zero without data.
pub fn report_emission(
    backup_ran: bool,
    txns_per_block_available: bool,
    backup_rate_available: bool,
) -> (r: ReportEmission)
    ensures
        r.emit_avg_txns_per_block == txns_per_block_available,
        r.emit_txn_stats,
        r.emit_backup_metric == backup_ran,
        r.emit_backup_text == backup_ran,
        r.backup_value_defaulted == (backup_ran && !backup_rate_available),
{
    ReportEmission {
        emit_avg_txns_per_block: txns_per_block_available,
        emit_txn_stats: true,
        emit_backup_metric: backup_ran,
        emit_backup_text: backup_ran,
        backup_value_defaulted: backup_ran && !backup_rate_available,
    }
}

} // verus!
