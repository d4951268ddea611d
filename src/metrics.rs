//! One sample of system resource usage, in fixed-point units.
use vstd::prelude::*;

verus! {

/// One timestamped snapshot of system resource usage.
///
/// Percentages and load averages are fixed-point hundredths: a CPU usage of
/// 45.5% is `4550`, a load average of 1.25 is `125`.
#[derive(Debug, Clone, Copy, PartialEq, Eq, Structural)]
pub struct SystemMetrics {
    /// Seconds since the Unix epoch.
    pub timestamp: i64,
    /// CPU usage in hundredths of a percent.
    pub cpu_usage: u32,
    pub memory_total: u64,
    pub memory_used: u64,
    pub memory_available: u64,
    /// Bytes over all mounted volumes.
    pub disk_total: u64,
    pub disk_used: u64,
    pub process_count: u64,
    /// Load averages in hundredths.
    pub load_avg_1min: u32,
    pub load_avg_5min: u32,
    pub load_avg_15min: u32,
}

/// `used` as hundredths of a percent of `total`, rounded down. A zero total
/// reads as 0%; a sample that claims more than its total reads as 100%.
pub open spec fn percent_of(used: u64, total: u64) -> int {
    if total == 0 {
        0
    } else if used >= total {
        10000
    } else {
        (used as int * 10000) / (total as int)
    }
}

/// Computes `percent_of`.
pub fn percent(used: u64, total: u64) -> (r: u64)
    ensures
        r == percent_of(used, total),
        r <= 10000,
{
    if total == 0 {
        0
    } else if used >= total {
        10000
    } else {
        let p: u128 = (used as u128 * 10000) / (total as u128);
        assert(p <= 10000) by (nonlinear_arith)
            requires
                p == (used as int * 10000) / (total as int),
                used < total,
                total > 0,
        {
            assert(used as int * 10000 <= total as int * 10000);
        }
        p as u64
    }
}

impl SystemMetrics {
    /// Memory used, in hundredths of a percent of the total.
    pub fn memory_percent(&self) -> (r: u64)
        ensures
            r == percent_of(self.memory_used, self.memory_total),
    {
        percent(self.memory_used, self.memory_total)
    }

    /// Disk used, in hundredths of a percent of the total.
    pub fn disk_percent(&self) -> (r: u64)
        ensures
            r == percent_of(self.disk_used, self.disk_total),
    {
        percent(self.disk_used, self.disk_total)
    }
}

} // verus!
