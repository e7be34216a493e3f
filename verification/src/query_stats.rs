//! Per-query statistics: kernel program counters joined with userspace
//! counters.

use vstd::prelude::*;

verus! {

/// Kernel-side counters of one loaded program, as sampled from the runtime
/// statistics interface. Sample times travel as nanosecond counts.
#[derive(Debug, Clone)]
pub struct BpfProgramStats {
    pub id: u32,
    pub bpf_type: String,
    pub name: String,
    pub prev_runtime_ns: u64,
    pub run_time_ns: u64,
    pub prev_run_cnt: u64,
    pub run_cnt: u64,
    pub sampled_at_ns: u64,
    pub period_ns: u128,
}

/// Userspace counters of one query.
#[derive(Debug, Clone)]
pub struct UserspaceStats {}

impl UserspaceStats {
    /// Fresh userspace counters.
    pub fn new() -> (r: Self) {
        UserspaceStats {  }
    }
}

/// The statistics of one query: userspace and kernel counters together.
#[derive(Debug, Clone)]
pub struct QueryStats {
    pub us_stats: UserspaceStats,
    pub bpf_stats: BpfProgramStats,
}

impl QueryStats {
    /// Joins the two counter sets.
    pub fn new(us_stats: UserspaceStats, bpf_stats: BpfProgramStats) -> (r: Self)
        ensures
            r.bpf_stats == bpf_stats,
    {
        QueryStats { us_stats, bpf_stats }
    }
}

} // verus!
