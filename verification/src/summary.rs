//! What a completed benchmark reports.

use crate::config::ZkBenchMode;
use crate::target::ZkBenchTargetRange;
use crate::tracker;
use crate::tracker::CycleEntry;
use vstd::prelude::*;

verus! {

/// Execution statistics that the prover returns for a dry run.
///
/// The two times are IEEE-754 double-precision numbers of milliseconds, held
/// as their bit patterns: they are carried along and never computed with.
#[derive(Clone, Debug, PartialEq, Eq)]
pub struct ExecutionStats {
    /// Total instruction cycles.
    pub total_instruction_cycles: u64,
    /// Total SP1 gas.
    pub total_sp1_gas: u64,
    /// Cycle tracker output, in the order in which the prover's table is
    /// walked.
    pub cycle_tracker: Vec<CycleEntry>,
    /// Bit pattern of the witness generation time in milliseconds.
    pub witness_generation_ms: u64,
    /// Bit pattern of the execution time in milliseconds.
    pub execution_ms: u64,
}

/// Subset of dry-run execution stats that the summary holds.
#[derive(Clone, Debug, PartialEq, Eq)]
pub struct ZkBenchExecutionStatsSummary {
    /// Total instruction cycles.
    pub total_instruction_cycles: u64,
    /// Total SP1 gas.
    pub total_sp1_gas: u64,
    /// Cycle tracker output, in the order of the names.
    pub cycle_tracker: Vec<CycleEntry>,
    /// Bit pattern of the witness generation time in milliseconds.
    pub witness_generation_ms: u64,
    /// Bit pattern of the execution time in milliseconds.
    pub execution_ms: u64,
}

impl ZkBenchExecutionStatsSummary {
    /// The cycle tracker output is in the order of the names, each of which
    /// occurs once.
    pub open spec fn well_formed(self) -> bool {
        tracker::in_name_order(self.cycle_tracker@)
    }

    /// The summary says what `stats` says.
    pub open spec fn summarizes(self, stats: ExecutionStats) -> bool {
        &&& self.well_formed()
        &&& self.total_instruction_cycles == stats.total_instruction_cycles
        &&& self.total_sp1_gas == stats.total_sp1_gas
        &&& tracker::cycles_by_name(self.cycle_tracker@) == tracker::cycles_by_name(
            stats.cycle_tracker@,
        )
        &&& self.witness_generation_ms == stats.witness_generation_ms
        &&& self.execution_ms == stats.execution_ms
    }
}

impl From<ExecutionStats> for ZkBenchExecutionStatsSummary {
    fn from(stats: ExecutionStats) -> (r: Self)
        ensures
            r.summarizes(stats),
    {
        ZkBenchExecutionStatsSummary {
            total_instruction_cycles: stats.total_instruction_cycles,
            total_sp1_gas: stats.total_sp1_gas,
            cycle_tracker: tracker::order_entries(stats.cycle_tracker),
            witness_generation_ms: stats.witness_generation_ms,
            execution_ms: stats.execution_ms,
        }
    }
}

impl vstd::std_specs::convert::FromSpecImpl<ExecutionStats> for ZkBenchExecutionStatsSummary {
    open spec fn obeys_from_spec() -> bool {
        false
    }

    open spec fn from_spec(stats: ExecutionStats) -> Self {
        arbitrary()
    }
}

/// Proof request summary.
#[derive(Clone, Debug, PartialEq, Eq)]
pub struct ZkBenchProofOutcome {
    /// Proof backend mode.
    pub mode: ZkBenchMode,
    /// ZK prover session ID.
    pub session_id: String,
    /// Prover start block number.
    pub start_block_number: u64,
    /// Number of blocks requested.
    pub number_of_blocks_to_prove: u64,
    /// L1 head hash passed to the prover.
    pub l1_head: String,
}

/// Completed ZK benchmark summary.
#[derive(Clone, Debug, PartialEq, Eq)]
pub struct ZkBenchSummary {
    /// Inclusive block range selected from the load-test run for proof.
    pub target: ZkBenchTargetRange,
    /// Proof summary.
    pub proof_outcome: ZkBenchProofOutcome,
    /// Dry-run execution stats, when the prover returned them.
    pub execution_stats: Option<ZkBenchExecutionStatsSummary>,
}

/// `summary` holds stats if and only if there are some, and says what they say.
pub open spec fn summarizes_stats(
    summary: Option<ZkBenchExecutionStatsSummary>,
    stats: Option<ExecutionStats>,
) -> bool {
    match (summary, stats) {
        (Some(summary), Some(stats)) => summary.summarizes(stats),
        (None, None) => true,
        _ => false,
    }
}

impl ZkBenchSummary {
    /// The summary holds the target, the outcome and the stats.
    pub open spec fn sums_up(
        self,
        target: ZkBenchTargetRange,
        proof_outcome: ZkBenchProofOutcome,
        execution_stats: Option<ExecutionStats>,
    ) -> bool {
        &&& self.target == target
        &&& self.proof_outcome == proof_outcome
        &&& summarizes_stats(self.execution_stats, execution_stats)
    }

    /// Builds a completed ZK benchmark summary.
    pub fn new(
        target: ZkBenchTargetRange,
        proof_outcome: ZkBenchProofOutcome,
        execution_stats: Option<ExecutionStats>,
    ) -> (r: Self)
        ensures
            r.sums_up(target, proof_outcome, execution_stats),
    {
        let execution_stats = match execution_stats {
            Some(stats) => Some(ZkBenchExecutionStatsSummary::from(stats)),
            None => None,
        };
        ZkBenchSummary { target, proof_outcome, execution_stats }
    }
}

} // verus!
