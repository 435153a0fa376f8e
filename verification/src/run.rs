//! A benchmark run, from the load-test summary to the benchmark summary.

use crate::config::ZkBenchConfig;
use crate::error::ZkBenchError;
use crate::metrics::MetricsSummary;
use crate::prove;
use crate::prove::SafeProofRun;
use crate::service::{BenchAction, BenchEvent};
use crate::summary;
use crate::summary::ZkBenchSummary;
use crate::target;
use crate::target::{ZkBenchRunner, ZkBenchTargetRange};
use vstd::prelude::*;

verus! {

/// Where a benchmark run stands.
#[derive(Debug, PartialEq, Eq)]
pub enum BenchStage {
    /// The rollup node is being connected to.
    Connecting { config: ZkBenchConfig },
    /// The target is waited for and proved.
    Proving { run: SafeProofRun },
    /// The rollup node could not be connected to.
    Failed { error: ZkBenchError },
}

/// Waits for the proof target to become safe, requests its proof and polls for
/// completion.
#[derive(Debug, PartialEq, Eq)]
pub struct BenchRun {
    /// Blocks selected for proof.
    pub target: ZkBenchTargetRange,
    /// Where the run stands.
    pub stage: BenchStage,
}

impl BenchRun {
    /// The run after `event`. An event that does not answer the pending action
    /// changes nothing.
    pub open spec fn next(self, event: BenchEvent) -> BenchRun {
        let stage = match (self.stage, event) {
            (BenchStage::Connecting { config }, BenchEvent::Connected) => BenchStage::Proving {
                run: prove::safe_proof_start(
                    self.target.first_block,
                    self.target.last_block,
                    config,
                ),
            },
            (BenchStage::Connecting { config }, BenchEvent::Failed { cause }) => {
                BenchStage::Failed {
                    error: ZkBenchError::RollupConnect { url: config.rollup_rpc_url, cause },
                }
            },
            (BenchStage::Proving { run }, event) => BenchStage::Proving { run: run.next(event) },
            (stage, _) => stage,
        };
        BenchRun { stage, ..self }
    }

    /// The run after all of `events`.
    pub open spec fn after(self, events: Seq<BenchEvent>) -> BenchRun
        decreases events.len(),
    {
        if events.len() == 0 {
            self
        } else {
            self.after(events.drop_last()).next(events.last())
        }
    }

    /// `action` is what the run needs done.
    pub open spec fn is_pending(self, action: BenchAction) -> bool {
        match self.stage {
            BenchStage::Connecting { config } => {
                action == (BenchAction::ConnectRollup { url: config.rollup_rpc_url })
            },
            BenchStage::Proving { run } => run.is_pending(action),
            BenchStage::Failed { error } => action is Finish,
        }
    }

    /// `r` is what the run came to; there is nothing yet while it goes on. A
    /// summary holds the target, the outcome of its proof and the stats that
    /// came with it.
    pub open spec fn is_result(self, r: Option<Result<ZkBenchSummary, ZkBenchError>>) -> bool {
        match self.stage {
            BenchStage::Connecting { config } => r is None,
            BenchStage::Proving { run } => match r {
                None => run.is_result(None),
                Some(Err(error)) => run.is_result(Some(Err(error))),
                Some(Ok(summary)) => {
                    &&& summary.target == self.target
                    &&& exists|stats|
                        run.is_result(Some(Ok((summary.proof_outcome, stats))))
                            && #[trigger] summary::summarizes_stats(summary.execution_stats, stats)
                },
            },
            BenchStage::Failed { error } => r == Some(Err::<ZkBenchSummary, _>(error)),
        }
    }

    /// Moves the run on. An event that does not answer the pending action
    /// changes nothing.
    pub fn on(self, event: BenchEvent) -> (r: BenchRun)
        ensures
            r == self.next(event),
    {
        let stage = match (self.stage, event) {
            (BenchStage::Connecting { config }, BenchEvent::Connected) => BenchStage::Proving {
                run: ZkBenchRunner::prove_safe_block_range(
                    self.target.first_block,
                    self.target.last_block,
                    config,
                ),
            },
            (BenchStage::Connecting { config }, BenchEvent::Failed { cause }) => {
                BenchStage::Failed {
                    error: ZkBenchError::RollupConnect { url: config.rollup_rpc_url, cause },
                }
            },
            (BenchStage::Proving { run }, event) => BenchStage::Proving { run: run.on(event) },
            (stage, _) => stage,
        };
        BenchRun { target: self.target, stage }
    }

    /// What the run needs done.
    pub fn action(&self) -> (r: BenchAction)
        ensures
            self.is_pending(r),
    {
        match &self.stage {
            BenchStage::Connecting { config } => {
                BenchAction::ConnectRollup { url: config.rollup_rpc_url.clone() }
            },
            BenchStage::Proving { run } => run.action(),
            BenchStage::Failed { .. } => BenchAction::Finish,
        }
    }

    /// Nanoseconds that the present part of the run may take in all, where it
    /// is limited: the wait for a safe block and the polling are.
    pub open spec fn limit(self) -> Option<u128> {
        match self.stage {
            BenchStage::Proving { run } => run.limit(),
            _ => None,
        }
    }

    /// Nanoseconds that the present part of the run may take in all, where it
    /// is limited.
    pub fn budget(&self) -> (r: Option<u128>)
        ensures
            r == self.limit(),
    {
        match &self.stage {
            BenchStage::Proving { run } => run.budget(),
            _ => None,
        }
    }

    /// The run has its result.
    pub open spec fn over(self) -> bool {
        match self.stage {
            BenchStage::Connecting { .. } => false,
            BenchStage::Proving { run } => run.over(),
            BenchStage::Failed { .. } => true,
        }
    }

    /// Whether the run has its result.
    pub fn is_over(&self) -> (r: bool)
        ensures
            r == self.over(),
    {
        match &self.stage {
            BenchStage::Connecting { .. } => false,
            BenchStage::Proving { run } => run.is_over(),
            BenchStage::Failed { .. } => true,
        }
    }

    /// What the run came to, once it is over.
    pub fn into_result(self) -> (r: Option<Result<ZkBenchSummary, ZkBenchError>>)
        ensures
            self.is_result(r),
    {
        match self.stage {
            BenchStage::Connecting { .. } => None,
            BenchStage::Proving { run } => match run.into_result() {
                None => None,
                Some(Err(error)) => Some(Err(error)),
                Some(Ok((outcome, stats))) => {
                    let summary = ZkBenchSummary::new(self.target, outcome, stats);
                    assert(summary::summarizes_stats(summary.execution_stats, stats));
                    Some(Ok(summary))
                },
            },
            BenchStage::Failed { error } => Some(Err(error)),
        }
    }
}

/// `r` is how a benchmark of `summary` starts: with an error if the load test
/// failed or offers no target, else with a connection to the rollup node.
pub open spec fn is_start(
    summary: MetricsSummary,
    config: ZkBenchConfig,
    r: Result<BenchRun, ZkBenchError>,
) -> bool {
    match (summary.error, r) {
        (Some(error), _) => r == Err::<BenchRun, _>(ZkBenchError::LoadTestFailed { error }),
        (None, Ok(run)) => {
            &&& target::is_selected(summary, config.mode, Ok(run.target))
            &&& run.stage == BenchStage::Connecting { config }
        },
        (None, Err(error)) => target::is_selected(summary, config.mode, Err(error)),
    }
}

impl ZkBenchRunner {
    /// Selects the proof target and starts the run that waits for safe L2,
    /// requests a proof and polls for completion.
    pub fn run(summary: &MetricsSummary, config: ZkBenchConfig) -> (r: Result<
        BenchRun,
        ZkBenchError,
    >)
        ensures
            is_start(*summary, config, r),
    {
        match &summary.error {
            Some(error) => Err(ZkBenchError::LoadTestFailed { error: error.clone() }),
            None => match Self::select_proof_target(summary, config.mode) {
                Ok(target) => Ok(BenchRun { target, stage: BenchStage::Connecting { config } }),
                Err(error) => Err(error),
            },
        }
    }
}

} // verus!
