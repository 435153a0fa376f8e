//! Polling of a proof job.

use crate::config::ZkBenchMode;
use crate::error::ZkBenchError;
use crate::service::{BenchAction, BenchEvent, GetProofRequest, ProofJobStatus, ReceiptType};
use crate::summary::ExecutionStats;
use crate::target::ZkBenchRunner;
use vstd::prelude::*;

verus! {

/// Where the polling of a proof job stands.
#[derive(Debug, PartialEq, Eq)]
pub enum PollStage {
    /// The state of the job is asked for.
    Asking,
    /// The job was not finished; the next question waits.
    Pausing,
    /// The job is finished with a proof.
    Succeeded { execution_stats: Option<ExecutionStats> },
    /// The polling ended without a proof.
    Failed { error: ZkBenchError },
}

/// Polls a proof job until it succeeds or fails.
#[derive(Debug, PartialEq, Eq)]
pub struct ProofPoll {
    /// Session of the job.
    pub session_id: String,
    /// Proof backend mode.
    pub mode: ZkBenchMode,
    /// Nanoseconds that the polling may take.
    pub proof_timeout_nanos: u128,
    /// Nanoseconds between two questions.
    pub poll_interval_nanos: u128,
    /// Where the polling stands.
    pub stage: PollStage,
}

/// The receipt that is asked for while a proof of `mode` is polled: a dry run
/// asks for the STARK receipt, the cluster for none.
pub open spec fn receipt_of(mode: ZkBenchMode) -> Option<ReceiptType> {
    match mode {
        ZkBenchMode::DryRun => Some(ReceiptType::Stark),
        ZkBenchMode::Cluster => None,
    }
}

impl PollStage {
    /// The polling goes on.
    pub open spec fn polling(self) -> bool {
        self is Asking || self is Pausing
    }

    /// Where the polling of the job of `session_id` stands after `event`. An
    /// event that does not answer the pending action changes nothing.
    pub open spec fn next(self, session_id: String, event: BenchEvent) -> PollStage {
        match (self, event) {
            (
                PollStage::Asking,
                BenchEvent::Polled { status, error_message, execution_stats, elapsed_nanos },
            ) => {
                if status == Some(ProofJobStatus::Succeeded) {
                    PollStage::Succeeded { execution_stats }
                } else if status == Some(ProofJobStatus::Failed) {
                    PollStage::Failed {
                        error: ZkBenchError::ProofFailed { elapsed_nanos, message: error_message },
                    }
                } else {
                    PollStage::Pausing
                }
            },
            (PollStage::Pausing, BenchEvent::PauseOver) => PollStage::Asking,
            (PollStage::Asking, BenchEvent::Failed { cause }) => {
                PollStage::Failed { error: ZkBenchError::Prover { cause } }
            },
            (stage, BenchEvent::TimedOut { cause }) => if stage.polling() {
                PollStage::Failed { error: ZkBenchError::ProofTimeout { session_id, cause } }
            } else {
                stage
            },
            (stage, _) => stage,
        }
    }
}

impl ProofPoll {
    /// The polling after `event`.
    pub open spec fn next(self, event: BenchEvent) -> ProofPoll {
        ProofPoll { stage: self.stage.next(self.session_id, event), ..self }
    }

    /// The polling after all of `events`.
    pub open spec fn after(self, events: Seq<BenchEvent>) -> ProofPoll
        decreases events.len(),
    {
        if events.len() == 0 {
            self
        } else {
            self.after(events.drop_last()).next(events.last())
        }
    }

    /// What the polling needs done.
    pub open spec fn pending(self) -> BenchAction {
        match self.stage {
            PollStage::Asking => BenchAction::QueryProof {
                query: GetProofRequest {
                    session_id: self.session_id,
                    receipt_type: receipt_of(self.mode),
                },
            },
            PollStage::Pausing => BenchAction::Pause { nanos: self.poll_interval_nanos },
            _ => BenchAction::Finish,
        }
    }

    /// Moves the polling on. An event that does not answer the pending action
    /// changes nothing.
    pub fn on(self, event: BenchEvent) -> (r: ProofPoll)
        ensures
            r == self.next(event),
    {
        let session_id = self.session_id;
        let stage = match (self.stage, event) {
            (
                PollStage::Asking,
                BenchEvent::Polled { status, error_message, execution_stats, elapsed_nanos },
            ) => {
                let status = match status {
                    Some(status) => status,
                    None => ProofJobStatus::Unspecified,
                };
                match status {
                    ProofJobStatus::Succeeded => PollStage::Succeeded { execution_stats },
                    ProofJobStatus::Failed => PollStage::Failed {
                        error: ZkBenchError::ProofFailed { elapsed_nanos, message: error_message },
                    },
                    _ => PollStage::Pausing,
                }
            },
            (PollStage::Pausing, BenchEvent::PauseOver) => PollStage::Asking,
            (PollStage::Asking, BenchEvent::Failed { cause }) => {
                PollStage::Failed { error: ZkBenchError::Prover { cause } }
            },
            (PollStage::Asking, BenchEvent::TimedOut { cause })
            | (PollStage::Pausing, BenchEvent::TimedOut { cause }) => {
                PollStage::Failed {
                    error: ZkBenchError::ProofTimeout { session_id: session_id.clone(), cause },
                }
            },
            (stage, _) => stage,
        };
        ProofPoll {
            session_id,
            mode: self.mode,
            proof_timeout_nanos: self.proof_timeout_nanos,
            poll_interval_nanos: self.poll_interval_nanos,
            stage,
        }
    }

    /// What the polling needs done.
    pub fn action(&self) -> (r: BenchAction)
        ensures
            r == self.pending(),
    {
        match &self.stage {
            PollStage::Asking => BenchAction::QueryProof {
                query: GetProofRequest {
                    session_id: self.session_id.clone(),
                    receipt_type: ZkBenchRunner::receipt_type_for_mode(self.mode),
                },
            },
            PollStage::Pausing => BenchAction::Pause { nanos: self.poll_interval_nanos },
            _ => BenchAction::Finish,
        }
    }

    /// Nanoseconds that the polling may take in all, while it goes on.
    pub open spec fn limit(self) -> Option<u128> {
        if self.stage.polling() {
            Some(self.proof_timeout_nanos)
        } else {
            None
        }
    }

    /// Nanoseconds that the polling may take in all, while it goes on.
    pub fn budget(&self) -> (r: Option<u128>)
        ensures
            r == self.limit(),
    {
        match &self.stage {
            PollStage::Asking | PollStage::Pausing => Some(self.proof_timeout_nanos),
            _ => None,
        }
    }
}

/// The polling of a proof job before anything is asked.
pub open spec fn poll_start(
    session_id: String,
    mode: ZkBenchMode,
    proof_timeout_nanos: u128,
    poll_interval_nanos: u128,
) -> ProofPoll {
    ProofPoll {
        session_id,
        mode,
        proof_timeout_nanos,
        poll_interval_nanos,
        stage: PollStage::Asking,
    }
}

impl ZkBenchRunner {
    /// Starts to poll a proof job until it succeeds or fails.
    pub fn poll_proof(
        session_id: String,
        mode: ZkBenchMode,
        proof_timeout_nanos: u128,
        poll_interval_nanos: u128,
    ) -> (r: ProofPoll)
        ensures
            r == poll_start(session_id, mode, proof_timeout_nanos, poll_interval_nanos),
    {
        ProofPoll {
            session_id,
            mode,
            proof_timeout_nanos,
            poll_interval_nanos,
            stage: PollStage::Asking,
        }
    }

    /// Returns the receipt type requested while polling a proof mode.
    pub fn receipt_type_for_mode(mode: ZkBenchMode) -> (r: Option<ReceiptType>)
        ensures
            r == receipt_of(mode),
    {
        match mode {
            ZkBenchMode::DryRun => Some(ReceiptType::Stark),
            ZkBenchMode::Cluster => None,
        }
    }
}

} // verus!
