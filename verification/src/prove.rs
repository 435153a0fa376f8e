//! Proof of a range of blocks.

use crate::config::ZkBenchConfig;
use crate::error::ZkBenchError;
use crate::outside;
use crate::poll::{PollStage, ProofPoll};
use crate::safe_l2::{SafeL2Stage, SafeL2Wait};
use crate::service::{BenchAction, BenchEvent, ProofType, ProveBlockRequest, ZkProofClientConfig};
use crate::summary::{ExecutionStats, ZkBenchProofOutcome};
use crate::target::ZkBenchRunner;
use crate::text;
use vstd::prelude::*;

verus! {

/// Nanoseconds that a block may take to become safe.
pub const SAFE_L2_TIMEOUT_NANOS: u128 = 300_000_000_000;

/// Nanoseconds between two questions for the sync status.
pub const SAFE_L2_POLL_INTERVAL_NANOS: u128 = 500_000_000;

/// Nanoseconds that a proof may take.
pub const PROOF_TIMEOUT_NANOS: u128 = 900_000_000_000;

/// Nanoseconds between two questions for the state of a proof job.
pub const PROOF_POLL_INTERVAL_NANOS: u128 = 5_000_000_000;

/// Seconds to wait for a connection to the prover.
pub const PROVER_CONNECT_TIMEOUT_SECS: u64 = 10;

/// Seconds to wait for the prover's answer to a request.
pub const PROVER_REQUEST_TIMEOUT_SECS: u64 = 30;

/// Where the proof of a range of blocks stands.
#[derive(Debug, PartialEq, Eq)]
pub enum ProofStage {
    /// The prover is being connected to.
    Dialing,
    /// The proof is asked for.
    Requesting,
    /// The proof job is polled.
    Polling { poll: ProofPoll },
    /// The proof is there.
    Proved { session_id: String, execution_stats: Option<ExecutionStats> },
    /// There will be no proof.
    Failed { error: ZkBenchError },
}

/// Requests a proof for a block range and polls for completion.
#[derive(Debug, PartialEq, Eq)]
pub struct ProofRun {
    /// Block that the proof starts from: the parent of the first block proved.
    pub start_block_number: u64,
    /// Number of blocks to prove.
    pub number_of_blocks_to_prove: u64,
    /// Hash of the L1 head that the proof refers to.
    pub l1_head: [u8; 32],
    /// Configuration of the benchmark.
    pub config: ZkBenchConfig,
    /// Where the proof stands.
    pub stage: ProofStage,
}

/// What a proof comes to: its outcome and the prover's stats, or an error.
pub type ProofResult = Result<(ZkBenchProofOutcome, Option<ExecutionStats>), ZkBenchError>;

impl ProofRun {
    /// The proof after `event`. An event that does not answer the pending
    /// action changes nothing.
    pub open spec fn next(self, event: BenchEvent) -> ProofRun {
        let stage = match (self.stage, event) {
            (ProofStage::Dialing, BenchEvent::Connected) => ProofStage::Requesting,
            (ProofStage::Requesting, BenchEvent::Accepted { session_id }) => ProofStage::Polling {
                poll: ProofPoll {
                    session_id,
                    mode: self.config.mode,
                    proof_timeout_nanos: PROOF_TIMEOUT_NANOS,
                    poll_interval_nanos: PROOF_POLL_INTERVAL_NANOS,
                    stage: PollStage::Asking,
                },
            },
            (ProofStage::Dialing, BenchEvent::Failed { cause })
            | (ProofStage::Requesting, BenchEvent::Failed { cause }) => {
                ProofStage::Failed { error: ZkBenchError::Prover { cause } }
            },
            (ProofStage::Polling { poll }, event) => {
                let poll = poll.next(event);
                match poll.stage {
                    PollStage::Succeeded { execution_stats } => {
                        ProofStage::Proved { session_id: poll.session_id, execution_stats }
                    },
                    PollStage::Failed { error } => ProofStage::Failed { error },
                    _ => ProofStage::Polling { poll },
                }
            },
            (stage, _) => stage,
        };
        ProofRun { stage, ..self }
    }

    /// The proof after all of `events`.
    pub open spec fn after(self, events: Seq<BenchEvent>) -> ProofRun
        decreases events.len(),
    {
        if events.len() == 0 {
            self
        } else {
            self.after(events.drop_last()).next(events.last())
        }
    }

    /// `request` asks for the blocks of this proof, under its L1 head, and
    /// leaves the rest to the prover.
    pub open spec fn is_request(self, request: ProveBlockRequest) -> bool {
        &&& request.start_block_number == self.start_block_number
        &&& request.number_of_blocks_to_prove == self.number_of_blocks_to_prove
        &&& request.sequence_window is None
        &&& request.proof_type == ProofType::Compressed
        &&& request.session_id is None
        &&& request.prover_address is None
        &&& request.l1_head is Some
        &&& request.l1_head->0@ == text::hex_text(self.l1_head@)
        &&& request.intermediate_root_interval is None
    }

    /// `action` is what the proof needs done.
    pub open spec fn is_pending(self, action: BenchAction) -> bool {
        match self.stage {
            ProofStage::Dialing => action == (BenchAction::ConnectProver {
                client: ZkProofClientConfig {
                    endpoint: self.config.prover_url,
                    connect_timeout_secs: PROVER_CONNECT_TIMEOUT_SECS,
                    request_timeout_secs: PROVER_REQUEST_TIMEOUT_SECS,
                },
            }),
            ProofStage::Requesting => {
                action is RequestProof && self.is_request(action->RequestProof_request)
            },
            ProofStage::Polling { poll } => action == poll.pending(),
            _ => action is Finish,
        }
    }

    /// `outcome` is the outcome of this proof under `session_id`.
    pub open spec fn is_outcome(self, session_id: String, outcome: ZkBenchProofOutcome) -> bool {
        &&& outcome.mode == self.config.mode
        &&& outcome.session_id == session_id
        &&& outcome.start_block_number == self.start_block_number
        &&& outcome.number_of_blocks_to_prove == self.number_of_blocks_to_prove
        &&& outcome.l1_head@ == text::hex_text(self.l1_head@)
    }

    /// `r` is what the proof came to; there is nothing yet while it goes on.
    pub open spec fn is_result(self, r: Option<ProofResult>) -> bool {
        match self.stage {
            ProofStage::Proved { session_id, execution_stats } => {
                &&& r is Some
                &&& r->0 is Ok
                &&& self.is_outcome(session_id, r->0->Ok_0.0)
                &&& r->0->Ok_0.1 == execution_stats
            },
            ProofStage::Failed { error } => r == Some(
                Err::<(ZkBenchProofOutcome, Option<ExecutionStats>), _>(error),
            ),
            _ => r is None,
        }
    }

    /// Moves the proof on. An event that does not answer the pending action
    /// changes nothing.
    pub fn on(self, event: BenchEvent) -> (r: ProofRun)
        ensures
            r == self.next(event),
    {
        let mode = self.config.mode;
        let stage = match (self.stage, event) {
            (ProofStage::Dialing, BenchEvent::Connected) => ProofStage::Requesting,
            (ProofStage::Requesting, BenchEvent::Accepted { session_id }) => ProofStage::Polling {
                poll: ZkBenchRunner::poll_proof(
                    session_id,
                    mode,
                    PROOF_TIMEOUT_NANOS,
                    PROOF_POLL_INTERVAL_NANOS,
                ),
            },
            (ProofStage::Dialing, BenchEvent::Failed { cause })
            | (ProofStage::Requesting, BenchEvent::Failed { cause }) => {
                ProofStage::Failed { error: ZkBenchError::Prover { cause } }
            },
            (ProofStage::Polling { poll }, event) => {
                let poll = poll.on(event);
                match poll.stage {
                    PollStage::Succeeded { execution_stats } => {
                        ProofStage::Proved { session_id: poll.session_id, execution_stats }
                    },
                    PollStage::Failed { error } => ProofStage::Failed { error },
                    stage => ProofStage::Polling {
                        poll: ProofPoll {
                            session_id: poll.session_id,
                            mode: poll.mode,
                            proof_timeout_nanos: poll.proof_timeout_nanos,
                            poll_interval_nanos: poll.poll_interval_nanos,
                            stage,
                        },
                    },
                }
            },
            (stage, _) => stage,
        };
        ProofRun {
            start_block_number: self.start_block_number,
            number_of_blocks_to_prove: self.number_of_blocks_to_prove,
            l1_head: self.l1_head,
            config: self.config,
            stage,
        }
    }

    /// What the proof needs done.
    pub fn action(&self) -> (r: BenchAction)
        ensures
            self.is_pending(r),
    {
        match &self.stage {
            ProofStage::Dialing => BenchAction::ConnectProver {
                client: ZkProofClientConfig {
                    endpoint: self.config.prover_url.clone(),
                    connect_timeout_secs: PROVER_CONNECT_TIMEOUT_SECS,
                    request_timeout_secs: PROVER_REQUEST_TIMEOUT_SECS,
                },
            },
            ProofStage::Requesting => BenchAction::RequestProof {
                request: ProveBlockRequest {
                    start_block_number: self.start_block_number,
                    number_of_blocks_to_prove: self.number_of_blocks_to_prove,
                    sequence_window: None,
                    proof_type: ProofType::Compressed,
                    session_id: None,
                    prover_address: None,
                    l1_head: Some(outside::hash_text(&self.l1_head)),
                    intermediate_root_interval: None,
                },
            },
            ProofStage::Polling { poll } => poll.action(),
            _ => BenchAction::Finish,
        }
    }

    /// Nanoseconds that the present part of the proof may take in all, where
    /// it is limited: the polling is.
    pub open spec fn limit(self) -> Option<u128> {
        match self.stage {
            ProofStage::Polling { poll } => poll.limit(),
            _ => None,
        }
    }

    /// Nanoseconds that the present part of the proof may take in all, where
    /// it is limited.
    pub fn budget(&self) -> (r: Option<u128>)
        ensures
            r == self.limit(),
    {
        match &self.stage {
            ProofStage::Polling { poll } => poll.budget(),
            _ => None,
        }
    }

    /// The proof has its result.
    pub open spec fn over(self) -> bool {
        self.stage is Proved || self.stage is Failed
    }

    /// Whether the proof has its result.
    pub fn is_over(&self) -> (r: bool)
        ensures
            r == self.over(),
    {
        match &self.stage {
            ProofStage::Proved { .. } | ProofStage::Failed { .. } => true,
            _ => false,
        }
    }

    /// What the proof came to, once it is over.
    pub fn into_result(self) -> (r: Option<ProofResult>)
        ensures
            self.is_result(r),
    {
        match self.stage {
            ProofStage::Proved { session_id, execution_stats } => {
                let outcome = ZkBenchProofOutcome {
                    mode: self.config.mode,
                    session_id,
                    start_block_number: self.start_block_number,
                    number_of_blocks_to_prove: self.number_of_blocks_to_prove,
                    l1_head: outside::hash_text(&self.l1_head),
                };
                Some(Ok((outcome, execution_stats)))
            },
            ProofStage::Failed { error } => Some(Err(error)),
            _ => None,
        }
    }
}

/// The proof of the blocks from `first_block` to `last_block` before anything
/// is asked of the prover.
pub open spec fn proof_start(
    first_block: u64,
    last_block: u64,
    l1_head: [u8; 32],
    config: ZkBenchConfig,
) -> Result<ProofRun, ZkBenchError> {
    if last_block < first_block {
        Err(ZkBenchError::InvalidWorkloadRange { first_block, last_block })
    } else if first_block == 0 {
        Err(ZkBenchError::GenesisBlock)
    } else {
        Ok(
            ProofRun {
                start_block_number: (first_block - 1) as u64,
                number_of_blocks_to_prove: (last_block - first_block + 1) as u64,
                l1_head,
                config,
                stage: ProofStage::Dialing,
            },
        )
    }
}

/// Where the proof of a range that has to become safe stands.
#[derive(Debug, PartialEq, Eq)]
pub enum SafeProofRun {
    /// The last block is waited for.
    Waiting { first_block: u64, wait: SafeL2Wait, config: ZkBenchConfig },
    /// The range is safe and its proof is under way, or over.
    Proving { run: ProofRun },
    /// The range did not become safe, or cannot be proved.
    Failed { error: ZkBenchError },
}

impl SafeProofRun {
    /// The run after `event`. Once the last block is safe the proof starts,
    /// under the L1 head that it became safe with.
    pub open spec fn next(self, event: BenchEvent) -> SafeProofRun {
        match self {
            SafeProofRun::Waiting { first_block, wait, config } => {
                let wait = wait.next(event);
                match wait.stage {
                    SafeL2Stage::Safe { l1_head } => match proof_start(
                        first_block,
                        wait.block_number,
                        l1_head,
                        config,
                    ) {
                        Ok(run) => SafeProofRun::Proving { run },
                        Err(error) => SafeProofRun::Failed { error },
                    },
                    SafeL2Stage::Failed { error } => SafeProofRun::Failed { error },
                    _ => SafeProofRun::Waiting { first_block, wait, config },
                }
            },
            SafeProofRun::Proving { run } => SafeProofRun::Proving { run: run.next(event) },
            SafeProofRun::Failed { error } => SafeProofRun::Failed { error },
        }
    }

    /// The run after all of `events`.
    pub open spec fn after(self, events: Seq<BenchEvent>) -> SafeProofRun
        decreases events.len(),
    {
        if events.len() == 0 {
            self
        } else {
            self.after(events.drop_last()).next(events.last())
        }
    }

    /// `action` is what the run needs done.
    pub open spec fn is_pending(self, action: BenchAction) -> bool {
        match self {
            SafeProofRun::Waiting { first_block, wait, config } => action == wait.pending(),
            SafeProofRun::Proving { run } => run.is_pending(action),
            SafeProofRun::Failed { error } => action is Finish,
        }
    }

    /// `r` is what the run came to; there is nothing yet while it goes on.
    pub open spec fn is_result(self, r: Option<ProofResult>) -> bool {
        match self {
            SafeProofRun::Waiting { first_block, wait, config } => r is None,
            SafeProofRun::Proving { run } => run.is_result(r),
            SafeProofRun::Failed { error } => r == Some(
                Err::<(ZkBenchProofOutcome, Option<ExecutionStats>), _>(error),
            ),
        }
    }

    /// Moves the run on. An event that does not answer the pending action
    /// changes nothing.
    pub fn on(self, event: BenchEvent) -> (r: SafeProofRun)
        ensures
            r == self.next(event),
    {
        match self {
            SafeProofRun::Waiting { first_block, wait, config } => {
                let wait = wait.on(event);
                match wait.stage {
                    SafeL2Stage::Safe { l1_head } => match ZkBenchRunner::prove_block_range(
                        first_block,
                        wait.block_number,
                        l1_head,
                        config,
                    ) {
                        Ok(run) => SafeProofRun::Proving { run },
                        Err(error) => SafeProofRun::Failed { error },
                    },
                    SafeL2Stage::Failed { error } => SafeProofRun::Failed { error },
                    stage => SafeProofRun::Waiting {
                        first_block,
                        wait: SafeL2Wait {
                            block_number: wait.block_number,
                            wait_timeout_nanos: wait.wait_timeout_nanos,
                            poll_interval_nanos: wait.poll_interval_nanos,
                            stage,
                        },
                        config,
                    },
                }
            },
            SafeProofRun::Proving { run } => SafeProofRun::Proving { run: run.on(event) },
            SafeProofRun::Failed { error } => SafeProofRun::Failed { error },
        }
    }

    /// What the run needs done.
    pub fn action(&self) -> (r: BenchAction)
        ensures
            self.is_pending(r),
    {
        match self {
            SafeProofRun::Waiting { wait, .. } => wait.action(),
            SafeProofRun::Proving { run } => run.action(),
            SafeProofRun::Failed { .. } => BenchAction::Finish,
        }
    }

    /// The time that the present part of the run may take in all, where it is
    /// limited.
    pub open spec fn limit(self) -> Option<u128> {
        match self {
            SafeProofRun::Waiting { first_block, wait, config } => wait.limit(),
            SafeProofRun::Proving { run } => run.limit(),
            SafeProofRun::Failed { error } => None,
        }
    }

    /// Nanoseconds that the present part of the run may take in all, where it
    /// is limited: the wait and the polling are.
    pub fn budget(&self) -> (r: Option<u128>)
        ensures
            r == self.limit(),
    {
        match self {
            SafeProofRun::Waiting { wait, .. } => wait.budget(),
            SafeProofRun::Proving { run } => run.budget(),
            SafeProofRun::Failed { .. } => None,
        }
    }

    /// The run has its result.
    pub open spec fn over(self) -> bool {
        match self {
            SafeProofRun::Waiting { .. } => false,
            SafeProofRun::Proving { run } => run.over(),
            SafeProofRun::Failed { .. } => true,
        }
    }

    /// Whether the run has its result.
    pub fn is_over(&self) -> (r: bool)
        ensures
            r == self.over(),
    {
        match self {
            SafeProofRun::Waiting { .. } => false,
            SafeProofRun::Proving { run } => run.is_over(),
            SafeProofRun::Failed { .. } => true,
        }
    }

    /// What the run came to, once it is over.
    pub fn into_result(self) -> (r: Option<ProofResult>)
        ensures
            self.is_result(r),
    {
        match self {
            SafeProofRun::Waiting { .. } => None,
            SafeProofRun::Proving { run } => run.into_result(),
            SafeProofRun::Failed { error } => Some(Err(error)),
        }
    }
}

impl ZkBenchRunner {
    /// Starts to wait for a block range to become safe, and to have it proved
    /// then.
    pub fn prove_safe_block_range(
        first_block: u64,
        last_block: u64,
        config: ZkBenchConfig,
    ) -> (r: SafeProofRun)
        ensures
            r == safe_proof_start(first_block, last_block, config),
    {
        SafeProofRun::Waiting {
            first_block,
            wait: Self::wait_for_safe_l2(
                last_block,
                SAFE_L2_TIMEOUT_NANOS,
                SAFE_L2_POLL_INTERVAL_NANOS,
            ),
            config,
        }
    }

    /// Starts to request a proof for a block range and to poll for completion.
    pub fn prove_block_range(
        first_block: u64,
        last_block: u64,
        l1_head: [u8; 32],
        config: ZkBenchConfig,
    ) -> (r: Result<ProofRun, ZkBenchError>)
        ensures
            r == proof_start(first_block, last_block, l1_head, config),
    {
        if last_block < first_block {
            return Err(ZkBenchError::InvalidWorkloadRange { first_block, last_block });
        }
        let start_block_number = match first_block.checked_sub(1) {
            Some(start_block_number) => start_block_number,
            None => return Err(ZkBenchError::GenesisBlock),
        };
        Ok(
            ProofRun {
                start_block_number,
                number_of_blocks_to_prove: last_block - first_block + 1,
                l1_head,
                config,
                stage: ProofStage::Dialing,
            },
        )
    }
}

/// The run for the blocks from `first_block` to `last_block` before anything
/// is asked of the rollup node.
pub open spec fn safe_proof_start(
    first_block: u64,
    last_block: u64,
    config: ZkBenchConfig,
) -> SafeProofRun {
    SafeProofRun::Waiting {
        first_block,
        wait: SafeL2Wait {
            block_number: last_block,
            wait_timeout_nanos: SAFE_L2_TIMEOUT_NANOS,
            poll_interval_nanos: SAFE_L2_POLL_INTERVAL_NANOS,
            stage: SafeL2Stage::Syncing,
        },
        config,
    }
}

} // verus!
