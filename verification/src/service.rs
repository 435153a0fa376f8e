//! What is asked of the rollup node and of the prover, and what comes back.

use crate::config::RpcUrl;
use crate::summary::ExecutionStats;
use vstd::prelude::*;

verus! {

/// Kind of proof that the prover is asked for.
#[derive(Clone, Copy, Debug, PartialEq, Eq, Structural)]
pub enum ProofType {
    /// Compressed proof.
    Compressed,
}

/// Kind of receipt that is asked for with a proof.
#[derive(Clone, Copy, Debug, PartialEq, Eq, Structural)]
pub enum ReceiptType {
    /// STARK receipt.
    Stark,
}

/// Status of a proof job.
#[derive(Clone, Copy, Debug, PartialEq, Eq, Structural)]
pub enum ProofJobStatus {
    /// The prover names no status.
    Unspecified,
    /// The job is accepted and not finished.
    Pending,
    /// The job is finished with a proof.
    Succeeded,
    /// The job is finished without a proof.
    Failed,
}

/// How to reach the prover.
#[derive(Debug, PartialEq, Eq)]
pub struct ZkProofClientConfig {
    /// Endpoint of the prover.
    pub endpoint: RpcUrl,
    /// Seconds to wait for a connection.
    pub connect_timeout_secs: u64,
    /// Seconds to wait for the answer to a request.
    pub request_timeout_secs: u64,
}

/// Request for the proof of a range of blocks.
#[derive(Debug, PartialEq, Eq)]
pub struct ProveBlockRequest {
    /// Block that the proof starts from: the parent of the first block proved.
    pub start_block_number: u64,
    /// Number of blocks to prove.
    pub number_of_blocks_to_prove: u64,
    /// Sequencing window, if not the prover's own.
    pub sequence_window: Option<u64>,
    /// Kind of proof.
    pub proof_type: ProofType,
    /// Session to continue.
    pub session_id: Option<String>,
    /// Account of the prover.
    pub prover_address: Option<String>,
    /// Hash of the L1 head that the proof refers to.
    pub l1_head: Option<String>,
    /// Distance of intermediate roots, if not the prover's own.
    pub intermediate_root_interval: Option<u64>,
}

/// Request for the state of a proof job.
#[derive(Debug, PartialEq, Eq)]
pub struct GetProofRequest {
    /// Session of the job.
    pub session_id: String,
    /// Receipt to return with the proof.
    pub receipt_type: Option<ReceiptType>,
}

/// What a benchmark run needs done next.
#[derive(Debug, PartialEq, Eq)]
pub enum BenchAction {
    /// Connect to the rollup node.
    ConnectRollup { url: RpcUrl },
    /// Ask the rollup node for its sync status.
    QuerySyncStatus,
    /// Ask the rollup node for the output at a block.
    QueryOutput { block_number: u64 },
    /// Connect to the prover.
    ConnectProver { client: ZkProofClientConfig },
    /// Ask the prover for a proof.
    RequestProof { request: ProveBlockRequest },
    /// Ask the prover for the state of a proof job.
    QueryProof { query: GetProofRequest },
    /// Wait.
    Pause { nanos: u128 },
    /// Nothing: the run has its result.
    Finish,
}

/// What came of an action.
#[derive(Debug, PartialEq, Eq)]
pub enum BenchEvent {
    /// The connection stands.
    Connected,
    /// The rollup node sent its sync status.
    Synced { safe_l2: u64, head_l1: [u8; 32] },
    /// The rollup node has the output.
    OutputFound,
    /// The prover accepted the request.
    Accepted { session_id: String },
    /// The prover sent the state of the job, `elapsed_nanos` after polling
    /// began. A status that the prover's interface does not know is `None`.
    Polled {
        status: Option<ProofJobStatus>,
        error_message: Option<String>,
        execution_stats: Option<ExecutionStats>,
        elapsed_nanos: u64,
    },
    /// The wait is over.
    PauseOver,
    /// The time allowed for this part of the run is over, as the timer says in
    /// its own words.
    TimedOut { cause: String },
    /// The connection or the request failed.
    Failed { cause: String },
}

} // verus!
