//! Why a benchmark run ends without a proof.

use crate::config::RpcUrl;
use crate::outside;
use crate::text;
use vstd::prelude::*;

verus! {

/// Error of a benchmark run.
#[derive(Debug, PartialEq, Eq)]
pub enum ZkBenchError {
    /// A proof target ends before it starts.
    InvalidTargetRange { first_block: u64, last_block: u64 },
    /// The load test names no first block.
    NoFirstBlock,
    /// The load test names no last block.
    NoLastBlock,
    /// The load test put load on no block.
    EmptyLoadTest,
    /// The load test failed, so nothing can be proved.
    LoadTestFailed { error: String },
    /// The rollup RPC cannot be reached.
    RollupConnect { url: RpcUrl, cause: String },
    /// A request to the rollup node failed.
    Rollup { cause: String },
    /// The last block of the target did not become safe in time.
    SafeL2Timeout { cause: String },
    /// A range of blocks to prove ends before it starts.
    InvalidWorkloadRange { first_block: u64, last_block: u64 },
    /// The genesis block has no parent to start a proof from.
    GenesisBlock,
    /// A request to the prover failed.
    Prover { cause: String },
    /// The prover gave the proof up, `elapsed_nanos` after polling began.
    ProofFailed { elapsed_nanos: u64, message: Option<String> },
    /// The proof did not end in time.
    ProofTimeout { session_id: String, cause: String },
}

impl ZkBenchError {
    /// The text of the error.
    pub open spec fn text(self) -> Seq<char> {
        match self {
            ZkBenchError::InvalidTargetRange { first_block, last_block } => {
                "invalid proof target range: "@ + text::decimal(first_block as nat) + "..="@
                    + text::decimal(last_block as nat)
            },
            ZkBenchError::NoFirstBlock => "block range has no first block"@,
            ZkBenchError::NoLastBlock => "block range has no last block"@,
            ZkBenchError::EmptyLoadTest => {
                "cannot select fullest block from empty load-test run"@
            },
            ZkBenchError::LoadTestFailed { error } => {
                "load test failed before ZK bench target selection: "@ + error@
            },
            ZkBenchError::RollupConnect { url, cause } => {
                "failed to connect rollup RPC "@ + url@
            },
            ZkBenchError::Rollup { cause } => cause@,
            ZkBenchError::SafeL2Timeout { cause } => {
                "timed out waiting for workload block to become safe"@
            },
            ZkBenchError::InvalidWorkloadRange { first_block, last_block } => {
                "invalid workload block range: "@ + text::decimal(first_block as nat) + "..="@
                    + text::decimal(last_block as nat)
            },
            ZkBenchError::GenesisBlock => "cannot prove genesis block with one-block range"@,
            ZkBenchError::Prover { cause } => cause@,
            ZkBenchError::ProofFailed { elapsed_nanos, message } => {
                proof_failed_text(
                    outside::duration_debug(elapsed_nanos),
                    match message {
                        Some(message) => Some(message@),
                        None => None,
                    },
                )
            },
            ZkBenchError::ProofTimeout { session_id, cause } => {
                "timed out waiting for proof request "@ + session_id@
            },
        }
    }

    /// The text of the error.
    pub fn message(&self) -> (r: String)
        ensures
            r@ == self.text(),
    {
        match self {
            ZkBenchError::InvalidTargetRange { first_block, last_block } => {
                range_message("invalid proof target range: ", *first_block, *last_block)
            },
            ZkBenchError::NoFirstBlock => "block range has no first block".to_string(),
            ZkBenchError::NoLastBlock => "block range has no last block".to_string(),
            ZkBenchError::EmptyLoadTest => {
                "cannot select fullest block from empty load-test run".to_string()
            },
            ZkBenchError::LoadTestFailed { error } => {
                let mut r = "load test failed before ZK bench target selection: ".to_string();
                r.append(error.as_str());
                r
            },
            ZkBenchError::RollupConnect { url, cause: _ } => {
                let mut r = "failed to connect rollup RPC ".to_string();
                r.append(url.as_str());
                r
            },
            ZkBenchError::Rollup { cause } => cause.clone(),
            ZkBenchError::SafeL2Timeout { .. } => {
                "timed out waiting for workload block to become safe".to_string()
            },
            ZkBenchError::InvalidWorkloadRange { first_block, last_block } => {
                range_message("invalid workload block range: ", *first_block, *last_block)
            },
            ZkBenchError::GenesisBlock => {
                "cannot prove genesis block with one-block range".to_string()
            },
            ZkBenchError::Prover { cause } => cause.clone(),
            ZkBenchError::ProofFailed { elapsed_nanos, message } => {
                let elapsed = outside::duration_text(*elapsed_nanos);
                proof_failed_message(elapsed.as_str(), message)
            },
            ZkBenchError::ProofTimeout { session_id, .. } => {
                let mut r = "timed out waiting for proof request ".to_string();
                r.append(session_id.as_str());
                r
            },
        }
    }

    /// The text of the error that lies beneath this one: beneath a refused
    /// connection to the rollup RPC the refusal, beneath a timeout the word of
    /// the timer. A failed request is the outside error itself, of which no more
    /// than the text is held.
    pub open spec fn beneath(self) -> Option<Seq<char>> {
        match self {
            ZkBenchError::RollupConnect { url, cause } => Some(cause@),
            ZkBenchError::SafeL2Timeout { cause } => Some(cause@),
            ZkBenchError::ProofTimeout { session_id, cause } => Some(cause@),
            _ => None,
        }
    }

    /// What the error was raised from, where another error lies beneath it.
    pub fn cause(&self) -> (r: Option<&str>)
        ensures
            self.beneath() == match r {
                Some(text) => Some(text@),
                None => None,
            },
    {
        match self {
            ZkBenchError::RollupConnect { cause, .. }
            | ZkBenchError::SafeL2Timeout { cause }
            | ZkBenchError::ProofTimeout { cause, .. } => Some(cause.as_str()),
            _ => None,
        }
    }
}

/// The text for a proof that the prover gave up after `elapsed`, with the
/// prover's own message where it sent one.
pub open spec fn proof_failed_text(elapsed: Seq<char>, message: Option<Seq<char>>) -> Seq<char> {
    "proof request failed after "@ + elapsed + ": "@ + match message {
        Some(message) => message,
        None => "missing error message"@,
    }
}

/// The text for a proof that the prover gave up after `elapsed`, with the
/// prover's own message where it sent one.
pub fn proof_failed_message(elapsed: &str, message: &Option<String>) -> (r: String)
    ensures
        r@ == proof_failed_text(
            elapsed@,
            match message {
                Some(message) => Some(message@),
                None => None,
            },
        ),
{
    let mut r = "proof request failed after ".to_string();
    r.append(elapsed);
    r.append(": ");
    match message {
        Some(message) => r.append(message.as_str()),
        None => r.append("missing error message"),
    }
    r
}

/// `prefix` and the inclusive range of blocks.
fn range_message(prefix: &str, first_block: u64, last_block: u64) -> (r: String)
    ensures
        r@ == prefix@ + text::decimal(first_block as nat) + "..="@ + text::decimal(
            last_block as nat,
        ),
{
    let mut r = prefix.to_string();
    text::push_u64(&mut r, first_block);
    r.append("..=");
    text::push_u64(&mut r, last_block);
    r
}

} // verus!
