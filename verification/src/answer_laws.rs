//! What each answer does to a wait, a polling, a proof and a benchmark run.

use crate::config::{ZkBenchConfig, ZkBenchMode};
use crate::error::ZkBenchError;
use crate::metrics::MetricsSummary;
use crate::poll;
use crate::poll::{PollStage, ProofPoll};
use crate::prove;
use crate::prove::{ProofResult, ProofRun, ProofStage, SafeProofRun};
use crate::run;
use crate::run::{BenchRun, BenchStage};
use crate::safe_l2;
use crate::safe_l2::{SafeL2Stage, SafeL2Wait};
use crate::service::{
    BenchAction, BenchEvent, GetProofRequest, ProofJobStatus, ProofType, ProveBlockRequest,
    ReceiptType, ZkProofClientConfig,
};
use crate::summary;
use crate::summary::{ExecutionStats, ZkBenchProofOutcome, ZkBenchSummary};
use crate::target;
use crate::text;
use vstd::prelude::*;

verus! {

/// What a wait for a block does with each answer. Below the block, whatever the
/// safe head, it pauses for its interval and then asks again as before; at the
/// block or above it asks for the output of that block, and with that the block
/// is safe under the L1 head of the report. A failed request ends the wait, as
/// does the end of its time. Nothing else changes it, and its time is its own.
pub proof fn law_wait_answers(start: SafeL2Wait, events: Seq<BenchEvent>, event: BenchEvent)
    requires
        start.stage is Syncing,
    ensures
        ({
            let wait = start.after(events);
            let next = wait.next(event);
            &&& match wait.stage {
                SafeL2Stage::Safe { .. } | SafeL2Stage::Failed { .. } => {
                    wait.pending() is Finish && wait.limit() is None
                },
                _ => {
                    !(wait.pending() is Finish) && wait.limit() == Some(start.wait_timeout_nanos)
                },
            }
            &&& match (wait.pending(), event) {
                (BenchAction::QuerySyncStatus, BenchEvent::Synced { safe_l2, head_l1 }) => {
                    if safe_l2 < start.block_number {
                        &&& next.pending() == (BenchAction::Pause {
                            nanos: start.poll_interval_nanos,
                        })
                        &&& next.next(BenchEvent::PauseOver) == wait
                    } else {
                        &&& next.pending() == (BenchAction::QueryOutput {
                            block_number: start.block_number,
                        })
                        &&& next.next(BenchEvent::OutputFound).stage == (SafeL2Stage::Safe {
                            l1_head: head_l1,
                        })
                    }
                },
                (BenchAction::QueryOutput { .. }, BenchEvent::OutputFound) => next.stage is Safe,
                (BenchAction::Pause { .. }, BenchEvent::PauseOver) => {
                    next.pending() is QuerySyncStatus
                },
                (BenchAction::QuerySyncStatus, BenchEvent::Failed { cause })
                | (BenchAction::QueryOutput { .. }, BenchEvent::Failed { cause }) => {
                    next.stage == (SafeL2Stage::Failed { error: ZkBenchError::Rollup { cause } })
                },
                (BenchAction::QuerySyncStatus, BenchEvent::TimedOut { cause })
                | (BenchAction::QueryOutput { .. }, BenchEvent::TimedOut { cause })
                | (BenchAction::Pause { .. }, BenchEvent::TimedOut { cause }) => {
                    next.stage == (SafeL2Stage::Failed {
                        error: ZkBenchError::SafeL2Timeout { cause },
                    })
                },
                _ => next == wait,
            }
        }),
{
    lemma_wait_keeps(start, events);
}

/// A wait asks for nothing but the sync status, the output of its block, and
/// pauses of its interval.
pub proof fn law_wait_asks_for_its_block(start: SafeL2Wait, events: Seq<BenchEvent>)
    requires
        start.stage is Syncing,
    ensures
        start.pending() is QuerySyncStatus,
        match start.after(events).pending() {
            BenchAction::QuerySyncStatus | BenchAction::Finish => true,
            BenchAction::QueryOutput { block_number } => block_number == start.block_number,
            BenchAction::Pause { nanos } => nanos == start.poll_interval_nanos,
            _ => false,
        },
{
    lemma_wait_keeps(start, events);
}

/// A wait and a polling begin with what they are given.
pub proof fn law_waits_begin(
    block_number: u64,
    session_id: String,
    mode: ZkBenchMode,
    timeout_nanos: u128,
    interval_nanos: u128,
)
    ensures
        ({
            let wait = safe_l2::wait_start(block_number, timeout_nanos, interval_nanos);
            &&& wait.stage is Syncing
            &&& wait.block_number == block_number
            &&& wait.wait_timeout_nanos == timeout_nanos
            &&& wait.poll_interval_nanos == interval_nanos
        }),
        ({
            let polling = poll::poll_start(session_id, mode, timeout_nanos, interval_nanos);
            &&& polling.stage is Asking
            &&& polling.session_id == session_id
            &&& polling.mode == mode
            &&& polling.proof_timeout_nanos == timeout_nanos
            &&& polling.poll_interval_nanos == interval_nanos
        }),
{
}

proof fn lemma_wait_keeps(start: SafeL2Wait, events: Seq<BenchEvent>)
    ensures
        start.after(events).block_number == start.block_number,
        start.after(events).wait_timeout_nanos == start.wait_timeout_nanos,
        start.after(events).poll_interval_nanos == start.poll_interval_nanos,
    decreases events.len(),
{
    if events.len() > 0 {
        lemma_wait_keeps(start, events.drop_last());
    }
}

/// What is asked of the prover for a job: its state, and for a dry run the STARK
/// receipt with it.
pub open spec fn state_of_job(mode: ZkBenchMode, session_id: String) -> BenchAction {
    BenchAction::QueryProof {
        query: GetProofRequest {
            session_id,
            receipt_type: match mode {
                ZkBenchMode::DryRun => Some(ReceiptType::Stark),
                ZkBenchMode::Cluster => None,
            },
        },
    }
}

/// What a polling does with each answer. A job that is reported neither finished
/// nor failed, whatever else is said of it, is asked for again as before, after
/// a pause of the interval. A finished job ends the polling with the stats of
/// that answer; a failed one with its time and message. A failed request ends
/// the polling, as does the end of its time. Nothing else changes it, and its
/// time is its own.
pub proof fn law_poll_answers(start: ProofPoll, events: Seq<BenchEvent>, event: BenchEvent)
    requires
        start.stage is Asking,
    ensures
        start.pending() == state_of_job(start.mode, start.session_id),
        ({
            let poll = start.after(events);
            let next = poll.next(event);
            &&& match poll.stage {
                PollStage::Asking => poll.pending() == state_of_job(start.mode, start.session_id),
                PollStage::Pausing => poll.pending() == (BenchAction::Pause {
                    nanos: start.poll_interval_nanos,
                }),
                _ => poll.pending() is Finish,
            }
            &&& poll.limit() == if poll.pending() is Finish {
                None
            } else {
                Some(start.proof_timeout_nanos)
            }
            &&& match (poll.stage, event) {
                (
                    PollStage::Asking,
                    BenchEvent::Polled { status, error_message, execution_stats, elapsed_nanos },
                ) => match status {
                    Some(ProofJobStatus::Succeeded) => {
                        next.stage == (PollStage::Succeeded { execution_stats })
                    },
                    Some(ProofJobStatus::Failed) => next.stage == (PollStage::Failed {
                        error: ZkBenchError::ProofFailed { elapsed_nanos, message: error_message },
                    }),
                    _ => next.stage is Pausing && next.next(BenchEvent::PauseOver) == poll,
                },
                (PollStage::Pausing, BenchEvent::PauseOver) => next.stage is Asking,
                (PollStage::Asking, BenchEvent::Failed { cause }) => next.stage == (
                PollStage::Failed { error: ZkBenchError::Prover { cause } }),
                (PollStage::Asking, BenchEvent::TimedOut { cause })
                | (PollStage::Pausing, BenchEvent::TimedOut { cause }) => next.stage == (
                PollStage::Failed {
                    error: ZkBenchError::ProofTimeout { session_id: start.session_id, cause },
                }),
                _ => next == poll,
            }
        }),
{
    lemma_poll_keeps(start, events);
}

proof fn lemma_poll_keeps(start: ProofPoll, events: Seq<BenchEvent>)
    ensures
        start.after(events).session_id == start.session_id,
        start.after(events).mode == start.mode,
        start.after(events).proof_timeout_nanos == start.proof_timeout_nanos,
        start.after(events).poll_interval_nanos == start.poll_interval_nanos,
    decreases events.len(),
{
    if events.len() > 0 {
        lemma_poll_keeps(start, events.drop_last());
    }
}

/// How the proof of a range begins: not at all for a range that ends before it
/// starts or starts with the genesis block, else from the parent of the first
/// block, for as many blocks as the range has, under the L1 head.
pub proof fn law_proof_begins(
    first_block: u64,
    last_block: u64,
    l1_head: [u8; 32],
    config: ZkBenchConfig,
)
    ensures
        match prove::proof_start(first_block, last_block, l1_head, config) {
            Err(error) => {
                if last_block < first_block {
                    error == (ZkBenchError::InvalidWorkloadRange { first_block, last_block })
                } else {
                    first_block == 0 && error == ZkBenchError::GenesisBlock
                }
            },
            Ok(start) => {
                &&& 0 < first_block <= last_block
                &&& start.start_block_number + 1 == first_block
                &&& start.start_block_number + start.number_of_blocks_to_prove == last_block
                &&& start.l1_head == l1_head
                &&& start.config == config
                &&& proof_asks(start, prover_connection(config))
            },
        },
{
}

/// The connection to the prover of a configuration.
pub open spec fn prover_connection(config: ZkBenchConfig) -> BenchAction {
    BenchAction::ConnectProver {
        client: ZkProofClientConfig {
            endpoint: config.prover_url,
            connect_timeout_secs: 10,
            request_timeout_secs: 30,
        },
    }
}

/// `request` asks for a compressed proof of the blocks from `first_block` to
/// `last_block` under `l1_head`, and for nothing beyond that.
pub open spec fn requests_range(
    request: ProveBlockRequest,
    first_block: u64,
    last_block: u64,
    l1_head: [u8; 32],
) -> bool {
    &&& request.start_block_number + 1 == first_block
    &&& request.start_block_number + request.number_of_blocks_to_prove == last_block
    &&& request.l1_head is Some
    &&& request.l1_head->0@ == text::hex_text(l1_head@)
    &&& request.proof_type == ProofType::Compressed
    &&& request.sequence_window is None
    &&& request.session_id is None
    &&& request.prover_address is None
    &&& request.intermediate_root_interval is None
}

/// `outcome` tells of a proof of the blocks from `first_block` to `last_block`
/// under `l1_head` and `session_id`.
pub open spec fn tells_of_range(
    outcome: ZkBenchProofOutcome,
    mode: ZkBenchMode,
    first_block: u64,
    last_block: u64,
    l1_head: [u8; 32],
    session_id: String,
) -> bool {
    &&& outcome.mode == mode
    &&& outcome.session_id == session_id
    &&& outcome.start_block_number + 1 == first_block
    &&& outcome.start_block_number + outcome.number_of_blocks_to_prove == last_block
    &&& outcome.l1_head@ == text::hex_text(l1_head@)
}

/// The proof has no result yet, and needs `action` done and nothing else.
pub open spec fn proof_asks(run: ProofRun, action: BenchAction) -> bool {
    &&& forall|a: BenchAction| #[trigger] run.is_pending(a) ==> a == action
    &&& forall|r: Option<ProofResult>| #[trigger] run.is_result(r) ==> r is None
    &&& !run.over()
}

/// The proof is over with `error`.
pub open spec fn proof_fails(run: ProofRun, error: ZkBenchError) -> bool {
    &&& forall|a: BenchAction| #[trigger] run.is_pending(a) ==> a is Finish
    &&& forall|r: Option<ProofResult>| #[trigger]
        run.is_result(r) ==> r == Some(
            Err::<(ZkBenchProofOutcome, Option<ExecutionStats>), _>(error),
        )
    &&& run.over()
}

/// What is known of a proof that began as `start`, once events have brought it
/// to `run`.
spec fn proof_known(start: ProofRun, run: ProofRun) -> bool {
    &&& run.start_block_number == start.start_block_number
    &&& run.number_of_blocks_to_prove == start.number_of_blocks_to_prove
    &&& run.l1_head == start.l1_head
    &&& run.config == start.config
    &&& run.stage matches ProofStage::Polling { poll } ==> {
        &&& poll.stage.polling()
        &&& poll.mode == start.config.mode
        &&& poll.proof_timeout_nanos == 900_000_000_000
        &&& poll.poll_interval_nanos == 5_000_000_000
    }
}

proof fn lemma_proof_known(start: ProofRun, events: Seq<BenchEvent>)
    requires
        start.stage is Dialing,
    ensures
        proof_known(start, start.after(events)),
    decreases events.len(),
{
    if events.len() > 0 {
        lemma_proof_known(start, events.drop_last());
    }
}

/// What the proof of a range does with each answer. It connects to the prover of
/// the configuration, in whatever mode; requests the range; and polls the job
/// that the prover opens. A job that is reported neither finished nor failed,
/// whatever else is said of it, is asked for again as before, after a pause of
/// five seconds. Only the prover's own word, a failed request or the end of the
/// fifteen minutes ends it without a proof. Nothing else changes it.
pub proof fn law_proof_answers(
    first_block: u64,
    last_block: u64,
    l1_head: [u8; 32],
    config: ZkBenchConfig,
    start: ProofRun,
    events: Seq<BenchEvent>,
    asked: BenchAction,
    event: BenchEvent,
)
    requires
        prove::proof_start(first_block, last_block, l1_head, config) == Ok::<_, ZkBenchError>(
            start,
        ),
        start.after(events).is_pending(asked),
    ensures
        ({
            let run = start.after(events);
            let next = run.next(event);
            &&& run.limit() == if asked is QueryProof || asked is Pause {
                Some(900_000_000_000u128)
            } else {
                None
            }
            &&& match (asked, event) {
                (BenchAction::ConnectProver { client }, _) => {
                    asked == prover_connection(config) && match event {
                        BenchEvent::Connected => {
                            &&& !next.over()
                            &&& forall|a: BenchAction| #[trigger]
                                next.is_pending(a) ==> a is RequestProof
                        },
                        BenchEvent::Failed { cause } => proof_fails(
                            next,
                            ZkBenchError::Prover { cause },
                        ),
                        _ => next == run,
                    }
                },
                (BenchAction::RequestProof { request }, _) => {
                    requests_range(request, first_block, last_block, l1_head) && match event {
                        BenchEvent::Accepted { session_id } => proof_asks(
                            next,
                            state_of_job(config.mode, session_id),
                        ),
                        BenchEvent::Failed { cause } => proof_fails(
                            next,
                            ZkBenchError::Prover { cause },
                        ),
                        _ => next == run,
                    }
                },
                (BenchAction::QueryProof { query }, _) => {
                    asked == state_of_job(config.mode, query.session_id) && match event {
                        BenchEvent::Polled {
                            status,
                            error_message,
                            execution_stats,
                            elapsed_nanos,
                        } => match status {
                            Some(ProofJobStatus::Succeeded) => {
                                &&& next.over()
                                &&& forall|r: Option<ProofResult>| #[trigger]
                                    next.is_result(r) ==> {
                                        &&& r matches Some(Ok((outcome, stats)))
                                        &&& stats == execution_stats
                                        &&& tells_of_range(
                                            outcome,
                                            config.mode,
                                            first_block,
                                            last_block,
                                            l1_head,
                                            query.session_id,
                                        )
                                    }
                            },
                            Some(ProofJobStatus::Failed) => proof_fails(
                                next,
                                ZkBenchError::ProofFailed {
                                    elapsed_nanos,
                                    message: error_message,
                                },
                            ),
                            _ => {
                                &&& proof_asks(next, BenchAction::Pause { nanos: 5_000_000_000 })
                                &&& next.next(BenchEvent::PauseOver) == run
                                &&& forall|cause: String| #[trigger]
                                    next.next(BenchEvent::TimedOut { cause }) == run.next(
                                        BenchEvent::TimedOut { cause },
                                    )
                            },
                        },
                        BenchEvent::Failed { cause } => proof_fails(
                            next,
                            ZkBenchError::Prover { cause },
                        ),
                        BenchEvent::TimedOut { cause } => proof_fails(
                            next,
                            ZkBenchError::ProofTimeout { session_id: query.session_id, cause },
                        ),
                        _ => next == run,
                    }
                },
                (BenchAction::Pause { nanos }, _) => nanos == 5_000_000_000 && match event {
                    BenchEvent::PauseOver => {
                        &&& !next.over()
                        &&& forall|a: BenchAction| #[trigger]
                            next.is_pending(a) ==> a is QueryProof
                    },
                    BenchEvent::TimedOut { .. } => next.over(),
                    _ => next == run,
                },
                (BenchAction::Finish, _) => next == run && run.over(),
                _ => false,
            }
        }),
{
    lemma_proof_known(start, events);
}

/// The run has no result yet, and needs `action` done and nothing else.
pub open spec fn safe_proof_asks(run: SafeProofRun, action: BenchAction) -> bool {
    &&& forall|a: BenchAction| #[trigger] run.is_pending(a) ==> a == action
    &&& forall|r: Option<ProofResult>| #[trigger] run.is_result(r) ==> r is None
    &&& !run.over()
}

/// The run is over with `error`.
pub open spec fn safe_proof_fails(run: SafeProofRun, error: ZkBenchError) -> bool {
    &&& forall|a: BenchAction| #[trigger] run.is_pending(a) ==> a is Finish
    &&& forall|r: Option<ProofResult>| #[trigger]
        run.is_result(r) ==> r == Some(
            Err::<(ZkBenchProofOutcome, Option<ExecutionStats>), _>(error),
        )
    &&& run.over()
}

/// What is known of a run for the blocks from `first_block` to `last_block`.
spec fn safe_proof_known(
    first_block: u64,
    last_block: u64,
    config: ZkBenchConfig,
    run: SafeProofRun,
) -> bool {
    match run {
        SafeProofRun::Waiting { first_block: first, wait, config: c } => {
            &&& c == config
            &&& first == first_block
            &&& wait.block_number == last_block
            &&& wait.stage.waiting()
            &&& wait.wait_timeout_nanos == 300_000_000_000
            &&& wait.poll_interval_nanos == 500_000_000
        },
        SafeProofRun::Proving { run } => {
            &&& run.config == config
            &&& 0 < first_block <= last_block
            &&& run.start_block_number + 1 == first_block
            &&& run.start_block_number + run.number_of_blocks_to_prove == last_block
            &&& proof_known(run, run)
        },
        SafeProofRun::Failed { error } => true,
    }
}

proof fn lemma_safe_proof_known(
    first_block: u64,
    last_block: u64,
    config: ZkBenchConfig,
    events: Seq<BenchEvent>,
)
    ensures
        safe_proof_known(
            first_block,
            last_block,
            config,
            prove::safe_proof_start(first_block, last_block, config).after(events),
        ),
    decreases events.len(),
{
    if events.len() > 0 {
        lemma_safe_proof_known(first_block, last_block, config, events.drop_last());
    }
}

/// What a run does with the answers of the rollup node, until its range is safe.
/// Below the last block, however far, it pauses for half a second and then asks
/// again as before. At the last block or above it asks for the output of that
/// block, and with that turns to the prover of the configuration, to request the
/// range under the L1 head of the report. Only a failed request, the end of the
/// five minutes, or a range that cannot be proved ends it here. Nothing else
/// changes it.
pub proof fn law_safe_proof_waits(
    first_block: u64,
    last_block: u64,
    config: ZkBenchConfig,
    events: Seq<BenchEvent>,
    asked: BenchAction,
    event: BenchEvent,
)
    requires
        prove::safe_proof_start(first_block, last_block, config).after(events).is_pending(asked),
    ensures
        safe_proof_asks(
            prove::safe_proof_start(first_block, last_block, config),
            BenchAction::QuerySyncStatus,
        ),
        ({
            let run = prove::safe_proof_start(first_block, last_block, config).after(events);
            let next = run.next(event);
            match asked {
                BenchAction::QuerySyncStatus => {
                    run.limit() == Some(300_000_000_000u128) && match event {
                        BenchEvent::Synced { safe_l2, head_l1 } => if safe_l2 < last_block {
                            &&& safe_proof_asks(next, BenchAction::Pause { nanos: 500_000_000 })
                            &&& next.next(BenchEvent::PauseOver) == run
                        } else {
                            &&& safe_proof_asks(
                                next,
                                BenchAction::QueryOutput { block_number: last_block },
                            )
                            &&& 0 < first_block <= last_block ==> next.next(
                                BenchEvent::OutputFound,
                            ) == (SafeProofRun::Proving {
                                run: prove::proof_start(
                                    first_block,
                                    last_block,
                                    head_l1,
                                    config,
                                )->Ok_0,
                            })
                        },
                        BenchEvent::Failed { cause } => safe_proof_fails(
                            next,
                            ZkBenchError::Rollup { cause },
                        ),
                        BenchEvent::TimedOut { cause } => safe_proof_fails(
                            next,
                            ZkBenchError::SafeL2Timeout { cause },
                        ),
                        _ => next == run,
                    }
                },
                BenchAction::QueryOutput { block_number } => {
                    &&& block_number == last_block
                    &&& run.limit() == Some(300_000_000_000u128)
                    &&& match event {
                        BenchEvent::OutputFound => if last_block < first_block {
                            safe_proof_fails(
                                next,
                                ZkBenchError::InvalidWorkloadRange { first_block, last_block },
                            )
                        } else if first_block == 0 {
                            safe_proof_fails(next, ZkBenchError::GenesisBlock)
                        } else {
                            safe_proof_asks(next, prover_connection(config))
                        },
                        BenchEvent::Failed { cause } => safe_proof_fails(
                            next,
                            ZkBenchError::Rollup { cause },
                        ),
                        BenchEvent::TimedOut { cause } => safe_proof_fails(
                            next,
                            ZkBenchError::SafeL2Timeout { cause },
                        ),
                        _ => next == run,
                    }
                },
                BenchAction::Pause { nanos } => if run is Waiting {
                    &&& nanos == 500_000_000
                    &&& run.limit() == Some(300_000_000_000u128)
                    &&& match event {
                        BenchEvent::PauseOver => safe_proof_asks(
                            next,
                            BenchAction::QuerySyncStatus,
                        ),
                        BenchEvent::TimedOut { cause } => safe_proof_fails(
                            next,
                            ZkBenchError::SafeL2Timeout { cause },
                        ),
                        _ => next == run,
                    }
                } else {
                    run is Proving
                },
                BenchAction::ConnectProver { .. }
                | BenchAction::RequestProof { .. }
                | BenchAction::QueryProof { .. } => run is Proving,
                BenchAction::ConnectRollup { .. } => false,
                BenchAction::Finish => next == run && run.over() && run.limit() is None,
            }
        }),
{
    lemma_safe_proof_known(first_block, last_block, config, events);
}

/// Once its range is safe, a run is the proof of the range: it asks for what
/// that asks for, takes its answers, ends when that ends, and comes to what that
/// comes to.
pub proof fn law_safe_proof_is_the_proof(proof_run: ProofRun, event: BenchEvent)
    ensures
        ({
            let run = SafeProofRun::Proving { run: proof_run };
            &&& run.next(event) == (SafeProofRun::Proving { run: proof_run.next(event) })
            &&& forall|a: BenchAction| #[trigger] run.is_pending(a) ==> proof_run.is_pending(a)
            &&& forall|r: Option<ProofResult>| #[trigger]
                run.is_result(r) ==> proof_run.is_result(r)
            &&& run.over() == proof_run.over()
            &&& run.limit() == proof_run.limit()
        }),
{
}

/// How a benchmark begins: with what the mode of the configuration selects from
/// the load test, and a connection to the rollup node of the configuration. A
/// load test that failed is not proved.
pub proof fn law_run_begins(
    load: MetricsSummary,
    config: ZkBenchConfig,
    r: Result<BenchRun, ZkBenchError>,
)
    requires
        run::is_start(load, config, r),
    ensures
        match (load.error, r) {
            (Some(message), _) => r == Err::<BenchRun, _>(
                ZkBenchError::LoadTestFailed { error: message },
            ),
            (None, Err(error)) => target::is_selected(load, config.mode, Err(error)),
            (None, Ok(start)) => {
                &&& target::is_selected(load, config.mode, Ok(start.target))
                &&& forall|a: BenchAction| #[trigger]
                    start.is_pending(a) ==> a == (BenchAction::ConnectRollup {
                        url: config.rollup_rpc_url,
                    })
                &&& start.limit() is None
                &&& !start.over()
            },
        },
{
}

/// `run` is the run `inner` on the target of `start`: it asks for what that asks
/// for, is limited as that is, ends when that ends, fails as that fails, and
/// sums up what that comes to.
pub open spec fn stands_for(start: BenchRun, run: BenchRun, inner: SafeProofRun) -> bool {
    &&& forall|a: BenchAction| #[trigger] run.is_pending(a) ==> inner.is_pending(a)
    &&& run.limit() == inner.limit()
    &&& run.over() == inner.over()
    &&& forall|r: Option<Result<ZkBenchSummary, ZkBenchError>>| #[trigger]
        run.is_result(r) ==> sums_up(start, inner, r)
}

/// `r` is what `inner` comes to, with the target of `start`.
pub open spec fn sums_up(
    start: BenchRun,
    inner: SafeProofRun,
    r: Option<Result<ZkBenchSummary, ZkBenchError>>,
) -> bool {
    match r {
        None => inner.is_result(None),
        Some(Err(error)) => inner.is_result(Some(Err(error))),
        Some(Ok(summary)) => {
            &&& summary.target == start.target
            &&& exists|stats: Option<ExecutionStats>| #[trigger]
                summary::summarizes_stats(summary.execution_stats, stats) && inner.is_result(
                    Some(Ok((summary.proof_outcome, stats))),
                )
        },
    }
}

/// A benchmark that has connected to the rollup node is the run for the blocks
/// of its target, whatever is answered. One that is refused fails with that, and
/// nothing else happens before.
pub proof fn law_run_proves_its_target(
    load: MetricsSummary,
    config: ZkBenchConfig,
    start: BenchRun,
    events: Seq<BenchEvent>,
    event: BenchEvent,
)
    requires
        run::is_start(load, config, Ok(start)),
    ensures
        stands_for(
            start,
            start.next(BenchEvent::Connected).after(events),
            prove::safe_proof_start(
                start.target.first_block,
                start.target.last_block,
                config,
            ).after(events),
        ),
        match event {
            BenchEvent::Connected => true,
            BenchEvent::Failed { cause } => {
                &&& start.next(event).over()
                &&& start.next(event).limit() is None
                &&& start.next(event).next(BenchEvent::Connected) == start.next(event)
                &&& forall|r: Option<Result<ZkBenchSummary, ZkBenchError>>| #[trigger]
                    start.next(event).is_result(r) ==> r == Some(
                        Err::<ZkBenchSummary, _>(
                            ZkBenchError::RollupConnect { url: config.rollup_rpc_url, cause },
                        ),
                    )
            },
            _ => start.next(event) == start,
        },
{
    lemma_run_is_safe_proof(config, start, events);
    let first = start.target.first_block;
    let last = start.target.last_block;
    let run = start.next(BenchEvent::Connected).after(events);
    let inner = prove::safe_proof_start(first, last, config).after(events);
    assert forall|r: Option<Result<ZkBenchSummary, ZkBenchError>>| #[trigger]
        run.is_result(r) implies sums_up(start, inner, r) by {
        if let Some(Ok(summary)) = r {
            let stats = choose|stats: Option<ExecutionStats>|
                inner.is_result(Some(Ok((summary.proof_outcome, stats))))
                    && #[trigger] summary::summarizes_stats(summary.execution_stats, stats);
            assert(summary::summarizes_stats(summary.execution_stats, stats));
        }
    }
}

proof fn lemma_run_is_safe_proof(config: ZkBenchConfig, start: BenchRun, events: Seq<BenchEvent>)
    requires
        start.stage == (BenchStage::Connecting { config }),
    ensures
        start.next(BenchEvent::Connected).after(events).target == start.target,
        start.next(BenchEvent::Connected).after(events).stage == (BenchStage::Proving {
            run: prove::safe_proof_start(
                start.target.first_block,
                start.target.last_block,
                config,
            ).after(events),
        }),
    decreases events.len(),
{
    if events.len() > 0 {
        lemma_run_is_safe_proof(config, start, events.drop_last());
    }
}

} // verus!
