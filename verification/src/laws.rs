//! What holds of the benchmark as a whole.

use crate::config::{ZkBenchConfig, ZkBenchMode};
use crate::error::ZkBenchError;
use crate::metrics::{BlockLoadMetrics, BlockRange, MetricsSummary};
use crate::poll;
use crate::poll::{PollStage, ProofPoll};
use crate::prove::{ProofRun, ProofStage, SafeProofRun};
use crate::run;
use crate::run::{BenchRun, BenchStage};
use crate::safe_l2::{SafeL2Stage, SafeL2Wait};
use crate::service::{BenchAction, BenchEvent, GetProofRequest, ProofJobStatus};
use crate::summary;
use crate::summary::{ExecutionStats, ZkBenchSummary};
use crate::target;
use crate::target::ZkBenchTargetRange;
use crate::text;
use vstd::prelude::*;

verus! {

/// Some block is the fullest of a load test that touched any.
pub proof fn law_fullest_exists(blocks: Seq<BlockLoadMetrics>)
    requires
        blocks.len() > 0,
    ensures
        exists|i: int| target::is_fullest(blocks, i),
    decreases blocks.len(),
{
    let last = blocks.len() - 1;
    if blocks.len() == 1 {
        assert(target::is_fullest(blocks, 0));
    } else {
        let init = blocks.drop_last();
        law_fullest_exists(init);
        let i = choose|i: int| target::is_fullest(init, i);
        assert(forall|j: int| 0 <= j < init.len() ==> init[j] == blocks[j]);
        if target::fuller(blocks[i], blocks[last]) {
            assert forall|j: int| i < j < blocks.len() implies target::fuller(
                blocks[i],
                #[trigger] blocks[j],
            ) by {
                if j < last {
                    assert(target::fuller(init[i], init[j]));
                }
            }
            assert forall|j: int| 0 <= j < i implies !target::fuller(
                #[trigger] blocks[j],
                blocks[i],
            ) by {
                assert(!target::fuller(init[j], init[i]));
            }
            assert(target::is_fullest(blocks, i));
        } else {
            assert forall|j: int| 0 <= j < last implies !target::fuller(
                #[trigger] blocks[j],
                blocks[last],
            ) by {
                if j < i {
                    assert(!target::fuller(init[j], init[i]));
                } else if j > i {
                    assert(target::fuller(init[i], init[j]));
                }
            }
            assert(target::is_fullest(blocks, last));
        }
    }
}

/// Only one block is the fullest.
pub proof fn law_fullest_is_unique(blocks: Seq<BlockLoadMetrics>, i: int, j: int)
    requires
        target::is_fullest(blocks, i),
        target::is_fullest(blocks, j),
    ensures
        i == j,
{
    if i < j {
        assert(target::fuller(blocks[i], blocks[j]));
    } else if j < i {
        assert(target::fuller(blocks[j], blocks[i]));
    }
}

/// No block of the load test used more gas than the fullest. None that used as
/// much confirmed more transactions. None that did as much of both has a lower
/// number.
pub proof fn law_fullest_tie_breaks(blocks: Seq<BlockLoadMetrics>, i: int, j: int)
    requires
        target::is_fullest(blocks, i),
        0 <= j < blocks.len(),
    ensures
        blocks[j].total_gas <= blocks[i].total_gas,
        blocks[j].total_gas == blocks[i].total_gas ==> blocks[j].confirmed_count
            <= blocks[i].confirmed_count,
        blocks[j].total_gas == blocks[i].total_gas && blocks[j].confirmed_count
            == blocks[i].confirmed_count ==> blocks[i].block_number <= blocks[j].block_number,
{
    if j < i {
        assert(!target::fuller(blocks[j], blocks[i]));
    } else if i < j {
        assert(target::fuller(blocks[i], blocks[j]));
    }
}

/// The fullest block is one of the load test, and of several entries that are as
/// full as it, it is the last.
pub proof fn law_fullest_is_last_of_equals(blocks: Seq<BlockLoadMetrics>, i: int, j: int)
    requires
        target::is_fullest(blocks, i),
    ensures
        0 <= i < blocks.len(),
        i < j < blocks.len() ==> load_key(blocks[j]) != load_key(blocks[i]),
{
    if i < j < blocks.len() {
        assert(target::fuller(blocks[i], blocks[j]));
    }
}

/// What decides how full a block is: its gas, transactions and number.
pub open spec fn load_key(block: BlockLoadMetrics) -> (u64, u64, u64) {
    (block.total_gas, block.confirmed_count, block.block_number)
}

/// What decides how full each block is.
pub open spec fn load_keys(blocks: Seq<BlockLoadMetrics>) -> Seq<(u64, u64, u64)> {
    blocks.map_values(|block: BlockLoadMetrics| load_key(block))
}

/// The order in which a load test lists its blocks does not matter: two lists
/// of the same gas, transactions and numbers have the same fullest block, in
/// these. What else the lists say of their blocks does not matter either.
pub proof fn law_fullest_ignores_order(
    a: Seq<BlockLoadMetrics>,
    b: Seq<BlockLoadMetrics>,
    i: int,
    j: int,
)
    requires
        load_keys(a).to_multiset() == load_keys(b).to_multiset(),
        target::is_fullest(a, i),
        target::is_fullest(b, j),
    ensures
        load_key(a[i]) == load_key(b[j]),
{
    let x = load_keys(a);
    let y = load_keys(b);
    x.to_multiset_ensures();
    y.to_multiset_ensures();
    assert(x[i] == load_key(a[i]) && y[j] == load_key(b[j]));
    assert(x.contains(x[i]));
    assert(y.contains(y[j]));
    assert(y.to_multiset().count(x[i]) > 0);
    assert(x.to_multiset().count(y[j]) > 0);
    let k = choose|k: int| 0 <= k < y.len() && y[k] == x[i];
    let m = choose|m: int| 0 <= m < x.len() && x[m] == y[j];
    assert(load_key(b[k]) == load_key(a[i]));
    assert(load_key(a[m]) == load_key(b[j]));
    law_fullest_tie_breaks(b, j, k);
    law_fullest_tie_breaks(a, i, m);
}

/// Whatever is selected, it is a range of at least one block.
pub proof fn law_target_is_well_formed(
    summary: MetricsSummary,
    mode: ZkBenchMode,
    selected: ZkBenchTargetRange,
)
    requires
        target::is_selected(summary, mode, Ok(selected)),
    ensures
        selected.well_formed(),
{
}

/// A range of blocks is a target exactly where it ends no earlier than it
/// starts, and then has its bounds and reason.
pub proof fn law_target_has_its_bounds(first_block: u64, last_block: u64, reason: String)
    ensures
        match ZkBenchTargetRange::made(first_block, last_block, reason) {
            Ok(made) => {
                &&& first_block <= last_block
                &&& made.first_block == first_block
                &&& made.last_block == last_block
                &&& made.reason == reason
            },
            Err(error) => {
                &&& last_block < first_block
                &&& error == (ZkBenchError::InvalidTargetRange { first_block, last_block })
            },
        },
{
}

/// The range of a load test is a target exactly where it has a first and a last
/// block, in that order. Of what is missing the first block is named first.
pub proof fn law_range_has_its_bounds(range: BlockRange, reason: String)
    ensures
        match target::target_of_range(range, reason) {
            Ok(made) => {
                &&& range.first_block == Some(made.first_block)
                &&& range.last_block == Some(made.last_block)
                &&& made.first_block <= made.last_block
                &&& made.reason == reason
            },
            Err(error) => {
                if range.first_block is None {
                    error == ZkBenchError::NoFirstBlock
                } else if range.last_block is None {
                    error == ZkBenchError::NoLastBlock
                } else {
                    &&& range.last_block->0 < range.first_block->0
                    &&& error == (ZkBenchError::InvalidTargetRange {
                        first_block: range.first_block->0,
                        last_block: range.last_block->0,
                    })
                }
            },
        },
{
}

/// A dry run selects nothing only where the load test has no range, and the
/// cluster only where it put load on no block. Each target says why it is one.
pub proof fn law_selection_says_why(
    summary: MetricsSummary,
    mode: ZkBenchMode,
    r: Result<ZkBenchTargetRange, ZkBenchError>,
)
    requires
        target::is_selected(summary, mode, r),
    ensures
        match (mode, r) {
            (ZkBenchMode::DryRun, Ok(selected)) => {
                selected.reason@ == "full load-test range"@
            },
            (ZkBenchMode::DryRun, Err(error)) => {
                if summary.block_range.first_block is None {
                    error == ZkBenchError::NoFirstBlock
                } else if summary.block_range.last_block is None {
                    error == ZkBenchError::NoLastBlock
                } else {
                    &&& summary.block_range.last_block->0 < summary.block_range.first_block->0
                    &&& error == (ZkBenchError::InvalidTargetRange {
                        first_block: summary.block_range.first_block->0,
                        last_block: summary.block_range.last_block->0,
                    })
                }
            },
            (ZkBenchMode::Cluster, Ok(selected)) => exists|i: int| #[trigger]
                target::is_fullest(summary.block_load@, i) && summary.block_load@[i].block_number
                    == selected.first_block && selected.reason@ == "fullest block by gas: gas="@
                    + text::decimal(summary.block_load@[i].total_gas as nat) + ", txs="@
                    + text::decimal(summary.block_load@[i].confirmed_count as nat),
            (ZkBenchMode::Cluster, Err(error)) => {
                summary.block_load@.len() == 0 && error == ZkBenchError::EmptyLoadTest
            },
        },
        mode == ZkBenchMode::Cluster && r is Ok ==> summary.block_load@.len() > 0,
{
}

/// A dry run proves the whole range of the load test.
pub proof fn law_dry_run_proves_full_range(
    summary: MetricsSummary,
    selected: ZkBenchTargetRange,
)
    requires
        target::is_selected(summary, ZkBenchMode::DryRun, Ok(selected)),
    ensures
        summary.block_range.first_block == Some(selected.first_block),
        summary.block_range.last_block == Some(selected.last_block),
{
}

/// The cluster proves one block: a block of the load test than which none is
/// fuller.
pub proof fn law_cluster_proves_fullest_block(
    summary: MetricsSummary,
    selected: ZkBenchTargetRange,
)
    requires
        target::is_selected(summary, ZkBenchMode::Cluster, Ok(selected)),
    ensures
        selected.first_block == selected.last_block,
        exists|i: int|
            0 <= i < summary.block_load@.len() && (#[trigger] summary.block_load@[i]).block_number
                == selected.first_block && forall|j: int|
                0 <= j < summary.block_load@.len() ==> !target::fuller(
                    #[trigger] summary.block_load@[j],
                    summary.block_load@[i],
                ),
{
    let blocks = summary.block_load@;
    let i = choose|i: int| #[trigger]
        target::is_fullest(blocks, i) && target::is_single_block(blocks[i], Ok(selected));
    assert forall|j: int| 0 <= j < blocks.len() implies !target::fuller(
        #[trigger] blocks[j],
        blocks[i],
    ) by {
        law_fullest_tie_breaks(blocks, i, j);
    }
    assert(blocks[i].block_number == selected.first_block);
}

/// The same summary and mode always select the same blocks, for the same
/// reason, or fail with the same error.
pub proof fn law_selection_is_settled(
    summary: MetricsSummary,
    mode: ZkBenchMode,
    a: Result<ZkBenchTargetRange, ZkBenchError>,
    b: Result<ZkBenchTargetRange, ZkBenchError>,
)
    requires
        target::is_selected(summary, mode, a),
        target::is_selected(summary, mode, b),
    ensures
        match (a, b) {
            (Ok(x), Ok(y)) => {
                &&& x.first_block == y.first_block
                &&& x.last_block == y.last_block
                &&& x.reason@ == y.reason@
            },
            (Err(x), Err(y)) => x == y,
            _ => false,
        },
{
    if mode == ZkBenchMode::Cluster && summary.block_load@.len() > 0 {
        let blocks = summary.block_load@;
        let i = choose|i: int| #[trigger]
            target::is_fullest(blocks, i) && target::is_single_block(blocks[i], a);
        let j = choose|j: int| #[trigger]
            target::is_fullest(blocks, j) && target::is_single_block(blocks[j], b);
        law_fullest_is_unique(blocks, i, j);
    }
}

/// `event` reports a safe L2 head that covers `block_number`, under the L1 head
/// `l1_head`.
pub open spec fn reports_safe(event: BenchEvent, block_number: u64, l1_head: [u8; 32]) -> bool {
    event matches BenchEvent::Synced { safe_l2, head_l1 } && safe_l2 >= block_number && head_l1
        == l1_head
}

/// `event` reports a finished proof that came with `stats`.
pub open spec fn reports_proof(event: BenchEvent, stats: Option<ExecutionStats>) -> bool {
    event matches BenchEvent::Polled { status, execution_stats, .. } && status == Some(
        ProofJobStatus::Succeeded,
    ) && execution_stats == stats
}

/// The event at `k` came when the run needed `action` done.
pub open spec fn asked_at(
    start: BenchRun,
    events: Seq<BenchEvent>,
    k: int,
    action: BenchAction,
) -> bool {
    0 <= k < events.len() && start.after(events.take(k)).is_pending(action)
}

/// In the run that starts as `start`, the rollup node was asked for its sync
/// status and reported `block_number` as safe under `l1_head`.
pub open spec fn reported_safe(
    start: BenchRun,
    events: Seq<BenchEvent>,
    block_number: u64,
    l1_head: [u8; 32],
) -> bool {
    exists|k: int| #[trigger]
        asked_at(start, events, k, BenchAction::QuerySyncStatus) && reports_safe(
            events[k],
            block_number,
            l1_head,
        )
}

/// In the run that starts as `start`, the rollup node reported `block_number`
/// as safe under `l1_head`, and when asked for its output after that, had it.
pub open spec fn confirmed_safe(
    start: BenchRun,
    events: Seq<BenchEvent>,
    block_number: u64,
    l1_head: [u8; 32],
) -> bool {
    exists|k: int| #[trigger]
        asked_at(start, events, k, BenchAction::QueryOutput { block_number })
            && events[k] is OutputFound && reported_safe(
            start,
            events.take(k),
            block_number,
            l1_head,
        )
}

/// What the run needs done is a proof request.
pub open spec fn asks_for_proof(run: BenchRun) -> bool {
    forall|action: BenchAction| #[trigger] run.is_pending(action) ==> action is RequestProof
}

/// The event at `k` accepted a proof request under `session_id`.
pub open spec fn accepted_at(
    start: BenchRun,
    events: Seq<BenchEvent>,
    k: int,
    session_id: String,
) -> bool {
    &&& 0 <= k < events.len()
    &&& events[k] == (BenchEvent::Accepted { session_id })
    &&& asks_for_proof(start.after(events.take(k)))
}

/// In the run that starts as `start`, the prover accepted the proof request
/// under `session_id`.
pub open spec fn accepted(start: BenchRun, events: Seq<BenchEvent>, session_id: String) -> bool {
    exists|k: int| accepted_at(start, events, k, session_id)
}

/// The question for the state of the job of `session_id`.
pub open spec fn job_question(mode: ZkBenchMode, session_id: String) -> BenchAction {
    BenchAction::QueryProof {
        query: GetProofRequest { session_id, receipt_type: poll::receipt_of(mode) },
    }
}

/// In the run that starts as `start`, the prover was asked for the job of
/// `session_id` and reported it finished, with `stats`.
pub open spec fn reported_proof(
    start: BenchRun,
    events: Seq<BenchEvent>,
    mode: ZkBenchMode,
    session_id: String,
    stats: Option<ExecutionStats>,
) -> bool {
    exists|k: int| #[trigger]
        asked_at(start, events, k, job_question(mode, session_id)) && reports_proof(
            events[k],
            stats,
        )
}

/// What is known of the run that starts as `start` with `config`, once `events`
/// have brought it to `run`.
spec fn reachable(
    start: BenchRun,
    config: ZkBenchConfig,
    events: Seq<BenchEvent>,
    run: BenchRun,
) -> bool {
    let first = start.target.first_block;
    let last = start.target.last_block;
    &&& run.target == start.target
    &&& match run.stage {
        BenchStage::Connecting { config: c } => c == config,
        BenchStage::Failed { error } => true,
        BenchStage::Proving { run } => match run {
            SafeProofRun::Waiting { first_block, wait, config: c } => {
                &&& c == config
                &&& first_block == first
                &&& wait.block_number == last
                &&& wait.stage.waiting()
                &&& wait.stage matches SafeL2Stage::CheckingOutput { l1_head } ==> reported_safe(
                    start,
                    events,
                    last,
                    l1_head,
                )
            },
            SafeProofRun::Proving { run } => {
                &&& run.config == config
                &&& run.start_block_number + 1 == first
                &&& run.start_block_number + run.number_of_blocks_to_prove == last
                &&& confirmed_safe(start, events, last, run.l1_head)
                &&& match run.stage {
                    ProofStage::Polling { poll } => {
                        &&& poll.stage.polling()
                        &&& poll.mode == config.mode
                        &&& accepted(start, events, poll.session_id)
                    },
                    ProofStage::Proved { session_id, execution_stats } => {
                        &&& accepted(start, events, session_id)
                        &&& reported_proof(
                            start,
                            events,
                            config.mode,
                            session_id,
                            execution_stats,
                        )
                    },
                    _ => true,
                }
            },
            SafeProofRun::Failed { error } => true,
        },
    }
}

/// What was answered stays answered as events happen.
proof fn lemma_answers_grow(start: BenchRun, events: Seq<BenchEvent>, event: BenchEvent)
    ensures
        forall|b: u64, h: [u8; 32]| #[trigger]
            reported_safe(start, events, b, h) ==> reported_safe(start, events.push(event), b, h),
        forall|b: u64, h: [u8; 32]| #[trigger]
            confirmed_safe(start, events, b, h) ==> confirmed_safe(start, events.push(event), b, h),
        forall|s: String| #[trigger]
            accepted(start, events, s) ==> accepted(start, events.push(event), s),
        forall|m: ZkBenchMode, s: String, t: Option<ExecutionStats>| #[trigger]
            reported_proof(start, events, m, s, t) ==> reported_proof(
                start,
                events.push(event),
                m,
                s,
                t,
            ),
        events.push(event).take(events.len() as int) == events,
        events.push(event)[events.len() as int] == event,
{
    let more = events.push(event);
    assert(more.take(events.len() as int) =~= events);
    assert forall|b: u64, h: [u8; 32]| #[trigger]
        reported_safe(start, events, b, h) implies reported_safe(start, more, b, h) by {
        let k = choose|k: int| #[trigger]
            asked_at(start, events, k, BenchAction::QuerySyncStatus) && reports_safe(
                events[k],
                b,
                h,
            );
        assert(more.take(k) =~= events.take(k));
        assert(asked_at(start, more, k, BenchAction::QuerySyncStatus));
    }
    assert forall|b: u64, h: [u8; 32]| #[trigger]
        confirmed_safe(start, events, b, h) implies confirmed_safe(start, more, b, h) by {
        let action = BenchAction::QueryOutput { block_number: b };
        let k = choose|k: int| #[trigger]
            asked_at(start, events, k, action) && events[k] is OutputFound && reported_safe(
                start,
                events.take(k),
                b,
                h,
            );
        assert(more.take(k) =~= events.take(k));
        assert(asked_at(start, more, k, action));
    }
    assert forall|s: String| #[trigger] accepted(start, events, s) implies accepted(
        start,
        more,
        s,
    ) by {
        let k = choose|k: int| accepted_at(start, events, k, s);
        assert(more.take(k) =~= events.take(k));
        assert(accepted_at(start, more, k, s));
    }
    assert forall|m: ZkBenchMode, s: String, t: Option<ExecutionStats>| #[trigger]
        reported_proof(start, events, m, s, t) implies reported_proof(start, more, m, s, t) by {
        let k = choose|k: int| #[trigger]
            asked_at(start, events, k, job_question(m, s)) && reports_proof(events[k], t);
        assert(more.take(k) =~= events.take(k));
        assert(asked_at(start, more, k, job_question(m, s)));
    }
}

/// What is known of a run stays known as events happen.
proof fn lemma_reachable_step(
    start: BenchRun,
    config: ZkBenchConfig,
    events: Seq<BenchEvent>,
    event: BenchEvent,
)
    requires
        reachable(start, config, events, start.after(events)),
    ensures
        reachable(start, config, events.push(event), start.after(events).next(event)),
{
    lemma_answers_grow(start, events, event);
    let more = events.push(event);
    let now = events.len() as int;
    match start.after(events).stage {
        BenchStage::Proving { run: SafeProofRun::Waiting { first_block, wait, config: c } } => {
            match (wait.stage, event) {
                (SafeL2Stage::Syncing, BenchEvent::Synced { safe_l2, head_l1 }) => {
                    assert(asked_at(start, more, now, BenchAction::QuerySyncStatus));
                    if safe_l2 >= wait.block_number {
                        assert(reported_safe(start, more, wait.block_number, head_l1));
                    }
                },
                (SafeL2Stage::CheckingOutput { l1_head }, BenchEvent::OutputFound) => {
                    assert(asked_at(
                        start,
                        more,
                        now,
                        BenchAction::QueryOutput { block_number: wait.block_number },
                    ));
                    assert(confirmed_safe(start, more, wait.block_number, l1_head));
                },
                _ => {},
            }
        },
        BenchStage::Proving { run: SafeProofRun::Proving { run } } => {
            match (run.stage, event) {
                (ProofStage::Requesting, BenchEvent::Accepted { session_id }) => {
                    assert(accepted_at(start, more, now, session_id));
                },
                (
                    ProofStage::Polling { poll },
                    BenchEvent::Polled { status, execution_stats, .. },
                ) => {
                    if poll.stage is Asking && status == Some(ProofJobStatus::Succeeded) {
                        assert(asked_at(
                            start,
                            more,
                            now,
                            job_question(config.mode, poll.session_id),
                        ));
                        assert(reported_proof(
                            start,
                            more,
                            config.mode,
                            poll.session_id,
                            execution_stats,
                        ));
                    }
                },
                _ => {},
            }
        },
        _ => {},
    }
}

/// What is known of a run holds whatever happens.
proof fn lemma_reachable(start: BenchRun, config: ZkBenchConfig, events: Seq<BenchEvent>)
    requires
        start.stage == (BenchStage::Connecting { config }),
    ensures
        reachable(start, config, events, start.after(events)),
    decreases events.len(),
{
    if events.len() > 0 {
        let init = events.drop_last();
        lemma_reachable(start, config, init);
        lemma_reachable_step(start, config, init, events.last());
        assert(init.push(events.last()) =~= events);
    }
}

/// Whatever the rollup node and the prover answer, a proof is requested only
/// after the rollup node reported the last block of the target as safe and then
/// delivered its output. The request covers the target, neither more nor less,
/// and names the L1 head of that report.
pub proof fn law_proof_is_requested_for_safe_target(
    load: MetricsSummary,
    config: ZkBenchConfig,
    start: BenchRun,
    events: Seq<BenchEvent>,
    action: BenchAction,
)
    requires
        run::is_start(load, config, Ok(start)),
        start.after(events).is_pending(action),
        action is RequestProof,
    ensures
        action->request.start_block_number + 1 == start.target.first_block,
        action->request.start_block_number + action->request.number_of_blocks_to_prove
            == start.target.last_block,
        exists|l1_head: [u8; 32]| #[trigger]
            confirmed_safe(start, events, start.target.last_block, l1_head)
                && action->request.l1_head is Some && action->request.l1_head->0@
                == text::hex_text(l1_head@),
{
    lemma_reachable(start, config, events);
}

/// Once a run has its result, nothing that happens changes it.
pub proof fn law_result_is_final(
    load: MetricsSummary,
    config: ZkBenchConfig,
    start: BenchRun,
    events: Seq<BenchEvent>,
    event: BenchEvent,
)
    requires
        run::is_start(load, config, Ok(start)),
        start.after(events).is_pending(BenchAction::Finish),
    ensures
        start.after(events).next(event) == start.after(events),
{
    lemma_reachable(start, config, events);
}

/// A run has its result exactly when it needs nothing done.
pub proof fn law_finish_means_result(
    load: MetricsSummary,
    config: ZkBenchConfig,
    start: BenchRun,
    events: Seq<BenchEvent>,
    r: Option<Result<ZkBenchSummary, ZkBenchError>>,
)
    requires
        run::is_start(load, config, Ok(start)),
        start.after(events).is_result(r),
    ensures
        r is Some <==> start.after(events).is_pending(BenchAction::Finish),
{
    lemma_reachable(start, config, events);
}

/// A summary tells of the target: its proof covers the blocks of the target
/// under an L1 head that they were safe with, in the mode asked for, and under a
/// session that the prover opened for the request. The prover reported the proof
/// of that session finished, and the stats of the summary are those that came
/// with the report.
pub proof fn law_summary_tells_of_target(
    load: MetricsSummary,
    config: ZkBenchConfig,
    start: BenchRun,
    events: Seq<BenchEvent>,
    r: ZkBenchSummary,
)
    requires
        run::is_start(load, config, Ok(start)),
        start.after(events).is_result(Some(Ok(r))),
    ensures
        r.target == start.target,
        r.proof_outcome.mode == config.mode,
        r.proof_outcome.start_block_number + 1 == start.target.first_block,
        r.proof_outcome.start_block_number + r.proof_outcome.number_of_blocks_to_prove
            == start.target.last_block,
        exists|l1_head: [u8; 32]| #[trigger]
            confirmed_safe(start, events, start.target.last_block, l1_head)
                && r.proof_outcome.l1_head@ == text::hex_text(l1_head@),
        accepted(start, events, r.proof_outcome.session_id),
        exists|stats: Option<ExecutionStats>| #[trigger]
            reported_proof(start, events, config.mode, r.proof_outcome.session_id, stats)
                && summary::summarizes_stats(r.execution_stats, stats),
{
    lemma_reachable(start, config, events);
}

/// A block that is not safe yet is asked for again: the report and the pause
/// after it leave the wait as it was.
pub proof fn law_unsafe_block_is_asked_for_again(
    wait: SafeL2Wait,
    safe_l2: u64,
    head_l1: [u8; 32],
)
    requires
        wait.stage is Syncing,
        safe_l2 < wait.block_number,
    ensures
        wait.next(BenchEvent::Synced { safe_l2, head_l1 }).next(BenchEvent::PauseOver) == wait,
{
}

/// A job that is neither finished nor failed is asked for again: the answer and
/// the pause after it leave the polling as it was.
pub proof fn law_unfinished_job_is_asked_for_again(poll: ProofPoll, event: BenchEvent)
    requires
        poll.stage is Asking,
        event matches BenchEvent::Polled { status, .. } && status != Some(ProofJobStatus::Succeeded)
            && status != Some(ProofJobStatus::Failed),
    ensures
        poll.next(event).next(BenchEvent::PauseOver) == poll,
{
}

/// Good answers give a proof: where the rollup node connects, reports the
/// target as safe and delivers its output, and the prover connects, accepts the
/// request and finishes the job, the run ends with the proof that the prover
/// reported. The genesis block alone cannot be proved.
pub proof fn law_good_answers_give_a_proof(
    start: BenchRun,
    config: ZkBenchConfig,
    safe_l2: u64,
    head_l1: [u8; 32],
    session_id: String,
    error_message: Option<String>,
    execution_stats: Option<ExecutionStats>,
    elapsed_nanos: u64,
)
    requires
        start.stage == (BenchStage::Connecting { config }),
        start.target.well_formed(),
        safe_l2 >= start.target.last_block,
    ensures
        ({
            let safe = start.next(BenchEvent::Connected).next(
                BenchEvent::Synced { safe_l2, head_l1 },
            ).next(BenchEvent::OutputFound);
            let proved = safe.next(BenchEvent::Connected).next(
                BenchEvent::Accepted { session_id },
            ).next(
                BenchEvent::Polled {
                    status: Some(ProofJobStatus::Succeeded),
                    error_message,
                    execution_stats,
                    elapsed_nanos,
                },
            );
            if start.target.first_block == 0 {
                safe.is_result(Some(Err(ZkBenchError::GenesisBlock)))
            } else {
                proved.stage == (BenchStage::Proving {
                    run: SafeProofRun::Proving {
                        run: ProofRun {
                            start_block_number: (start.target.first_block - 1) as u64,
                            number_of_blocks_to_prove: (start.target.last_block
                                - start.target.first_block + 1) as u64,
                            l1_head: head_l1,
                            config,
                            stage: ProofStage::Proved { session_id, execution_stats },
                        },
                    },
                })
            }
        }),
{
}

/// The event at `k` came when the wait needed the sync status, and reported the
/// block as safe under `l1_head`.
pub open spec fn wait_reported_at(
    start: SafeL2Wait,
    events: Seq<BenchEvent>,
    k: int,
    l1_head: [u8; 32],
) -> bool {
    &&& 0 <= k < events.len()
    &&& start.after(events.take(k)).pending() is QuerySyncStatus
    &&& reports_safe(events[k], start.block_number, l1_head)
}

/// In the wait that starts as `start`, the rollup node reported the block as
/// safe under `l1_head`.
pub open spec fn wait_reported(
    start: SafeL2Wait,
    events: Seq<BenchEvent>,
    l1_head: [u8; 32],
) -> bool {
    exists|k: int| wait_reported_at(start, events, k, l1_head)
}

/// The event at `k` came when the wait needed the output, which is there; and
/// before it the rollup node reported the block as safe under `l1_head`.
pub open spec fn wait_confirmed_at(
    start: SafeL2Wait,
    events: Seq<BenchEvent>,
    k: int,
    l1_head: [u8; 32],
) -> bool {
    &&& 0 <= k < events.len()
    &&& start.after(events.take(k)).pending() == (BenchAction::QueryOutput {
        block_number: start.block_number,
    })
    &&& events[k] is OutputFound
    &&& wait_reported(start, events.take(k), l1_head)
}

/// In the wait that starts as `start`, the rollup node reported the block as
/// safe under `l1_head`, and when asked for its output after that, had it.
pub open spec fn wait_confirmed(
    start: SafeL2Wait,
    events: Seq<BenchEvent>,
    l1_head: [u8; 32],
) -> bool {
    exists|k: int| wait_confirmed_at(start, events, k, l1_head)
}

/// A wait for a block ends well only with an L1 head under which the rollup
/// node reported the block as safe before it delivered its output.
pub proof fn law_wait_ends_with_safe_head(
    start: SafeL2Wait,
    events: Seq<BenchEvent>,
    l1_head: [u8; 32],
)
    requires
        start.stage is Syncing,
        start.after(events).stage == (SafeL2Stage::Safe { l1_head }),
    ensures
        wait_confirmed(start, events, l1_head),
{
    lemma_wait(start, events);
}

/// What is known of a wait holds whatever happens.
proof fn lemma_wait(start: SafeL2Wait, events: Seq<BenchEvent>)
    requires
        start.stage is Syncing,
    ensures
        start.after(events).block_number == start.block_number,
        match start.after(events).stage {
            SafeL2Stage::CheckingOutput { l1_head } => wait_reported(start, events, l1_head),
            SafeL2Stage::Safe { l1_head } => wait_confirmed(start, events, l1_head),
            _ => true,
        },
    decreases events.len(),
{
    if events.len() > 0 {
        let init = events.drop_last();
        let now = init.len() as int;
        lemma_wait(start, init);
        assert(events.take(now) =~= init);
        match (start.after(init).stage, events.last()) {
            (SafeL2Stage::Syncing, BenchEvent::Synced { safe_l2, head_l1 }) => {
                if safe_l2 >= start.block_number {
                    assert(wait_reported_at(start, events, now, head_l1));
                }
            },
            (SafeL2Stage::CheckingOutput { l1_head }, BenchEvent::OutputFound) => {
                assert(wait_confirmed_at(start, events, now, l1_head));
            },
            (SafeL2Stage::CheckingOutput { l1_head }, _) => {
                let k = choose|k: int| wait_reported_at(start, init, k, l1_head);
                assert(events.take(k) =~= init.take(k));
                assert(wait_reported_at(start, events, k, l1_head));
            },
            (SafeL2Stage::Safe { l1_head }, _) => {
                let k = choose|k: int| wait_confirmed_at(start, init, k, l1_head);
                assert(events.take(k) =~= init.take(k));
                assert(wait_confirmed_at(start, events, k, l1_head));
            },
            _ => {},
        }
    }
}

/// A wait goes on until the block is safe with its output, a request fails, or
/// the time is over.
pub proof fn law_wait_ends_for_a_reason(wait: SafeL2Wait, event: BenchEvent)
    requires
        wait.stage.waiting(),
        !wait.next(event).stage.waiting(),
    ensures
        event is OutputFound || event is Failed || event is TimedOut,
{
}

/// A polling is answered at `k` what it then needs done: the report of a
/// finished proof that came with `stats`.
pub open spec fn poll_reported_at(
    start: ProofPoll,
    events: Seq<BenchEvent>,
    k: int,
    stats: Option<ExecutionStats>,
) -> bool {
    &&& 0 <= k < events.len()
    &&& start.after(events.take(k)).pending() == job_question(start.mode, start.session_id)
    &&& reports_proof(events[k], stats)
}

/// A polling ends well only with stats that the prover, asked for the job, sent
/// with a finished proof.
pub proof fn law_poll_returns_reported_stats(
    start: ProofPoll,
    events: Seq<BenchEvent>,
    stats: Option<ExecutionStats>,
)
    requires
        start.stage is Asking,
        start.after(events).stage == (PollStage::Succeeded { execution_stats: stats }),
    ensures
        exists|k: int| poll_reported_at(start, events, k, stats),
    decreases events.len(),
{
    if events.len() > 0 {
        let init = events.drop_last();
        law_poll_keeps_job(start, init);
        assert(events.take(init.len() as int) =~= init);
        if start.after(init).stage == (PollStage::Succeeded { execution_stats: stats }) {
            law_poll_returns_reported_stats(start, init, stats);
            let k = choose|k: int| poll_reported_at(start, init, k, stats);
            assert(events.take(k) =~= init.take(k));
            assert(poll_reported_at(start, events, k, stats));
        } else {
            assert(poll_reported_at(start, events, init.len() as int, stats));
        }
    }
}

/// A polling stays with its job: whatever is answered, it asks for the state of
/// that job, with the receipt of its mode, and for nothing else.
pub proof fn law_poll_keeps_job(start: ProofPoll, events: Seq<BenchEvent>)
    ensures
        start.after(events).session_id == start.session_id,
        start.after(events).mode == start.mode,
        start.after(events).pending() is QueryProof ==> start.after(events).pending()
            == job_question(start.mode, start.session_id),
    decreases events.len(),
{
    if events.len() > 0 {
        law_poll_keeps_job(start, events.drop_last());
    }
}

/// A polling goes on until the job succeeds or fails, a request fails, or the
/// time is over.
pub proof fn law_poll_ends_for_a_reason(poll: ProofPoll, event: BenchEvent)
    requires
        poll.stage.polling(),
        !poll.next(event).stage.polling(),
    ensures
        event is Failed || event is TimedOut || (event matches BenchEvent::Polled {
            status,
            ..
        } && (status == Some(ProofJobStatus::Succeeded) || status == Some(
            ProofJobStatus::Failed,
        ))),
{
}

/// Whatever the mode and the answers, a benchmark turns to the rollup node and
/// to the prover of its configuration, and to no other.
pub proof fn law_run_turns_to_configured_services(
    load: MetricsSummary,
    config: ZkBenchConfig,
    start: BenchRun,
    events: Seq<BenchEvent>,
    action: BenchAction,
)
    requires
        run::is_start(load, config, Ok(start)),
        start.after(events).is_pending(action),
    ensures
        match action {
            BenchAction::ConnectRollup { url } => url == config.rollup_rpc_url,
            BenchAction::ConnectProver { client } => {
                &&& client.endpoint == config.prover_url
                &&& client.connect_timeout_secs == 10
                &&& client.request_timeout_secs == 30
            },
            _ => true,
        },
{
    lemma_reachable(start, config, events);
}

/// A rollup node whose safe head is below the target, however far, is asked
/// again: the report and the pause after it leave the benchmark as it was.
pub proof fn law_lagging_node_is_asked_again(
    load: MetricsSummary,
    config: ZkBenchConfig,
    start: BenchRun,
    events: Seq<BenchEvent>,
    safe_l2: u64,
    head_l1: [u8; 32],
    action: BenchAction,
)
    requires
        run::is_start(load, config, Ok(start)),
        start.after(events).is_pending(BenchAction::QuerySyncStatus),
        safe_l2 < start.target.last_block,
        start.after(events).next(BenchEvent::Synced { safe_l2, head_l1 }).is_pending(action),
    ensures
        action is Pause,
        start.after(events).next(BenchEvent::Synced { safe_l2, head_l1 }).next(
            BenchEvent::PauseOver,
        ) == start.after(events),
{
    lemma_reachable(start, config, events);
}

/// A job that the prover reports neither finished nor failed, whatever else it
/// says of it, is asked for again: the report and the pause after it leave the
/// benchmark as it was.
pub proof fn law_run_asks_for_unfinished_job_again(
    load: MetricsSummary,
    config: ZkBenchConfig,
    start: BenchRun,
    events: Seq<BenchEvent>,
    question: BenchAction,
    report: BenchEvent,
    action: BenchAction,
)
    requires
        run::is_start(load, config, Ok(start)),
        start.after(events).is_pending(question),
        question is QueryProof,
        report matches BenchEvent::Polled { status, .. } && status != Some(
            ProofJobStatus::Succeeded,
        ) && status != Some(ProofJobStatus::Failed),
        start.after(events).next(report).is_pending(action),
    ensures
        action is Pause,
        start.after(events).next(report).next(BenchEvent::PauseOver) == start.after(events),
{
    lemma_reachable(start, config, events);
}

/// A benchmark that needed `action` done and was answered `event` has come to
/// `error` for that.
pub open spec fn is_reason(
    start: BenchRun,
    config: ZkBenchConfig,
    events: Seq<BenchEvent>,
    action: BenchAction,
    event: BenchEvent,
    error: ZkBenchError,
) -> bool {
    match (error, action, event) {
        (
            ZkBenchError::RollupConnect { url, cause },
            BenchAction::ConnectRollup { url: asked },
            BenchEvent::Failed { cause: said },
        ) => url == config.rollup_rpc_url && asked == url && said == cause,
        (
            ZkBenchError::Rollup { cause },
            BenchAction::QuerySyncStatus | BenchAction::QueryOutput { .. },
            BenchEvent::Failed { cause: said },
        ) => said == cause,
        (
            ZkBenchError::SafeL2Timeout { cause },
            BenchAction::QuerySyncStatus
            | BenchAction::QueryOutput { .. }
            | BenchAction::Pause { .. },
            BenchEvent::TimedOut { cause: said },
        ) => said == cause,
        (
            ZkBenchError::GenesisBlock,
            BenchAction::QueryOutput { .. },
            BenchEvent::OutputFound,
        ) => start.target.first_block == 0,
        (
            ZkBenchError::Prover { cause },
            BenchAction::ConnectProver { .. }
            | BenchAction::RequestProof { .. }
            | BenchAction::QueryProof { .. },
            BenchEvent::Failed { cause: said },
        ) => said == cause,
        (
            ZkBenchError::ProofFailed { elapsed_nanos, message },
            BenchAction::QueryProof { query },
            BenchEvent::Polled { status, error_message, elapsed_nanos: elapsed, .. },
        ) => {
            &&& status == Some(ProofJobStatus::Failed)
            &&& message == error_message
            &&& elapsed_nanos == elapsed
            &&& accepted(start, events, query.session_id)
        },
        (
            ZkBenchError::ProofTimeout { session_id, cause },
            BenchAction::QueryProof { .. } | BenchAction::Pause { .. },
            BenchEvent::TimedOut { cause: said },
        ) => said == cause && accepted(start, events, session_id),
        _ => false,
    }
}

/// The event at `k` is the reason for which the benchmark came to `error`.
pub open spec fn ended_at(
    start: BenchRun,
    config: ZkBenchConfig,
    events: Seq<BenchEvent>,
    k: int,
    error: ZkBenchError,
) -> bool {
    &&& 0 <= k < events.len()
    &&& forall|action: BenchAction| #[trigger]
        start.after(events.take(k)).is_pending(action) ==> is_reason(
            start,
            config,
            events,
            action,
            events[k],
            error,
        )
}

/// A benchmark comes to an error only for a reason that an answer gave: a
/// connection or a request failed, a time was over, the prover reported the job
/// failed, or a target that starts with the genesis block became safe. The error
/// says what the answer said.
pub proof fn law_error_has_a_reason(
    load: MetricsSummary,
    config: ZkBenchConfig,
    start: BenchRun,
    events: Seq<BenchEvent>,
    error: ZkBenchError,
)
    requires
        run::is_start(load, config, Ok(start)),
        start.after(events).is_result(Some(Err(error))),
    ensures
        exists|k: int| ended_at(start, config, events, k, error),
    decreases events.len(),
{
    if events.len() > 0 {
        let init = events.drop_last();
        let event = events.last();
        let now = init.len() as int;
        lemma_reachable(start, config, init);
        lemma_answers_grow(start, init, event);
        assert(init.push(event) =~= events);
        if start.after(init).is_result(Some(Err(error))) {
            law_error_has_a_reason(load, config, start, init, error);
            let k = choose|k: int| ended_at(start, config, init, k, error);
            assert(events.take(k) =~= init.take(k));
            assert forall|action: BenchAction| #[trigger]
                start.after(events.take(k)).is_pending(action) implies is_reason(
                start,
                config,
                events,
                action,
                events[k],
                error,
            ) by {
                assert(start.after(init.take(k)).is_pending(action));
                assert(is_reason(start, config, init, action, init[k], error));
            }
            assert(ended_at(start, config, events, k, error));
        } else {
            assert(ended_at(start, config, events, now, error));
        }
    }
}

} // verus!
