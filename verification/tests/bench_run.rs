use zk_benchmarks::poll::{PollStage, ProofPoll};
use zk_benchmarks::prove::{ProofRun, ProofStage};
use zk_benchmarks::run::BenchRun;
use zk_benchmarks::safe_l2::SafeL2Stage;
use zk_benchmarks::service::{
    BenchAction, BenchEvent, GetProofRequest, ProofJobStatus, ProofType, ReceiptType,
};
use zk_benchmarks::tracker::CycleEntry;
use zk_benchmarks::{
    BlockLoadMetrics, BlockRange, ExecutionStats, MetricsSummary, RpcUrl, ZkBenchConfig,
    ZkBenchError, ZkBenchMode, ZkBenchRunner,
};

fn config(mode: ZkBenchMode) -> ZkBenchConfig {
    ZkBenchConfig::new(
        RpcUrl::parse("http://localhost:8649").unwrap(),
        RpcUrl::parse("http://localhost:9000").unwrap(),
        mode,
    )
}

fn load(first_block: u64, last_block: u64) -> MetricsSummary {
    MetricsSummary {
        block_range: BlockRange {
            first_block: Some(first_block),
            last_block: Some(last_block),
            block_count: 1,
        },
        block_load: vec![BlockLoadMetrics {
            block_number: first_block,
            confirmed_count: 1,
            reverted_count: 0,
            total_gas: 1,
        }],
        ..MetricsSummary::default()
    }
}

fn start(first_block: u64, last_block: u64) -> BenchRun {
    ZkBenchRunner::run(&load(first_block, last_block), config(ZkBenchMode::DryRun)).unwrap()
}

fn synced(safe_l2: u64, fill: u8) -> BenchEvent {
    BenchEvent::Synced { safe_l2, head_l1: [fill; 32] }
}

fn polled(status: Option<ProofJobStatus>) -> BenchEvent {
    BenchEvent::Polled { status, error_message: None, execution_stats: None, elapsed_nanos: 0 }
}

fn failed(cause: &str) -> BenchEvent {
    BenchEvent::Failed { cause: cause.to_string() }
}

fn timed_out() -> BenchEvent {
    BenchEvent::TimedOut { cause: "elapsed".to_string() }
}

fn stats() -> ExecutionStats {
    ExecutionStats {
        total_instruction_cycles: 123,
        total_sp1_gas: 456,
        cycle_tracker: vec![
            CycleEntry { name: "verify".to_string(), cycles: 2 },
            CycleEntry { name: "decode".to_string(), cycles: 1 },
        ],
        witness_generation_ms: 1.5f64.to_bits(),
        execution_ms: 2.25f64.to_bits(),
    }
}

/// A run whose target is safe.
fn safe(first_block: u64, last_block: u64) -> BenchRun {
    start(first_block, last_block)
        .on(BenchEvent::Connected)
        .on(synced(last_block, 0xab))
        .on(BenchEvent::OutputFound)
}

/// A run whose proof job is polled.
fn polling() -> BenchRun {
    safe(10, 15)
        .on(BenchEvent::Connected)
        .on(BenchEvent::Accepted { session_id: "s-1".to_string() })
}

#[test]
fn run_goes_from_summary_to_summary() {
    let run = start(10, 15);
    match run.action() {
        BenchAction::ConnectRollup { url } => assert_eq!(url.as_str(), "http://localhost:8649/"),
        other => panic!("{other:?}"),
    }
    assert_eq!(run.budget(), None);

    let run = run.on(BenchEvent::Connected);
    assert_eq!(run.action(), BenchAction::QuerySyncStatus);
    assert_eq!(run.budget(), Some(300_000_000_000));

    let run = run.on(synced(14, 1));
    assert_eq!(run.action(), BenchAction::Pause { nanos: 500_000_000 });
    let run = run.on(BenchEvent::PauseOver);
    assert_eq!(run.action(), BenchAction::QuerySyncStatus);
    let run = run.on(synced(15, 0xab));
    assert_eq!(run.action(), BenchAction::QueryOutput { block_number: 15 });
    let run = run.on(BenchEvent::OutputFound);

    match run.action() {
        BenchAction::ConnectProver { client } => {
            assert_eq!(client.endpoint.as_str(), "http://localhost:9000/");
            assert_eq!(client.connect_timeout_secs, 10);
            assert_eq!(client.request_timeout_secs, 30);
        }
        other => panic!("{other:?}"),
    }
    assert_eq!(run.budget(), None);
    let run = run.on(BenchEvent::Connected);
    match run.action() {
        BenchAction::RequestProof { request } => {
            assert_eq!(request.start_block_number, 9);
            assert_eq!(request.number_of_blocks_to_prove, 6);
            assert_eq!(request.sequence_window, None);
            assert_eq!(request.proof_type, ProofType::Compressed);
            assert_eq!(request.session_id, None);
            assert_eq!(request.prover_address, None);
            assert_eq!(
                request.l1_head.unwrap(),
                "0xabababababababababababababababababababababababababababababababab"
            );
            assert_eq!(request.intermediate_root_interval, None);
        }
        other => panic!("{other:?}"),
    }

    let run = run.on(BenchEvent::Accepted { session_id: "s-1".to_string() });
    assert_eq!(run.budget(), Some(900_000_000_000));
    assert_eq!(
        run.action(),
        BenchAction::QueryProof {
            query: GetProofRequest {
                session_id: "s-1".to_string(),
                receipt_type: Some(ReceiptType::Stark),
            },
        }
    );
    let run = run.on(polled(Some(ProofJobStatus::Pending)));
    assert_eq!(run.action(), BenchAction::Pause { nanos: 5_000_000_000 });
    let run = run.on(BenchEvent::PauseOver).on(BenchEvent::Polled {
        status: Some(ProofJobStatus::Succeeded),
        error_message: None,
        execution_stats: Some(stats()),
        elapsed_nanos: 7,
    });
    assert_eq!(run.action(), BenchAction::Finish);
    assert_eq!(run.budget(), None);

    let summary = run.into_result().unwrap().unwrap();
    assert_eq!((summary.target.first_block, summary.target.last_block), (10, 15));
    assert_eq!(summary.proof_outcome.mode, ZkBenchMode::DryRun);
    assert_eq!(summary.proof_outcome.session_id, "s-1");
    assert_eq!(summary.proof_outcome.start_block_number, 9);
    assert_eq!(summary.proof_outcome.number_of_blocks_to_prove, 6);
    assert_eq!(
        summary.proof_outcome.l1_head,
        "0xabababababababababababababababababababababababababababababababab"
    );
    let stats = summary.execution_stats.unwrap();
    assert_eq!(stats.total_instruction_cycles, 123);
    assert_eq!(stats.total_sp1_gas, 456);
    assert_eq!(f64::from_bits(stats.witness_generation_ms), 1.5);
    assert_eq!(f64::from_bits(stats.execution_ms), 2.25);
    let names: Vec<&str> = stats.cycle_tracker.iter().map(|e| e.name.as_str()).collect();
    assert_eq!(names, ["decode", "verify"]);
}

#[test]
fn failed_load_test_is_not_proved() {
    let summary = MetricsSummary { error: Some("no funds".to_string()), ..load(1, 2) };
    let error = ZkBenchRunner::run(&summary, config(ZkBenchMode::DryRun)).unwrap_err();
    assert_eq!(error.message(), "load test failed before ZK bench target selection: no funds");
    assert_eq!(error.cause(), None);
}

#[test]
fn load_test_without_range_is_not_proved() {
    let error = ZkBenchRunner::run(&MetricsSummary::default(), config(ZkBenchMode::DryRun))
        .unwrap_err();
    assert_eq!(error, ZkBenchError::NoFirstBlock);
}

#[test]
fn unreachable_rollup_is_reported() {
    let run = start(1, 2).on(failed("connection refused"));
    assert_eq!(run.action(), BenchAction::Finish);
    let error = run.into_result().unwrap().unwrap_err();
    assert_eq!(error.message(), "failed to connect rollup RPC http://localhost:8649/");
    assert_eq!(error.cause(), Some("connection refused"));
}

#[test]
fn rollup_failures_end_the_wait() {
    let run = start(1, 2).on(BenchEvent::Connected).on(failed("bad gateway"));
    let error = run.into_result().unwrap().unwrap_err();
    assert_eq!(error, ZkBenchError::Rollup { cause: "bad gateway".to_string() });
    assert_eq!(error.message(), "bad gateway");
    assert_eq!(error.cause(), None);

    let run = start(1, 2).on(BenchEvent::Connected).on(synced(2, 0)).on(failed("no output"));
    assert_eq!(run.into_result().unwrap().unwrap_err().message(), "no output");
}

#[test]
fn wait_times_out_in_every_part() {
    for events in [vec![], vec![synced(1, 0)], vec![synced(2, 0)]] {
        let mut run = start(1, 2).on(BenchEvent::Connected);
        for event in events {
            run = run.on(event);
        }
        let error = run.on(timed_out()).into_result().unwrap().unwrap_err();
        assert_eq!(error, ZkBenchError::SafeL2Timeout { cause: "elapsed".to_string() });
        assert_eq!(error.cause(), Some("elapsed"));
        assert_eq!(error.message(), "timed out waiting for workload block to become safe");
    }
}

#[test]
fn genesis_is_refused_once_it_is_safe() {
    let run = start(0, 3).on(BenchEvent::Connected);
    assert_eq!(run.action(), BenchAction::QuerySyncStatus);
    let run = run.on(synced(3, 0)).on(BenchEvent::OutputFound);
    let error = run.into_result().unwrap().unwrap_err();
    assert_eq!(error, ZkBenchError::GenesisBlock);
    assert_eq!(error.message(), "cannot prove genesis block with one-block range");
}

#[test]
fn proof_of_reversed_range_is_refused() {
    let error = ZkBenchRunner::prove_block_range(5, 4, [0; 32], config(ZkBenchMode::Cluster))
        .unwrap_err();
    assert_eq!(error.message(), "invalid workload block range: 5..=4");
    let error = ZkBenchRunner::prove_block_range(1, 0, [0; 32], config(ZkBenchMode::Cluster))
        .unwrap_err();
    assert_eq!(error, ZkBenchError::InvalidWorkloadRange { first_block: 1, last_block: 0 });
}

#[test]
fn proof_of_longest_range_is_counted() {
    let run: ProofRun =
        ZkBenchRunner::prove_block_range(1, u64::MAX, [7; 32], config(ZkBenchMode::Cluster))
            .unwrap();
    assert_eq!(run.start_block_number, 0);
    assert_eq!(run.number_of_blocks_to_prove, u64::MAX);
    assert_eq!(run.stage, ProofStage::Dialing);
    assert_eq!(run.into_result(), None);
}

#[test]
fn safe_range_run_waits_for_last_block() {
    let run = ZkBenchRunner::prove_safe_block_range(3, 8, config(ZkBenchMode::Cluster));
    assert_eq!(run.action(), BenchAction::QuerySyncStatus);
    assert_eq!(run.budget(), Some(300_000_000_000));
    let run = run.on(synced(8, 2));
    assert_eq!(run.action(), BenchAction::QueryOutput { block_number: 8 });
    let run = run.on(BenchEvent::OutputFound).on(failed("refused"));
    assert_eq!(
        run.into_result().unwrap().unwrap_err(),
        ZkBenchError::Prover { cause: "refused".to_string() }
    );
}

#[test]
fn prover_failures_end_the_proof() {
    for connected in [0, 1] {
        let mut run = safe(10, 15);
        for _ in 0..connected {
            run = run.on(BenchEvent::Connected);
        }
        let error = run.on(failed("unavailable")).into_result().unwrap().unwrap_err();
        assert_eq!(error, ZkBenchError::Prover { cause: "unavailable".to_string() });
    }
    let error = polling().on(failed("gone")).into_result().unwrap().unwrap_err();
    assert_eq!(error.message(), "gone");
}

#[test]
fn failed_proof_names_time_and_message() {
    let run = polling().on(BenchEvent::Polled {
        status: Some(ProofJobStatus::Failed),
        error_message: Some("out of memory".to_string()),
        execution_stats: None,
        elapsed_nanos: 1_500_000_000,
    });
    let error = run.into_result().unwrap().unwrap_err();
    assert_eq!(error.message(), "proof request failed after 1.5s: out of memory");
    assert_eq!(error.cause(), None);
}

#[test]
fn failed_proof_without_message_says_so() {
    let run = polling().on(polled(Some(ProofJobStatus::Failed)));
    let error = run.into_result().unwrap().unwrap_err();
    assert_eq!(error.message(), "proof request failed after 0ns: missing error message");
    assert_eq!(
        zk_benchmarks::error::proof_failed_message("2s", &None),
        "proof request failed after 2s: missing error message"
    );
}

#[test]
fn proof_times_out_in_every_part() {
    let asking = polling();
    let pausing = polling().on(polled(Some(ProofJobStatus::Pending)));
    for run in [asking, pausing] {
        let error = run.on(timed_out()).into_result().unwrap().unwrap_err();
        assert_eq!(
            error,
            ZkBenchError::ProofTimeout {
                session_id: "s-1".to_string(),
                cause: "elapsed".to_string(),
            }
        );
        assert_eq!(error.cause(), Some("elapsed"));
        assert_eq!(error.message(), "timed out waiting for proof request s-1");
    }
}

#[test]
fn unknown_status_is_polled_again() {
    for status in [None, Some(ProofJobStatus::Unspecified), Some(ProofJobStatus::Pending)] {
        let run = polling().on(polled(status));
        assert_eq!(run.action(), BenchAction::Pause { nanos: 5_000_000_000 });
        assert_eq!(run.on(BenchEvent::PauseOver), polling());
    }
}

#[test]
fn poll_keeps_its_own_times() {
    let poll: ProofPoll =
        ZkBenchRunner::poll_proof("s".to_string(), ZkBenchMode::Cluster, u128::MAX, 3);
    assert_eq!(poll.budget(), Some(u128::MAX));
    assert_eq!(
        poll.action(),
        BenchAction::QueryProof {
            query: GetProofRequest { session_id: "s".to_string(), receipt_type: None },
        }
    );
    let poll = poll.on(polled(None));
    assert_eq!(poll.action(), BenchAction::Pause { nanos: 3 });
    let poll = poll.on(BenchEvent::PauseOver).on(polled(Some(ProofJobStatus::Succeeded)));
    assert_eq!(poll.stage, PollStage::Succeeded { execution_stats: None });
    assert_eq!(poll.budget(), None);
    assert_eq!(poll.action(), BenchAction::Finish);
}

#[test]
fn wait_keeps_its_own_times_and_head() {
    let wait = ZkBenchRunner::wait_for_safe_l2(5, 60, 4);
    assert_eq!(wait.budget(), Some(60));
    let wait = wait.on(synced(4, 1));
    assert_eq!(wait.action(), BenchAction::Pause { nanos: 4 });
    let wait = wait.on(BenchEvent::PauseOver).on(synced(9, 2));
    assert_eq!(wait.action(), BenchAction::QueryOutput { block_number: 5 });
    let wait = wait.on(BenchEvent::OutputFound);
    assert_eq!(wait.stage, SafeL2Stage::Safe { l1_head: [2; 32] });
    assert_eq!(wait.budget(), None);
    assert_eq!(wait.action(), BenchAction::Finish);
}

#[test]
fn stray_events_change_nothing() {
    assert_eq!(start(1, 2).on(BenchEvent::OutputFound), start(1, 2));
    assert_eq!(start(1, 2).on(timed_out()), start(1, 2));
    assert_eq!(safe(1, 2).on(timed_out()), safe(1, 2));
    assert_eq!(polling().on(BenchEvent::Connected), polling());
}

#[test]
fn result_is_final() {
    let over = || polling().on(polled(Some(ProofJobStatus::Succeeded)));
    assert_eq!(over().on(timed_out()), over());
    assert_eq!(over().on(failed("late")), over());
    assert_eq!(over().on(polled(Some(ProofJobStatus::Failed))), over());
    assert!(over().into_result().unwrap().unwrap().execution_stats.is_none());
}

#[test]
fn run_without_result_has_none() {
    assert_eq!(start(1, 2).into_result(), None);
    assert_eq!(safe(1, 2).into_result(), None);
    assert_eq!(polling().into_result(), None);
}

#[test]
fn dry_run_asks_for_stark_receipt() {
    assert_eq!(
        ZkBenchRunner::receipt_type_for_mode(ZkBenchMode::DryRun),
        Some(ReceiptType::Stark)
    );
}

#[test]
fn l1_head_is_written_byte_by_byte() {
    let mut l1_head = [0u8; 32];
    for (i, byte) in l1_head.iter_mut().enumerate() {
        *byte = (i as u8) * 8 + 5;
    }
    let run = ZkBenchRunner::prove_block_range(1, 1, l1_head, config(ZkBenchMode::Cluster))
        .unwrap()
        .on(BenchEvent::Connected);
    match run.action() {
        BenchAction::RequestProof { request } => assert_eq!(
            request.l1_head.unwrap(),
            "0x050d151d252d353d454d555d656d757d858d959da5adb5bdc5cdd5dde5edf5fd"
        ),
        other => panic!("{other:?}"),
    }
}

#[test]
fn stats_of_summary_are_those_reported_last() {
    let run = polling()
        .on(BenchEvent::Polled {
            status: Some(ProofJobStatus::Pending),
            error_message: None,
            execution_stats: Some(stats()),
            elapsed_nanos: 1,
        })
        .on(BenchEvent::PauseOver)
        .on(polled(Some(ProofJobStatus::Succeeded)));
    assert!(run.into_result().unwrap().unwrap().execution_stats.is_none());
}

#[test]
fn poll_asks_for_the_same_job_again() {
    let question = |run: &BenchRun| match run.action() {
        BenchAction::QueryProof { query } => query,
        other => panic!("{other:?}"),
    };
    let first = question(&polling());
    let again = polling().on(polled(Some(ProofJobStatus::Pending))).on(BenchEvent::PauseOver);
    assert_eq!(question(&again), first);
    assert_eq!(first.session_id, "s-1");
}

#[test]
fn run_is_over_with_its_result() {
    assert!(!start(1, 2).is_over());
    assert!(!safe(1, 2).is_over());
    assert!(!polling().is_over());
    assert!(start(1, 2).on(failed("refused")).is_over());
    assert!(safe(0, 2).is_over());
    assert!(polling().on(polled(Some(ProofJobStatus::Succeeded))).is_over());
}
