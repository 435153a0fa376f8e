use zk_benchmarks::cli::{
    BenchCommand, BenchResults, CommandAction, CommandError, CommandEvent, CommandStage,
};
use zk_benchmarks::executor::{LoadAction, LoadEvent};
use zk_benchmarks::report::{
    announcement, bench_report, cleanup_report, BenchTimings, ReportLine, ReportStream,
};
use zk_benchmarks::service::{BenchAction, BenchEvent, ProofJobStatus};
use zk_benchmarks::{
    BlockRange, ExecutionStats, LoadTestCleanupSummary, MetricsSummary, RpcUrl, TestConfig,
    ZkBenchConfig, ZkBenchError, ZkBenchExecutionStatsSummary, ZkBenchMode, ZkBenchProofOutcome,
    ZkBenchSummary, ZkBenchTargetRange,
};

fn config() -> ZkBenchConfig {
    ZkBenchConfig::new(
        RpcUrl::parse("http://localhost:8649").unwrap(),
        RpcUrl::parse("http://localhost:9000").unwrap(),
        ZkBenchMode::DryRun,
    )
}

fn command() -> BenchCommand {
    BenchCommand::new("load.yaml".to_string(), true, config())
}

fn out(text: &str) -> ReportLine {
    ReportLine { stream: ReportStream::Stdout, text: text.to_string() }
}

fn err(text: &str) -> ReportLine {
    ReportLine { stream: ReportStream::Stderr, text: text.to_string() }
}

fn failed(error: &str) -> CommandEvent {
    CommandEvent::Failed { error: error.to_string() }
}

fn variable(value: Option<&str>) -> CommandEvent {
    CommandEvent::Variable { value: value.map(|text| text.to_string()) }
}

fn test_config() -> TestConfig {
    TestConfig {
        query_rpc: Some(RpcUrl::parse("http://query:2").unwrap()),
        primary_submission_rpc: None,
        chain_id: Some(5),
        summary: "config".to_string(),
    }
}

fn measured() -> MetricsSummary {
    MetricsSummary {
        block_range: BlockRange { first_block: Some(2), last_block: Some(3), block_count: 2 },
        ..MetricsSummary::default()
    }
}

fn load(load: LoadEvent) -> CommandEvent {
    CommandEvent::Load { load }
}

fn bench_event(bench: BenchEvent) -> CommandEvent {
    CommandEvent::Bench { bench }
}

fn bench(with_stats: bool) -> ZkBenchSummary {
    ZkBenchSummary {
        target: ZkBenchTargetRange {
            first_block: 2,
            last_block: 3,
            reason: "full load-test range".to_string(),
        },
        proof_outcome: ZkBenchProofOutcome {
            mode: ZkBenchMode::DryRun,
            session_id: "s-9".to_string(),
            start_block_number: 1,
            number_of_blocks_to_prove: 2,
            l1_head: format!("0x{}", "07".repeat(32)),
        },
        execution_stats: if with_stats {
            Some(ZkBenchExecutionStatsSummary {
                total_instruction_cycles: 1_000,
                total_sp1_gas: 20,
                cycle_tracker: Vec::new(),
                witness_generation_ms: 1.5f64.to_bits(),
                execution_ms: 2.25f64.to_bits(),
            })
        } else {
            None
        },
    }
}

fn timings() -> BenchTimings {
    BenchTimings { witness_ms: format!("{:.2}", 1.5f64), execution_ms: format!("{:.2}", 2.25f64) }
}

/// A command whose load test runs.
fn load_testing() -> BenchCommand {
    command()
        .on(CommandEvent::ConfigFile { exists: true })
        .on(CommandEvent::ConfigLoaded { test_config: test_config() })
        .on(CommandEvent::Done)
}

/// A command whose load runs.
fn running() -> BenchCommand {
    load_testing()
        .on(load(LoadEvent::Done))
        .on(load(LoadEvent::Configured { chain_id: 5 }))
        .on(load(LoadEvent::FunderKey { address: [1; 20] }))
        .on(load(LoadEvent::Done))
        .on(load(LoadEvent::Done))
        .on(load(LoadEvent::TxpoolNodes { count: 0 }))
        .on(load(LoadEvent::Done))
        .on(load(LoadEvent::RealTokens { configured: true }))
        .on(load(LoadEvent::Done))
        .on(load(LoadEvent::B20 { needed: false }))
}

/// A command whose load test has run with `event`, is cleaned up after, and is
/// over.
fn load_tested(event: LoadEvent) -> BenchCommand {
    running()
        .on(load(event))
        .on(load(LoadEvent::Done))
        .on(load(LoadEvent::B20 { needed: false }))
        .on(load(LoadEvent::Drained { wei: [0, 1, 0, 0] }))
}

/// A command whose load test succeeded.
fn loaded() -> BenchCommand {
    load_tested(LoadEvent::Completed { summary: measured() })
}

/// A command whose benchmark runs.
fn benching() -> BenchCommand {
    loaded().on(variable(None)).on(CommandEvent::Done).on(CommandEvent::Done)
}

/// A command whose proof job is polled.
fn polling() -> BenchCommand {
    benching()
        .on(bench_event(BenchEvent::Connected))
        .on(bench_event(BenchEvent::Synced { safe_l2: 3, head_l1: [7; 32] }))
        .on(bench_event(BenchEvent::OutputFound))
        .on(bench_event(BenchEvent::Connected))
        .on(bench_event(BenchEvent::Accepted { session_id: "s-9".to_string() }))
}

/// A command whose benchmark has its proof.
fn benched(with_stats: bool) -> BenchCommand {
    let stats = ExecutionStats {
        total_instruction_cycles: 1_000,
        total_sp1_gas: 20,
        cycle_tracker: Vec::new(),
        witness_generation_ms: 1.5f64.to_bits(),
        execution_ms: 2.25f64.to_bits(),
    };
    polling().on(bench_event(BenchEvent::Polled {
        status: Some(ProofJobStatus::Succeeded),
        error_message: None,
        execution_stats: if with_stats { Some(stats) } else { None },
        elapsed_nanos: 1,
    }))
}

fn printed(command: &BenchCommand) -> Vec<ReportLine> {
    match command.action() {
        CommandAction::Print { lines } => lines,
        other => panic!("{other:?}"),
    }
}

#[test]
fn command_goes_from_config_to_end() {
    let run = command();
    assert_eq!(run.action(), CommandAction::CheckConfig { path: "load.yaml".to_string() });
    let run = run.on(CommandEvent::ConfigFile { exists: true });
    assert_eq!(run.action(), CommandAction::LoadConfig { path: "load.yaml".to_string() });
    let run = run.on(CommandEvent::ConfigLoaded { test_config: test_config() });
    assert_eq!(
        printed(&run),
        vec![
            out("=== Base ZK Benchmark Runner ==="),
            out("Config: load.yaml"),
            out("Mode: DryRun | Rollup RPC: http://localhost:8649/ | Prover: http://localhost:9000/"),
            out(""),
            out("Running load test..."),
        ]
    );
    let run = run.on(CommandEvent::Done);
    match run.action() {
        CommandAction::Load { load: LoadAction::ConnectQuery { url } } => {
            assert_eq!(url.as_str(), "http://query:2/")
        }
        other => panic!("{other:?}"),
    }
    let run = run.on(load(LoadEvent::Done));
    assert_eq!(
        run.action(),
        CommandAction::Load {
            load: LoadAction::BuildConfig { rpc_chain_id: None, continuous: true },
        }
    );

    let run = loaded();
    assert_eq!(run.action(), CommandAction::ReadVariable { name: "LOAD_TEST_OUTPUT" });
    let run = run.on(variable(Some("load.json")));
    assert_eq!(
        run.action(),
        CommandAction::Serialize { results: BenchResults::LoadTest { load: &measured() } }
    );
    let run = run.on(CommandEvent::Serialized { json: "{}".to_string() });
    assert_eq!(
        run.action(),
        CommandAction::WriteFile { path: "load.json".to_string(), content: "{}".to_string() }
    );
    let run = run.on(CommandEvent::Done);
    assert_eq!(printed(&run), vec![out("Load test results written to load.json")]);
    let run = run.on(CommandEvent::Done);
    assert_eq!(printed(&run), vec![out("Drained 18446744073709551616 wei back to funder.")]);
    let run = run.on(CommandEvent::Done);
    assert_eq!(printed(&run), vec![out(""), out("Running ZK benchmark...")]);
    assert_eq!(run.budget(), None);
    let run = run.on(CommandEvent::Done);
    assert_eq!(run, benching());
    match run.action() {
        CommandAction::Bench { bench: BenchAction::ConnectRollup { url } } => {
            assert_eq!(url.as_str(), "http://localhost:8649/")
        }
        other => panic!("{other:?}"),
    }
    assert_eq!(run.budget(), None);
    let run = run.on(bench_event(BenchEvent::Connected));
    assert_eq!(run.action(), CommandAction::Bench { bench: BenchAction::QuerySyncStatus });
    assert_eq!(run.budget(), Some(300_000_000_000));

    let run = benched(false);
    assert_eq!(
        printed(&run),
        vec![
            out("Target: blocks 2..=3 (full load-test range)"),
            out(&format!("Proof: session=s-9 start=1 blocks=2 l1_head=0x{}", "07".repeat(32))),
        ]
    );
    let run = run.on(CommandEvent::Done);
    assert_eq!(run.action(), CommandAction::ReadVariable { name: "ZK_BENCH_OUTPUT" });
    let run = run.on(variable(Some("zk.json")));
    assert_eq!(
        run.action(),
        CommandAction::Serialize { results: BenchResults::ZkBench { bench: &bench(false) } }
    );
    let run = run.on(CommandEvent::Serialized { json: "[]".to_string() });
    assert_eq!(
        run.action(),
        CommandAction::WriteFile { path: "zk.json".to_string(), content: "[]".to_string() }
    );
    let run = run.on(CommandEvent::Done);
    assert_eq!(printed(&run), vec![out("ZK bench results written to zk.json")]);
    let run = run.on(CommandEvent::Done);
    assert_eq!(run.action(), CommandAction::Finish);
    assert_eq!(run.into_result(), Some(Ok(())));
}

#[test]
fn times_are_formatted_where_there_are_stats() {
    let run = benched(true);
    assert_eq!(
        run.action(),
        CommandAction::FormatTimings {
            witness_ms: 1.5f64.to_bits(),
            execution_ms: 2.25f64.to_bits(),
        }
    );
    let run = run.on(CommandEvent::Timings { timings: timings() });
    assert_eq!(printed(&run), bench_report(&bench(true), &timings()));
    let run = run.on(CommandEvent::Done).on(variable(Some("zk.json")));
    assert_eq!(
        run.action(),
        CommandAction::Serialize { results: BenchResults::ZkBench { bench: &bench(true) } }
    );
}

#[test]
fn missing_config_is_refused() {
    let run = command().on(CommandEvent::ConfigFile { exists: false });
    assert_eq!(run.action(), CommandAction::Finish);
    let error = run.into_result().unwrap().unwrap_err();
    assert_eq!(error, CommandError::ConfigNotFound { path: "load.yaml".to_string() });
    assert_eq!(error.message(), "config file not found: load.yaml");
}

#[test]
fn unreadable_config_ends_the_command() {
    let run = command().on(CommandEvent::ConfigFile { exists: true }).on(failed("no yaml"));
    let error = run.into_result().unwrap().unwrap_err();
    assert_eq!(error, CommandError::ConfigLoad { error: "no yaml".to_string() });
    assert_eq!(error.message(), "no yaml");
}

#[test]
fn load_test_that_cannot_be_set_up_ends_the_command() {
    let run = load_testing().on(load(LoadEvent::Failed { error: "refused".to_string() }));
    assert_eq!(run.action(), CommandAction::Finish);
    let error = run.into_result().unwrap().unwrap_err();
    assert_eq!(error, CommandError::LoadTestSetup { error: "refused".to_string() });
    assert_eq!(error.message(), "refused");
}

#[test]
fn failed_load_test_is_reported_after_cleanup() {
    let run = load_tested(LoadEvent::Failed { error: "no funds".to_string() });
    let run = run.on(variable(Some("load.json")));
    let failure = MetricsSummary::failure("config".to_string(), "no funds".to_string());
    assert_eq!(
        run.action(),
        CommandAction::Serialize { results: BenchResults::LoadTest { load: &failure } }
    );
    let run = run
        .on(CommandEvent::Serialized { json: "{}".to_string() })
        .on(CommandEvent::Done)
        .on(CommandEvent::Done);
    assert_eq!(printed(&run), vec![out("Drained 18446744073709551616 wei back to funder.")]);
    let run = run.on(CommandEvent::Done);
    let error = run.into_result().unwrap().unwrap_err();
    assert_eq!(error, CommandError::LoadTestFailed { error: "no funds".to_string() });
    assert_eq!(error.message(), "load test failed before ZK bench: no funds");
}

#[test]
fn load_test_without_target_ends_the_command() {
    let run = load_tested(LoadEvent::Completed { summary: MetricsSummary::default() });
    let run = run.on(variable(None)).on(CommandEvent::Done).on(CommandEvent::Done);
    let error = run.into_result().unwrap().unwrap_err();
    assert_eq!(error, CommandError::Bench { bench: ZkBenchError::NoFirstBlock });
    assert_eq!(error.message(), "block range has no first block");
}

#[test]
fn failed_benchmark_ends_the_command() {
    let run = benching().on(bench_event(BenchEvent::Failed { cause: "refused".to_string() }));
    let error = run.into_result().unwrap().unwrap_err();
    assert_eq!(error.message(), "failed to connect rollup RPC http://localhost:8649/");
    let run = polling().on(bench_event(BenchEvent::TimedOut { cause: "elapsed".to_string() }));
    assert_eq!(run.action(), CommandAction::Finish);
    let error = run.into_result().unwrap().unwrap_err();
    assert_eq!(
        error,
        CommandError::Bench {
            bench: ZkBenchError::ProofTimeout {
                session_id: "s-9".to_string(),
                cause: "elapsed".to_string(),
            },
        }
    );
    assert_eq!(error.message(), "timed out waiting for proof request s-9");
}

#[test]
fn unwritten_results_are_a_warning() {
    let run = loaded().on(variable(Some("a/b")));
    let unserialized = run.on(failed("nan"));
    assert_eq!(
        printed(&unserialized),
        vec![err("Warning: failed to serialize load test results: nan")]
    );

    let run = benched(false)
        .on(CommandEvent::Done)
        .on(variable(Some("a/b")))
        .on(CommandEvent::Serialized { json: String::new() })
        .on(failed("denied"));
    assert_eq!(
        printed(&run),
        vec![err("Warning: failed to write ZK bench results to a/b: denied")]
    );
    assert_eq!(run.on(CommandEvent::Done).into_result(), Some(Ok(())));
}

#[test]
fn results_stay_unwritten_without_a_file() {
    let run = benched(false).on(CommandEvent::Done).on(variable(None));
    assert_eq!(run.stage, CommandStage::Finished);
    assert_eq!(run.into_result(), Some(Ok(())));
}

#[test]
fn stats_are_reported_where_there_are_some() {
    let lines = bench_report(&bench(true), &timings());
    assert_eq!(
        lines[2],
        out("Execution: cycles=1000 sp1_gas=20 witness_ms=1.50 execution_ms=2.25")
    );
    assert_eq!(bench_report(&bench(false), &timings()).len(), 2);
}

#[test]
fn cleanup_is_reported_as_it_went() {
    let nothing = LoadTestCleanupSummary::default();
    assert_eq!(cleanup_report(&nothing), Vec::new());
    let good = LoadTestCleanupSummary {
        b20_teardown_attempted: true,
        drained: Some([u64::MAX; 4]),
        ..LoadTestCleanupSummary::default()
    };
    assert_eq!(
        cleanup_report(&good),
        vec![
            out("B-20 teardown complete."),
            out("Drained 115792089237316195423570985008687907853269984665640564039457584007913129639935 wei back to funder."),
        ]
    );
    let bad = LoadTestCleanupSummary {
        b20_teardown_attempted: true,
        b20_teardown_error: Some("burn".to_string()),
        drained: None,
        drain_error: Some("gas".to_string()),
    };
    assert_eq!(
        cleanup_report(&bad),
        vec![err("Warning: B-20 teardown failed: burn"), err("Warning: drain failed: gas")]
    );
    let unattempted = LoadTestCleanupSummary {
        b20_teardown_error: Some("burn".to_string()),
        drained: Some([0; 4]),
        drain_error: Some("gas".to_string()),
        ..LoadTestCleanupSummary::default()
    };
    assert_eq!(cleanup_report(&unattempted), vec![out("Drained 0 wei back to funder.")]);
}

#[test]
fn cluster_mode_is_announced() {
    let cluster = ZkBenchConfig { mode: ZkBenchMode::Cluster, ..config() };
    let lines = announcement("x", &cluster);
    assert_eq!(lines[2].text, "Mode: Cluster | Rollup RPC: http://localhost:8649/ | Prover: http://localhost:9000/");
}

#[test]
fn stray_command_events_change_nothing() {
    assert_eq!(command().on(CommandEvent::Done), command());
    assert_eq!(benching().on(CommandEvent::Done), benching());
    assert_eq!(benching().on(load(LoadEvent::Done)), benching());
    assert_eq!(running().on(bench_event(BenchEvent::Connected)), running());
    assert_eq!(running().on(failed("late")), running());
    let over = || command().on(CommandEvent::ConfigFile { exists: false });
    assert_eq!(over().on(CommandEvent::ConfigFile { exists: true }), over());
}

#[test]
fn load_test_is_announced_before_it_begins() {
    let unnamed = TestConfig { query_rpc: None, ..test_config() };
    let run = command()
        .on(CommandEvent::ConfigFile { exists: true })
        .on(CommandEvent::ConfigLoaded { test_config: unnamed });
    assert_eq!(printed(&run).len(), 5);
}
