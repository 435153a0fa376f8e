use zk_benchmarks::executor::{
    CleanupStage, LoadAction, LoadEvent, LoadPhases, LoadTestRun, PhaseStage, TokenSetup,
};
use zk_benchmarks::{
    BlockLoadMetrics, BlockRange, LoadTestCleanupSummary, LoadTestExecutor, LoadTestRunOptions,
    MetricsSummary, RpcUrl, TestConfig,
};

fn url(text: &str) -> Option<RpcUrl> {
    Some(RpcUrl::parse(text).unwrap())
}

fn test_config(chain_id: Option<u64>) -> TestConfig {
    TestConfig {
        query_rpc: None,
        primary_submission_rpc: url("http://submit:1"),
        chain_id,
        summary: "config".to_string(),
    }
}

fn options() -> LoadTestRunOptions {
    LoadTestRunOptions::default()
}

fn failed(error: &str) -> LoadEvent {
    LoadEvent::Failed { error: error.to_string() }
}

fn address() -> [u8; 20] {
    [
        0xd8, 0xda, 0x6b, 0xf2, 0x69, 0x64, 0xaf, 0x9d, 0x7e, 0xed, 0x9e, 0x03, 0xe5, 0x34, 0x15,
        0xd3, 0x7a, 0xa9, 0x60, 0x45,
    ]
}

/// A load test whose runner is configured.
fn set_up(options: LoadTestRunOptions) -> LoadTestRun {
    LoadTestExecutor::run(test_config(Some(1)), options)
        .on(LoadEvent::Done)
        .on(LoadEvent::Configured { chain_id: 1 })
        .on(LoadEvent::FunderKey { address: address() })
        .on(LoadEvent::Done)
        .on(LoadEvent::Done)
}

/// A load test whose load runs.
fn running(options: LoadTestRunOptions) -> LoadTestRun {
    let mut run = set_up(options);
    if options.clear_txpools {
        run = run.on(LoadEvent::TxpoolNodes { count: 0 });
    }
    run.on(LoadEvent::Done)
        .on(LoadEvent::RealTokens { configured: true })
        .on(LoadEvent::Done)
        .on(LoadEvent::B20 { needed: false })
}

fn measured() -> MetricsSummary {
    MetricsSummary {
        config: Some("config".to_string()),
        error: None,
        block_range: BlockRange { first_block: Some(4), last_block: Some(4), block_count: 1 },
        block_load: vec![BlockLoadMetrics {
            block_number: 4,
            confirmed_count: 2,
            reverted_count: 1,
            total_gas: 3,
        }],
    }
}

#[test]
fn options_by_default_clear_and_clean_up() {
    let options = options();
    assert!(!options.continuous);
    assert!(options.clear_txpools);
    assert!(options.cleanup);
    assert!(!options.install_signal_handler);
}

#[test]
fn setup_goes_step_by_step() {
    let continuous =
        LoadTestRunOptions { continuous: true, install_signal_handler: true, ..options() };
    let run = LoadTestExecutor::run_with_display(test_config(None), continuous, true);
    match run.action() {
        LoadAction::ConnectQuery { url } => assert_eq!(url.as_str(), "http://submit:1/"),
        other => panic!("{other:?}"),
    }
    let run = run.on(LoadEvent::Done);
    assert_eq!(run.action(), LoadAction::FetchChainId);
    let run = run.on(LoadEvent::ChainId { id: 8453 });
    assert_eq!(
        run.action(),
        LoadAction::BuildConfig { rpc_chain_id: Some(8453), continuous: true }
    );
    let run = run.on(LoadEvent::Configured { chain_id: 8453 });
    assert_eq!(run.action(), LoadAction::LoadFunderKey);
    let run = run.on(LoadEvent::FunderKey { address: address() });
    assert_eq!(run.action(), LoadAction::BuildRunner);
    let run = run.on(LoadEvent::Done);
    assert_eq!(
        run.action(),
        LoadAction::ConfigureRunner {
            config_summary: "config".to_string(),
            funder_address: "0xd8dA6BF26964aF9D7eEd9e03E53415D37aA96045".to_string(),
            display: true,
            install_signal_handler: true,
        }
    );
    assert_eq!(run.on(LoadEvent::Done).action(), LoadAction::CountTxpoolNodes);
}

#[test]
fn configured_query_rpc_and_chain_id_prevail() {
    let config = TestConfig { query_rpc: url("http://query:2"), ..test_config(Some(7)) };
    let run = LoadTestExecutor::run(config, options());
    match run.action() {
        LoadAction::ConnectQuery { url } => assert_eq!(url.as_str(), "http://query:2/"),
        other => panic!("{other:?}"),
    }
    assert_eq!(
        run.on(LoadEvent::Done).action(),
        LoadAction::BuildConfig { rpc_chain_id: None, continuous: false }
    );
}

#[test]
fn failed_setup_is_an_error_without_cleanup() {
    let start = || LoadTestExecutor::run(test_config(None), options());
    let fetching = || start().on(LoadEvent::Done);
    let building = || fetching().on(LoadEvent::ChainId { id: 1 });
    let loading = || building().on(LoadEvent::Configured { chain_id: 1 });
    let runner = || loading().on(LoadEvent::FunderKey { address: address() });
    for run in [start(), fetching(), building(), loading(), runner()] {
        let run = run.on(failed("no"));
        assert_eq!(run.action(), LoadAction::Finish);
        assert_eq!(run.into_result().unwrap().unwrap_err(), "no");
    }
}

#[test]
fn txpools_are_cleared_where_there_are_nodes() {
    let run = set_up(options()).on(LoadEvent::TxpoolNodes { count: 2 });
    assert_eq!(run.action(), LoadAction::ClearTxpools);
    assert_eq!(run.on(LoadEvent::Done).action(), LoadAction::FundAccounts);
    let run = set_up(options()).on(LoadEvent::TxpoolNodes { count: 0 });
    assert_eq!(run.action(), LoadAction::FundAccounts);
    let keep = LoadTestRunOptions { clear_txpools: false, ..options() };
    assert_eq!(set_up(keep).action(), LoadAction::FundAccounts);
}

#[test]
fn real_tokens_are_prepared_in_place_of_swap_tokens() {
    let setup = LoadTestExecutor::setup_tokens(true);
    assert_eq!(setup.action(), LoadAction::SetupRealTokens);
    assert_eq!(setup.on(LoadEvent::Done).action(), LoadAction::CheckB20);

    let setup = LoadTestExecutor::setup_tokens(false);
    assert_eq!(setup.action(), LoadAction::CountSwapTokens);
    let setup = setup.on(LoadEvent::SwapTokens { count: 3 });
    assert_eq!(setup.action(), LoadAction::SetupSwapTokens);
    assert_eq!(setup.on(LoadEvent::Done).action(), LoadAction::CheckB20);
    let setup = LoadTestExecutor::setup_tokens(false).on(LoadEvent::SwapTokens { count: 0 });
    assert_eq!(setup.action(), LoadAction::CheckB20);
}

#[test]
fn b20_tokens_are_prepared_when_needed() {
    let setup = LoadTestExecutor::setup_tokens(true).on(LoadEvent::Done);
    let setup = setup.on(LoadEvent::B20 { needed: true });
    assert_eq!(setup.action(), LoadAction::SetupB20Tokens);
    let setup = setup.on(LoadEvent::Done);
    assert_eq!(setup, TokenSetup::Ready);
    assert_eq!(setup.action(), LoadAction::Finish);
}

#[test]
fn failed_token_setup_ends_the_phases() {
    let start = || LoadTestExecutor::setup_tokens(true);
    let swap = || LoadTestExecutor::setup_tokens(false).on(LoadEvent::SwapTokens { count: 1 });
    let b20 = || start().on(LoadEvent::Done).on(LoadEvent::B20 { needed: true });
    for setup in [start(), swap(), b20()] {
        assert_eq!(setup.on(failed("x")), TokenSetup::Failed { error: "x".to_string() });
    }
    let phases = LoadTestExecutor::run_phases(
        LoadTestRunOptions { clear_txpools: false, ..options() },
        10,
    )
    .on(LoadEvent::Done)
    .on(LoadEvent::RealTokens { configured: true })
    .on(failed("tokens"));
    assert_eq!(
        phases,
        LoadPhases {
            chain_id: 10,
            stage: PhaseStage::Failed { error: "tokens".to_string() },
        }
    );
    assert_eq!(phases.action(), LoadAction::Finish);
}

#[test]
fn completed_run_is_cleaned_up_after() {
    let run = running(options());
    assert_eq!(run.action(), LoadAction::RunLoad);
    let run = run.on(LoadEvent::Completed { summary: measured() });
    assert_eq!(run.action(), LoadAction::Pause { nanos: 2_000_000_000 });
    let run = run.on(LoadEvent::Done);
    assert_eq!(run.action(), LoadAction::CheckB20);
    let run = run.on(LoadEvent::B20 { needed: true });
    assert_eq!(run.action(), LoadAction::TeardownB20Tokens);
    let run = run.on(LoadEvent::Done);
    assert_eq!(run.action(), LoadAction::DrainAccounts);
    let run = run.on(LoadEvent::Drained { wei: [5, 0, 0, 0] });
    assert_eq!(run.action(), LoadAction::Finish);
    let output = run.into_result().unwrap().unwrap();
    assert_eq!(output.summary, measured());
    assert_eq!(
        output.cleanup,
        LoadTestCleanupSummary {
            b20_teardown_attempted: true,
            b20_teardown_error: None,
            drained: Some([5, 0, 0, 0]),
            drain_error: None,
        }
    );
}

#[test]
fn failed_run_is_cleaned_up_after_and_named() {
    let run = running(options()).on(failed("reverted"));
    let run = run.on(LoadEvent::Done).on(LoadEvent::B20 { needed: true });
    let run = run.on(failed("burn")).on(failed("drain"));
    let output = run.into_result().unwrap().unwrap();
    assert_eq!(output.summary.config.as_deref(), Some("config"));
    assert_eq!(output.summary.error.as_deref(), Some("reverted"));
    assert_eq!(output.summary.block_range, BlockRange::default());
    assert!(output.summary.block_load.is_empty());
    assert!(output.cleanup.b20_teardown_attempted);
    assert_eq!(output.cleanup.b20_teardown_error.as_deref(), Some("burn"));
    assert_eq!(output.cleanup.drained, None);
    assert_eq!(output.cleanup.drain_error.as_deref(), Some("drain"));
}

#[test]
fn failed_phases_are_named() {
    let counted = || set_up(options()).on(LoadEvent::TxpoolNodes { count: 1 });
    let funding = || counted().on(LoadEvent::Done);
    let reading = || funding().on(LoadEvent::Done);
    let quiet = LoadTestRunOptions { cleanup: false, ..options() };
    for run in [counted(), funding(), reading()] {
        let run = run.on(failed("phase"));
        assert_eq!(run.action(), LoadAction::Pause { nanos: 2_000_000_000 });
        assert_eq!(run.into_result(), None);
    }
    let output = running(quiet).on(failed("phase")).into_result().unwrap().unwrap();
    assert_eq!(output.summary, MetricsSummary::failure("config".to_string(), "phase".to_string()));
}

#[test]
fn unwanted_cleanup_is_left_out() {
    let quiet = LoadTestRunOptions { cleanup: false, ..options() };
    let run = running(quiet).on(LoadEvent::Completed { summary: measured() });
    assert_eq!(run.action(), LoadAction::Finish);
    let output = run.into_result().unwrap().unwrap();
    assert_eq!(output.cleanup, LoadTestCleanupSummary::default());
}

#[test]
fn accounts_are_drained_without_b20_tokens() {
    let cleanup = LoadTestExecutor::cleanup();
    assert_eq!(cleanup.action(), LoadAction::Pause { nanos: 2_000_000_000 });
    let cleanup = cleanup.on(LoadEvent::Done).on(LoadEvent::B20 { needed: false });
    assert_eq!(cleanup.action(), LoadAction::DrainAccounts);
    let cleanup = cleanup.on(LoadEvent::Drained { wei: [1, 2, 3, 4] });
    assert_eq!(cleanup.stage, CleanupStage::Over);
    assert!(!cleanup.summary.b20_teardown_attempted);
    assert_eq!(cleanup.summary.drained, Some([1, 2, 3, 4]));
}

#[test]
fn stray_load_events_change_nothing() {
    let run = || running(options());
    assert_eq!(run().on(LoadEvent::Done), run());
    assert_eq!(run().on(LoadEvent::B20 { needed: true }), run());
    assert_eq!(set_up(options()).on(failed("late")), set_up(options()));
}

#[test]
fn load_result_is_final() {
    let quiet = LoadTestRunOptions { cleanup: false, ..options() };
    let over = || running(quiet).on(LoadEvent::Completed { summary: measured() });
    assert_eq!(over().on(failed("late")), over());
    assert_eq!(over().on(LoadEvent::Done), over());
}

#[test]
fn real_tokens_are_read_for_the_chain_built_for() {
    let run = LoadTestExecutor::run(test_config(Some(8453)), options())
        .on(LoadEvent::Done)
        .on(LoadEvent::Configured { chain_id: 8453 })
        .on(LoadEvent::FunderKey { address: address() })
        .on(LoadEvent::Done)
        .on(LoadEvent::Done)
        .on(LoadEvent::TxpoolNodes { count: 0 })
        .on(LoadEvent::Done);
    assert_eq!(run.action(), LoadAction::ReadRealTokenSetup { chain_id: 8453 });
    let run = run.on(failed("bad token"));
    assert_eq!(run.action(), LoadAction::Pause { nanos: 2_000_000_000 });
}

#[test]
fn load_test_is_over_with_its_result() {
    let quiet = LoadTestRunOptions { cleanup: false, ..options() };
    assert!(!set_up(options()).is_over());
    assert!(!running(quiet).is_over());
    assert!(running(quiet).on(LoadEvent::Completed { summary: measured() }).is_over());
    assert!(LoadTestExecutor::run(test_config(None), quiet).on(failed("no")).is_over());
}
