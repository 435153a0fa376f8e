use zk_benchmarks::{
    BlockLoadMetrics, BlockRange, MetricsSummary, RpcUrl, ZkBenchConfig, ZkBenchError, ZkBenchMode,
    ZkBenchRunner, ZkBenchTargetRange,
};

fn summary(
    first_block: u64,
    last_block: u64,
    block_load: Vec<BlockLoadMetrics>,
) -> MetricsSummary {
    MetricsSummary {
        block_range: BlockRange {
            first_block: Some(first_block),
            last_block: Some(last_block),
            block_count: last_block - first_block + 1,
        },
        block_load,
        ..MetricsSummary::default()
    }
}

fn block_load(block_number: u64, confirmed_count: u64, total_gas: u64) -> BlockLoadMetrics {
    BlockLoadMetrics { block_number, confirmed_count, reverted_count: 0, total_gas }
}

#[test]
fn dry_run_targets_full_load_test_range() {
    let summary = summary(
        10,
        15,
        vec![block_load(10, 1, 100), block_load(12, 1, 200), block_load(15, 1, 100)],
    );

    let target = ZkBenchRunner::select_proof_target(&summary, ZkBenchMode::DryRun).unwrap();

    assert_eq!(target.first_block, 10);
    assert_eq!(target.last_block, 15);
    assert_eq!(target.reason, "full load-test range");
}

#[test]
fn cluster_targets_fullest_load_test_block_by_gas() {
    let summary = summary(
        10,
        12,
        vec![block_load(10, 100, 1_000), block_load(11, 5, 2_000), block_load(12, 3, 2_000)],
    );

    let target = ZkBenchRunner::select_proof_target(&summary, ZkBenchMode::Cluster).unwrap();

    assert_eq!(target.first_block, 11);
    assert_eq!(target.last_block, 11);
    assert_eq!(target.reason, "fullest block by gas: gas=2000, txs=5");
}

#[test]
fn fullest_block_prefers_lowest_block_after_gas_and_tx_tie() {
    let blocks = vec![block_load(12, 5, 2_000), block_load(11, 5, 2_000)];

    let block = ZkBenchRunner::select_fullest_block(&blocks).unwrap();

    assert_eq!(block.block_number, 11);
}

#[test]
fn cluster_polling_does_not_request_receipt_type() {
    assert_eq!(ZkBenchRunner::receipt_type_for_mode(ZkBenchMode::Cluster), None);
}

#[test]
fn fullest_block_ignores_order_of_blocks() {
    let forward = vec![block_load(1, 9, 10), block_load(2, 1, 30), block_load(3, 2, 30)];
    let mut backward = vec![block_load(3, 2, 30), block_load(2, 1, 30), block_load(1, 9, 10)];
    backward[1].reverted_count = 8;
    assert_eq!(ZkBenchRunner::select_fullest_block(&forward).unwrap().block_number, 3);
    assert_eq!(ZkBenchRunner::select_fullest_block(&backward).unwrap().block_number, 3);
}

#[test]
fn last_of_equally_full_entries_is_selected() {
    let mut first = block_load(7, 1, 1);
    first.reverted_count = 4;
    let mut second = block_load(7, 1, 1);
    second.reverted_count = 5;
    let block = ZkBenchRunner::select_fullest_block(&[first, second]).unwrap();
    assert_eq!(block.reverted_count, 5);
}

#[test]
fn empty_load_has_no_fullest_block() {
    let error = ZkBenchRunner::select_fullest_block(&[]).unwrap_err();
    assert_eq!(error, ZkBenchError::EmptyLoadTest);
    assert_eq!(error.message(), "cannot select fullest block from empty load-test run");
    let error = ZkBenchRunner::select_proof_target(&MetricsSummary::default(), ZkBenchMode::Cluster)
        .unwrap_err();
    assert_eq!(error, ZkBenchError::EmptyLoadTest);
}

#[test]
fn range_without_bounds_is_refused() {
    let none = BlockRange::default();
    let error =
        ZkBenchRunner::target_from_block_range(&none, "whole".to_string()).unwrap_err();
    assert_eq!(error.message(), "block range has no first block");
    let open = BlockRange { first_block: Some(3), last_block: None, block_count: 0 };
    let error =
        ZkBenchRunner::target_from_block_range(&open, "whole".to_string()).unwrap_err();
    assert_eq!(error.message(), "block range has no last block");
}

#[test]
fn reversed_range_is_refused() {
    let error = ZkBenchTargetRange::new(9, 8, "reversed".to_string()).unwrap_err();
    assert_eq!(error.message(), "invalid proof target range: 9..=8");
    let reversed = BlockRange { first_block: Some(20), last_block: Some(19), block_count: 0 };
    let error =
        ZkBenchRunner::target_from_block_range(&reversed, "whole".to_string()).unwrap_err();
    assert_eq!(error, ZkBenchError::InvalidTargetRange { first_block: 20, last_block: 19 });
}

#[test]
fn single_block_range_is_accepted() {
    let target = ZkBenchTargetRange::new(0, 0, "one".to_string()).unwrap();
    assert_eq!((target.first_block, target.last_block), (0, 0));
    assert_eq!(target.reason, "one");
    let target = ZkBenchTargetRange::new(u64::MAX, u64::MAX, "last".to_string()).unwrap();
    assert_eq!(target.first_block, u64::MAX);
}

#[test]
fn largest_numbers_are_written_out() {
    let summary = summary(1, 1, vec![block_load(1, u64::MAX, 10)]);
    let target = ZkBenchRunner::select_proof_target(&summary, ZkBenchMode::Cluster).unwrap();
    assert_eq!(target.reason, "fullest block by gas: gas=10, txs=18446744073709551615");
}

#[test]
fn mode_is_dry_run_by_default() {
    assert_eq!(ZkBenchMode::default(), ZkBenchMode::DryRun);
}

#[test]
fn urls_are_normalized() {
    let url = RpcUrl::parse("HTTP://LocalHost:80/a/../b").unwrap();
    assert_eq!(url.as_str(), "http://localhost/b");
    assert_eq!(url.clone(), url);
}

#[test]
fn malformed_url_is_refused() {
    assert_eq!(RpcUrl::parse("localhost").unwrap_err(), "relative URL without a base");
}

#[test]
fn config_holds_endpoints_and_mode() {
    let rollup = RpcUrl::parse("http://localhost:8649").unwrap();
    let prover = RpcUrl::parse("http://localhost:9000").unwrap();
    let config = ZkBenchConfig::new(rollup, prover, ZkBenchMode::Cluster);
    assert_eq!(config.rollup_rpc_url.as_str(), "http://localhost:8649/");
    assert_eq!(config.prover_url.as_str(), "http://localhost:9000/");
    assert_eq!(config.mode, ZkBenchMode::Cluster);
    assert_eq!(config.clone(), config);
}

#[test]
fn numbers_are_written_in_decimal() {
    let message = |first_block, last_block| {
        ZkBenchTargetRange::new(first_block, last_block, String::new()).unwrap_err().message()
    };
    assert_eq!(message(9, 0), "invalid proof target range: 9..=0");
    assert_eq!(message(1_002_003, 10), "invalid proof target range: 1002003..=10");
    assert_eq!(
        message(u64::MAX, 100),
        "invalid proof target range: 18446744073709551615..=100"
    );
}
