//! Decisions of the ZK proof benchmarks that follow a load test: which blocks
//! are proved, what is asked of the load test, of the rollup node and of the
//! prover, and what is reported.
//!
//! Whatever waits for the outside is a state machine: `action` says what is to
//! be done, `on` takes what came of it, and `into_result` hands out the result.

pub mod answer_laws;
pub mod cli;
pub mod command_answer_laws;
pub mod command_laws;
pub mod config;
pub mod error;
pub mod executor;
pub mod laws;
pub mod load_laws;
pub mod metrics;
pub mod outside;
pub mod poll;
pub mod prove;
pub mod report;
pub mod run;
pub mod safe_l2;
pub mod service;
pub mod summary;
pub mod target;
pub mod text;
pub mod text_laws;
pub mod tracker;

pub use config::{RpcUrl, ZkBenchConfig, ZkBenchMode};
pub use error::ZkBenchError;
pub use executor::{
    LoadTestCleanupSummary, LoadTestExecutor, LoadTestRunOptions, LoadTestRunOutput, TestConfig,
};
pub use metrics::{BlockLoadMetrics, BlockRange, MetricsSummary};
pub use summary::{
    ExecutionStats, ZkBenchExecutionStatsSummary, ZkBenchProofOutcome, ZkBenchSummary,
};
pub use target::{ZkBenchRunner, ZkBenchTargetRange};
