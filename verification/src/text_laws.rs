//! What the numbers, errors, lines and stats of the benchmark say.

use crate::cli::CommandError;
use crate::config::{RpcUrl, ZkBenchConfig, ZkBenchMode};
use crate::error::ZkBenchError;
use crate::executor::{LoadTestCleanupSummary, LoadTestRunOptions};
use crate::metrics::MetricsSummary;
use crate::outside;
use crate::report;
use crate::report::{BenchTimings, ReportLine, ReportStream, ResultKind, WriteOutcome};
use crate::summary;
use crate::summary::{
    ExecutionStats, ZkBenchExecutionStatsSummary, ZkBenchProofOutcome, ZkBenchSummary,
};
use crate::target::ZkBenchTargetRange;
use crate::text;
use crate::tracker;
use vstd::prelude::*;

verus! {

/// The number that decimal digits stand for.
pub open spec fn decimal_value(digits: Seq<char>) -> int
    decreases digits.len(),
{
    if digits.len() == 0 {
        0
    } else {
        10 * decimal_value(digits.drop_last()) + (digits.last() as int - '0' as int)
    }
}

/// A number in decimal is made of digits that stand for it, without leading
/// zeros.
pub proof fn law_decimal_reads_back(n: nat)
    ensures
        decimal_value(text::decimal(n)) == n,
        text::decimal(n).len() > 0,
        forall|i: int|
            0 <= i < text::decimal(n).len() ==> '0' <= #[trigger] text::decimal(n)[i] <= '9',
        text::decimal(n)[0] == '0' ==> n == 0 && text::decimal(n).len() == 1,
    decreases n,
{
    if n < 10 {
        assert(text::decimal(n).drop_last() =~= Seq::<char>::empty());
        assert(decimal_value(text::decimal(n).drop_last()) == 0);
    } else {
        law_decimal_reads_back(n / 10);
        assert(text::decimal(n).drop_last() =~= text::decimal(n / 10));
        assert(text::decimal(n)[0] == text::decimal(n / 10)[0]);
    }
}

/// The number that a lower-case hexadecimal digit stands for, if it is one.
pub open spec fn hex_value(c: char) -> Option<int> {
    if '0' <= c <= '9' {
        Some(c as int - '0' as int)
    } else if 'a' <= c <= 'f' {
        Some(c as int - 'a' as int + 10)
    } else {
        None
    }
}

/// Bytes in hexadecimal are `0x` and two lower-case digits for each byte, the
/// higher one first.
pub proof fn law_hex_reads_back(bytes: Seq<u8>, i: int)
    requires
        0 <= i < bytes.len(),
    ensures
        text::hex_text(bytes).len() == 2 + 2 * bytes.len(),
        text::hex_text(bytes)[0] == '0',
        text::hex_text(bytes)[1] == 'x',
        hex_value(text::hex_text(bytes)[2 + 2 * i]) is Some,
        hex_value(text::hex_text(bytes)[3 + 2 * i]) is Some,
        hex_value(text::hex_text(bytes)[2 + 2 * i])->0 * 16 + hex_value(
            text::hex_text(bytes)[3 + 2 * i],
        )->0 == bytes[i],
{
    let high = (bytes[i] / 16) as nat;
    let low = (bytes[i] % 16) as nat;
    assert(text::hex_text(bytes)[2 + 2 * i] == text::hex_digit(high));
    assert((2 * i + 1) / 2 == i && (2 * i + 1) % 2 == 1);
    assert(text::hex_text(bytes)[3 + 2 * i] == text::hex_digit(low));
    assert(high < 16 && low < 16 && high * 16 + low == bytes[i]);
}

/// Limbs stand for their weighted sum, each weighing as much as all values of
/// those before it.
pub proof fn law_limbs_are_weighted(a: u64, b: u64, c: u64, d: u64)
    ensures
        outside::limbs_value(seq![a, b, c, d]) == a + 0x1_0000_0000_0000_0000 * b
            + 0x1_0000_0000_0000_0000_0000_0000_0000_0000 * c
            + 0x1_0000_0000_0000_0000_0000_0000_0000_0000_0000_0000_0000_0000 * d,
{
    reveal_with_fuel(outside::limbs_value, 5);
    assert(seq![a, b, c, d].drop_first() =~= seq![b, c, d]);
    assert(seq![b, c, d].drop_first() =~= seq![c, d]);
    assert(seq![c, d].drop_first() =~= seq![d]);
    assert(seq![d].drop_first() =~= Seq::<u64>::empty());
}

/// What each error of a benchmark says, and what lies beneath it.
pub proof fn law_bench_error_texts(error: ZkBenchError)
    ensures
        error.text() == match error {
            ZkBenchError::InvalidTargetRange { first_block, last_block } => {
                "invalid proof target range: "@ + text::decimal(first_block as nat) + "..="@
                    + text::decimal(last_block as nat)
            },
            ZkBenchError::NoFirstBlock => "block range has no first block"@,
            ZkBenchError::NoLastBlock => "block range has no last block"@,
            ZkBenchError::EmptyLoadTest => "cannot select fullest block from empty load-test run"@,
            ZkBenchError::LoadTestFailed { error } => {
                "load test failed before ZK bench target selection: "@ + error@
            },
            ZkBenchError::RollupConnect { url, .. } => "failed to connect rollup RPC "@ + url@,
            ZkBenchError::Rollup { cause } => cause@,
            ZkBenchError::SafeL2Timeout { .. } => {
                "timed out waiting for workload block to become safe"@
            },
            ZkBenchError::InvalidWorkloadRange { first_block, last_block } => {
                "invalid workload block range: "@ + text::decimal(first_block as nat) + "..="@
                    + text::decimal(last_block as nat)
            },
            ZkBenchError::GenesisBlock => "cannot prove genesis block with one-block range"@,
            ZkBenchError::Prover { cause } => cause@,
            ZkBenchError::ProofFailed { elapsed_nanos, message } => {
                "proof request failed after "@ + outside::duration_debug(elapsed_nanos) + ": "@
                    + match message {
                    Some(message) => message@,
                    None => "missing error message"@,
                }
            },
            ZkBenchError::ProofTimeout { session_id, .. } => {
                "timed out waiting for proof request "@ + session_id@
            },
        },
        error.beneath() == match error {
            ZkBenchError::RollupConnect { cause, .. }
            | ZkBenchError::SafeL2Timeout { cause }
            | ZkBenchError::ProofTimeout { cause, .. } => Some(cause@),
            _ => None,
        },
{
}

/// What is said of a proof that the prover gave up: the time, and the message of
/// the prover or that there is none.
pub proof fn law_given_up_proof_text(elapsed: Seq<char>, message: Seq<char>)
    ensures
        crate::error::proof_failed_text(elapsed, Some(message)) == "proof request failed after "@
            + elapsed + ": "@ + message,
        crate::error::proof_failed_text(elapsed, None) == "proof request failed after "@ + elapsed
            + ": "@ + "missing error message"@,
{
}

/// What each error of the command says.
pub proof fn law_command_error_texts(error: CommandError)
    ensures
        error.text() == match error {
            CommandError::ConfigNotFound { path } => "config file not found: "@ + path@,
            CommandError::ConfigLoad { error } | CommandError::LoadTestSetup { error } => error@,
            CommandError::LoadTestFailed { error } => {
                "load test failed before ZK bench: "@ + error@
            },
            CommandError::Bench { bench } => bench.text(),
        },
{
}

/// What is told before the load test and before the benchmark, all on standard
/// output.
pub proof fn law_announcements(config_path: Seq<char>, config: ZkBenchConfig)
    ensures
        report::announcement_lines(config_path, config) == seq![
            (ReportStream::Stdout, "=== Base ZK Benchmark Runner ==="@),
            (ReportStream::Stdout, "Config: "@ + config_path),
            (
                ReportStream::Stdout,
                "Mode: "@ + match config.mode {
                    ZkBenchMode::DryRun => "DryRun"@,
                    ZkBenchMode::Cluster => "Cluster"@,
                } + " | Rollup RPC: "@ + config.rollup_rpc_url@ + " | Prover: "@
                    + config.prover_url@,
            ),
            (ReportStream::Stdout, ""@),
            (ReportStream::Stdout, "Running load test..."@),
        ],
        report::bench_announcement_lines() == seq![
            (ReportStream::Stdout, ""@),
            (ReportStream::Stdout, "Running ZK benchmark..."@),
        ],
{
}

/// What is told of a file for results: on standard output where it is, on
/// standard error why it could not be.
pub proof fn law_write_lines(kind: ResultKind, outcome: WriteOutcome)
    ensures
        ({
            let name = match kind {
                ResultKind::LoadTest => "load test results"@,
                ResultKind::ZkBench => "ZK bench results"@,
            };
            let title = match kind {
                ResultKind::LoadTest => "Load test results"@,
                ResultKind::ZkBench => "ZK bench results"@,
            };
            report::write_line(kind, outcome) == match outcome {
                WriteOutcome::Written { path } => {
                    (ReportStream::Stdout, title + " written to "@ + path@)
                },
                WriteOutcome::NotWritten { path, error } => {
                    (
                        ReportStream::Stderr,
                        "Warning: failed to write "@ + name + " to "@ + path@ + ": "@ + error@,
                    )
                },
                WriteOutcome::NotSerialized { error } => {
                    (
                        ReportStream::Stderr,
                        "Warning: failed to serialize "@ + name + ": "@ + error@,
                    )
                },
            }
        }),
{
}

/// What is told of a cleanup. Of the burn only where it was attempted: that it is
/// complete, or its error on standard error. Of the drain: how much came back, or
/// its error on standard error.
pub proof fn law_cleanup_lines(cleanup: LoadTestCleanupSummary)
    ensures
        match cleanup.b20_teardown_error {
            None => cleanup.b20_teardown_attempted ==> report::teardown_lines(cleanup) == seq![
                (ReportStream::Stdout, "B-20 teardown complete."@),
            ],
            Some(error) => cleanup.b20_teardown_attempted ==> report::teardown_lines(cleanup)
                == seq![(ReportStream::Stderr, "Warning: B-20 teardown failed: "@ + error@)],
        },
        !cleanup.b20_teardown_attempted ==> report::teardown_lines(cleanup).len() == 0,
        match (cleanup.drained, cleanup.drain_error) {
            (Some(wei), _) => report::drain_lines(cleanup) == seq![
                (
                    ReportStream::Stdout,
                    "Drained "@ + text::decimal(outside::limbs_value(wei@))
                        + " wei back to funder."@,
                ),
            ],
            (None, Some(error)) => report::drain_lines(cleanup) == seq![
                (ReportStream::Stderr, "Warning: drain failed: "@ + error@),
            ],
            (None, None) => report::drain_lines(cleanup).len() == 0,
        },
{
}

/// What is told of a benchmark, all on standard output: its target, its proof,
/// and its stats if it has any.
pub proof fn law_bench_lines(bench: ZkBenchSummary, timings: BenchTimings)
    ensures
        ({
            let lines = report::bench_lines(bench, timings);
            let outcome = bench.proof_outcome;
            &&& lines.len() == if bench.execution_stats is Some {
                3int
            } else {
                2
            }
            &&& lines[0] == (
                ReportStream::Stdout,
                "Target: blocks "@ + text::decimal(bench.target.first_block as nat) + "..="@
                    + text::decimal(bench.target.last_block as nat) + " ("@ + bench.target.reason@
                    + ")"@,
            )
            &&& lines[1] == (
                ReportStream::Stdout,
                "Proof: session="@ + outcome.session_id@ + " start="@ + text::decimal(
                    outcome.start_block_number as nat,
                ) + " blocks="@ + text::decimal(outcome.number_of_blocks_to_prove as nat)
                    + " l1_head="@ + outcome.l1_head@,
            )
            &&& bench.execution_stats matches Some(stats) ==> lines[2] == (
                ReportStream::Stdout,
                "Execution: cycles="@ + text::decimal(stats.total_instruction_cycles as nat)
                    + " sp1_gas="@ + text::decimal(stats.total_sp1_gas as nat) + " witness_ms="@
                    + timings.witness_ms@ + " execution_ms="@ + timings.execution_ms@,
            )
        }),
{
}

/// Lines say what they hold, one for one.
pub proof fn law_lines_say_what_they_hold(lines: Seq<ReportLine>, i: int)
    requires
        0 <= i < lines.len(),
    ensures
        report::lines_view(lines).len() == lines.len(),
        report::lines_view(lines)[i] == (lines[i].stream, lines[i].text@),
{
}

/// Stats are summed up where there are some and only there, with the same
/// numbers and times, and with the cycles of each name, in the order of names.
pub proof fn law_stats_are_carried_over(
    summed: Option<ZkBenchExecutionStatsSummary>,
    given: Option<ExecutionStats>,
)
    requires
        summary::summarizes_stats(summed, given),
    ensures
        summed is Some <==> given is Some,
        summed matches Some(s) ==> {
            &&& s.total_instruction_cycles == given->0.total_instruction_cycles
            &&& s.total_sp1_gas == given->0.total_sp1_gas
            &&& s.witness_generation_ms == given->0.witness_generation_ms
            &&& s.execution_ms == given->0.execution_ms
            &&& tracker::in_name_order(s.cycle_tracker@)
            &&& tracker::cycles_by_name(s.cycle_tracker@) == tracker::cycles_by_name(
                given->0.cycle_tracker@,
            )
        },
{
}

/// A summary holds the target and the outcome that it is made of, and stats
/// where there are some.
pub proof fn law_summary_holds_its_parts(
    made: ZkBenchSummary,
    target: ZkBenchTargetRange,
    outcome: ZkBenchProofOutcome,
    stats: Option<ExecutionStats>,
)
    requires
        made.sums_up(target, outcome, stats),
    ensures
        made.target == target,
        made.proof_outcome == outcome,
        summary::summarizes_stats(made.execution_stats, stats),
{
}

/// A configuration holds each endpoint in its own place, and the mode.
pub proof fn law_config_holds_its_parts(rollup: RpcUrl, prover: RpcUrl, mode: ZkBenchMode)
    ensures
        ZkBenchConfig::made(rollup, prover, mode).rollup_rpc_url == rollup,
        ZkBenchConfig::made(rollup, prover, mode).prover_url == prover,
        ZkBenchConfig::made(rollup, prover, mode).mode == mode,
{
}

/// What holds where nothing is named: a dry run, and one load test that clears
/// txpools and cleans up, without a signal handler.
pub proof fn law_defaults()
    ensures
        ZkBenchMode::unnamed() is DryRun,
        !LoadTestRunOptions::unnamed().continuous,
        LoadTestRunOptions::unnamed().clear_txpools,
        LoadTestRunOptions::unnamed().cleanup,
        !LoadTestRunOptions::unnamed().install_signal_handler,
{
}

/// A blank summary names no configuration, no error and no block.
pub proof fn law_blank_summary(blank: MetricsSummary)
    requires
        blank.is_blank(),
    ensures
        blank.config is None,
        blank.error is None,
        blank.block_range.first_block is None,
        blank.block_range.last_block is None,
        blank.block_range.block_count == 0,
        blank.block_load@.len() == 0,
{
}

/// The summary of a failed run names its configuration and its error, and no
/// block.
pub proof fn law_failure_summary(failure: MetricsSummary, config: String, error: String)
    requires
        failure.is_failure(config, error),
    ensures
        failure.config == Some(config),
        failure.error == Some(error),
        failure.block_range.first_block is None,
        failure.block_range.last_block is None,
        failure.block_range.block_count == 0,
        failure.block_load@.len() == 0,
{
}

} // verus!
