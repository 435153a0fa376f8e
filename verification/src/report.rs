//! Lines that the benchmark prints.

use crate::config::{ZkBenchConfig, ZkBenchMode};
use crate::executor::LoadTestCleanupSummary;
use crate::outside;
use crate::summary::{ZkBenchExecutionStatsSummary, ZkBenchSummary};
use crate::text;
use vstd::prelude::*;

verus! {

/// Where a line is printed.
#[derive(Clone, Copy, Debug, PartialEq, Eq, Structural)]
pub enum ReportStream {
    /// Standard output.
    Stdout,
    /// Standard error.
    Stderr,
}

/// A line to print.
#[derive(Debug, PartialEq, Eq)]
pub struct ReportLine {
    /// Where it is printed.
    pub stream: ReportStream,
    /// What is printed, without the line end.
    pub text: String,
}

impl ReportLine {
    /// The stream and the text.
    pub open spec fn view(&self) -> (ReportStream, Seq<char>) {
        (self.stream, self.text@)
    }
}

/// The streams and texts of lines.
pub open spec fn lines_view(lines: Seq<ReportLine>) -> Seq<(ReportStream, Seq<char>)> {
    lines.map_values(|line: ReportLine| line@)
}

/// A line on standard output.
pub open spec fn out(text: Seq<char>) -> (ReportStream, Seq<char>) {
    (ReportStream::Stdout, text)
}

/// A line on standard error.
pub open spec fn err(text: Seq<char>) -> (ReportStream, Seq<char>) {
    (ReportStream::Stderr, text)
}

fn out_line(text: String) -> (r: ReportLine)
    ensures
        r@ == out(text@),
{
    ReportLine { stream: ReportStream::Stdout, text }
}

fn err_line(text: String) -> (r: ReportLine)
    ensures
        r@ == err(text@),
{
    ReportLine { stream: ReportStream::Stderr, text }
}

/// The name of a mode.
pub open spec fn mode_name(mode: ZkBenchMode) -> Seq<char> {
    match mode {
        ZkBenchMode::DryRun => "DryRun"@,
        ZkBenchMode::Cluster => "Cluster"@,
    }
}

/// The lines printed before the load test.
pub open spec fn announcement_lines(
    config_path: Seq<char>,
    config: ZkBenchConfig,
) -> Seq<(ReportStream, Seq<char>)> {
    seq![
        out("=== Base ZK Benchmark Runner ==="@),
        out("Config: "@ + config_path),
        out(
            "Mode: "@ + mode_name(config.mode) + " | Rollup RPC: "@ + config.rollup_rpc_url@
                + " | Prover: "@ + config.prover_url@,
        ),
        out(""@),
        out("Running load test..."@),
    ]
}

/// The lines printed before the load test.
pub fn announcement(config_path: &str, config: &ZkBenchConfig) -> (r: Vec<ReportLine>)
    ensures
        lines_view(r@) == announcement_lines(config_path@, *config),
{
    let mut path = "Config: ".to_string();
    path.append(config_path);
    let mut endpoints = "Mode: ".to_string();
    endpoints.append(
        match config.mode {
            ZkBenchMode::DryRun => "DryRun",
            ZkBenchMode::Cluster => "Cluster",
        },
    );
    endpoints.append(" | Rollup RPC: ");
    endpoints.append(config.rollup_rpc_url.as_str());
    endpoints.append(" | Prover: ");
    endpoints.append(config.prover_url.as_str());
    let mut r: Vec<ReportLine> = Vec::new();
    r.push(out_line("=== Base ZK Benchmark Runner ===".to_string()));
    r.push(out_line(path));
    r.push(out_line(endpoints));
    r.push(out_line("".to_string()));
    r.push(out_line("Running load test...".to_string()));
    assert(lines_view(r@) =~= announcement_lines(config_path@, *config));
    r
}

/// The lines printed before the proof.
pub open spec fn bench_announcement_lines() -> Seq<(ReportStream, Seq<char>)> {
    seq![out(""@), out("Running ZK benchmark..."@)]
}

/// The lines printed before the proof.
pub fn bench_announcement() -> (r: Vec<ReportLine>)
    ensures
        lines_view(r@) == bench_announcement_lines(),
{
    let mut r: Vec<ReportLine> = Vec::new();
    r.push(out_line("".to_string()));
    r.push(out_line("Running ZK benchmark...".to_string()));
    assert(lines_view(r@) =~= bench_announcement_lines());
    r
}

/// Results that are written to a file.
#[derive(Clone, Copy, Debug, PartialEq, Eq, Structural)]
pub enum ResultKind {
    /// Those of the load test.
    LoadTest,
    /// Those of the proof.
    ZkBench,
}

impl ResultKind {
    /// How the results are named within a sentence.
    pub open spec fn name(self) -> Seq<char> {
        match self {
            ResultKind::LoadTest => "load test results"@,
            ResultKind::ZkBench => "ZK bench results"@,
        }
    }

    /// How the results are named at the start of a sentence.
    pub open spec fn title(self) -> Seq<char> {
        match self {
            ResultKind::LoadTest => "Load test results"@,
            ResultKind::ZkBench => "ZK bench results"@,
        }
    }

    fn name_text(self) -> (r: &'static str)
        ensures
            r@ == self.name(),
    {
        match self {
            ResultKind::LoadTest => "load test results",
            ResultKind::ZkBench => "ZK bench results",
        }
    }

    fn title_text(self) -> (r: &'static str)
        ensures
            r@ == self.title(),
    {
        match self {
            ResultKind::LoadTest => "Load test results",
            ResultKind::ZkBench => "ZK bench results",
        }
    }
}

/// What came of writing results to a file.
#[derive(Debug, PartialEq, Eq)]
pub enum WriteOutcome {
    /// They are in the file.
    Written { path: String },
    /// The file could not be written.
    NotWritten { path: String, error: String },
    /// The results could not be serialized.
    NotSerialized { error: String },
}

/// The line that tells what came of writing results.
pub open spec fn write_line(kind: ResultKind, outcome: WriteOutcome) -> (ReportStream, Seq<char>) {
    match outcome {
        WriteOutcome::Written { path } => out(kind.title() + " written to "@ + path@),
        WriteOutcome::NotWritten { path, error } => err(
            "Warning: failed to write "@ + kind.name() + " to "@ + path@ + ": "@ + error@,
        ),
        WriteOutcome::NotSerialized { error } => err(
            "Warning: failed to serialize "@ + kind.name() + ": "@ + error@,
        ),
    }
}

/// The line that tells what came of writing results.
pub fn write_report(kind: ResultKind, outcome: &WriteOutcome) -> (r: Vec<ReportLine>)
    ensures
        lines_view(r@) == seq![write_line(kind, *outcome)],
{
    let line = match outcome {
        WriteOutcome::Written { path } => {
            let mut text = kind.title_text().to_string();
            text.append(" written to ");
            text.append(path.as_str());
            out_line(text)
        },
        WriteOutcome::NotWritten { path, error } => {
            let mut text = "Warning: failed to write ".to_string();
            text.append(kind.name_text());
            text.append(" to ");
            text.append(path.as_str());
            text.append(": ");
            text.append(error.as_str());
            err_line(text)
        },
        WriteOutcome::NotSerialized { error } => {
            let mut text = "Warning: failed to serialize ".to_string();
            text.append(kind.name_text());
            text.append(": ");
            text.append(error.as_str());
            err_line(text)
        },
    };
    let mut r: Vec<ReportLine> = Vec::new();
    r.push(line);
    assert(lines_view(r@) =~= seq![write_line(kind, *outcome)]);
    r
}

/// The line on B-20 teardown, if it was attempted.
pub open spec fn teardown_lines(
    cleanup: LoadTestCleanupSummary,
) -> Seq<(ReportStream, Seq<char>)> {
    if !cleanup.b20_teardown_attempted {
        Seq::empty()
    } else {
        match cleanup.b20_teardown_error {
            None => seq![out("B-20 teardown complete."@)],
            Some(error) => seq![err("Warning: B-20 teardown failed: "@ + error@)],
        }
    }
}

/// The line on the drain, if it was attempted.
pub open spec fn drain_lines(cleanup: LoadTestCleanupSummary) -> Seq<(ReportStream, Seq<char>)> {
    match (cleanup.drained, cleanup.drain_error) {
        (Some(wei), _) => seq![
            out(
                "Drained "@ + text::decimal(outside::limbs_value(wei@)) + " wei back to funder."@,
            ),
        ],
        (None, Some(error)) => seq![err("Warning: drain failed: "@ + error@)],
        (None, None) => Seq::empty(),
    }
}

/// The lines on the cleanup after a load test.
pub fn cleanup_report(cleanup: &LoadTestCleanupSummary) -> (r: Vec<ReportLine>)
    ensures
        lines_view(r@) == teardown_lines(*cleanup) + drain_lines(*cleanup),
{
    let mut r: Vec<ReportLine> = Vec::new();
    if cleanup.b20_teardown_attempted {
        match &cleanup.b20_teardown_error {
            None => r.push(out_line("B-20 teardown complete.".to_string())),
            Some(error) => {
                let mut text = "Warning: B-20 teardown failed: ".to_string();
                text.append(error.as_str());
                r.push(err_line(text));
            },
        }
    }
    assert(lines_view(r@) =~= teardown_lines(*cleanup));
    match &cleanup.drained {
        Some(wei) => {
            let mut text = "Drained ".to_string();
            text.append(outside::u256_text(wei).as_str());
            text.append(" wei back to funder.");
            r.push(out_line(text));
        },
        None => match &cleanup.drain_error {
            Some(error) => {
                let mut text = "Warning: drain failed: ".to_string();
                text.append(error.as_str());
                r.push(err_line(text));
            },
            None => {},
        },
    }
    assert(lines_view(r@) =~= teardown_lines(*cleanup) + drain_lines(*cleanup));
    r
}

/// The two times of execution stats as text, with two decimals.
#[derive(Debug, PartialEq, Eq)]
pub struct BenchTimings {
    /// Witness generation time in milliseconds.
    pub witness_ms: String,
    /// Execution time in milliseconds.
    pub execution_ms: String,
}

impl BenchTimings {
    /// There are no times.
    pub open spec fn blank(self) -> bool {
        self.witness_ms@ == ""@ && self.execution_ms@ == ""@
    }

    /// No times.
    pub fn none() -> (r: Self)
        ensures
            r.blank(),
    {
        BenchTimings { witness_ms: "".to_string(), execution_ms: "".to_string() }
    }
}

/// The line on execution stats.
pub open spec fn stats_line(
    stats: ZkBenchExecutionStatsSummary,
    timings: BenchTimings,
) -> (ReportStream, Seq<char>) {
    out(
        "Execution: cycles="@ + text::decimal(stats.total_instruction_cycles as nat) + " sp1_gas="@
            + text::decimal(stats.total_sp1_gas as nat) + " witness_ms="@ + timings.witness_ms@
            + " execution_ms="@ + timings.execution_ms@,
    )
}

/// The lines on a completed benchmark.
pub open spec fn bench_lines(
    summary: ZkBenchSummary,
    timings: BenchTimings,
) -> Seq<(ReportStream, Seq<char>)> {
    let always = seq![
        out(
            "Target: blocks "@ + text::decimal(summary.target.first_block as nat) + "..="@
                + text::decimal(summary.target.last_block as nat) + " ("@ + summary.target.reason@
                + ")"@,
        ),
        out(
            "Proof: session="@ + summary.proof_outcome.session_id@ + " start="@ + text::decimal(
                summary.proof_outcome.start_block_number as nat,
            ) + " blocks="@ + text::decimal(
                summary.proof_outcome.number_of_blocks_to_prove as nat,
            ) + " l1_head="@ + summary.proof_outcome.l1_head@,
        ),
    ];
    match summary.execution_stats {
        Some(stats) => always.push(stats_line(stats, timings)),
        None => always,
    }
}

/// The lines on a completed benchmark.
pub fn bench_report(summary: &ZkBenchSummary, timings: &BenchTimings) -> (r: Vec<ReportLine>)
    ensures
        lines_view(r@) == bench_lines(*summary, *timings),
{
    let mut target = "Target: blocks ".to_string();
    text::push_u64(&mut target, summary.target.first_block);
    target.append("..=");
    text::push_u64(&mut target, summary.target.last_block);
    target.append(" (");
    target.append(summary.target.reason.as_str());
    target.append(")");
    let mut outcome = "Proof: session=".to_string();
    outcome.append(summary.proof_outcome.session_id.as_str());
    outcome.append(" start=");
    text::push_u64(&mut outcome, summary.proof_outcome.start_block_number);
    outcome.append(" blocks=");
    text::push_u64(&mut outcome, summary.proof_outcome.number_of_blocks_to_prove);
    outcome.append(" l1_head=");
    outcome.append(summary.proof_outcome.l1_head.as_str());
    let mut r: Vec<ReportLine> = Vec::new();
    r.push(out_line(target));
    r.push(out_line(outcome));
    match &summary.execution_stats {
        Some(stats) => {
            let mut line = "Execution: cycles=".to_string();
            text::push_u64(&mut line, stats.total_instruction_cycles);
            line.append(" sp1_gas=");
            text::push_u64(&mut line, stats.total_sp1_gas);
            line.append(" witness_ms=");
            line.append(timings.witness_ms.as_str());
            line.append(" execution_ms=");
            line.append(timings.execution_ms.as_str());
            r.push(out_line(line));
        },
        None => {},
    }
    assert(lines_view(r@) =~= bench_lines(*summary, *timings));
    r
}

} // verus!
