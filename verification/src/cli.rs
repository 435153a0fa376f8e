//! The benchmark command: load test, then proof, with reports in between.

use crate::config::ZkBenchConfig;
use crate::error::ZkBenchError;
use crate::executor;
use crate::executor::{
    LoadAction, LoadEvent, LoadTestExecutor, LoadTestRun, LoadTestRunOptions, LoadTestRunOutput,
    TestConfig,
};
use crate::metrics::MetricsSummary;
use crate::report;
use crate::report::{BenchTimings, ReportLine, ResultKind, WriteOutcome};
use crate::run;
use crate::run::BenchRun;
use crate::service::{BenchAction, BenchEvent};
use crate::summary::ZkBenchSummary;
use crate::target::ZkBenchRunner;
use vstd::prelude::*;

verus! {

/// Error of the benchmark command.
#[derive(Debug, PartialEq, Eq)]
pub enum CommandError {
    /// There is no configuration file.
    ConfigNotFound { path: String },
    /// The configuration could not be loaded.
    ConfigLoad { error: String },
    /// The load test could not be set up.
    LoadTestSetup { error: String },
    /// The load test reported a failure.
    LoadTestFailed { error: String },
    /// The benchmark has no proof.
    Bench { bench: ZkBenchError },
}

impl CommandError {
    /// The text of the error.
    pub open spec fn text(self) -> Seq<char> {
        match self {
            CommandError::ConfigNotFound { path } => "config file not found: "@ + path@,
            CommandError::ConfigLoad { error } => error@,
            CommandError::LoadTestSetup { error } => error@,
            CommandError::LoadTestFailed { error } => {
                "load test failed before ZK bench: "@ + error@
            },
            CommandError::Bench { bench } => bench.text(),
        }
    }

    /// The text of the error.
    pub fn message(&self) -> (r: String)
        ensures
            r@ == self.text(),
    {
        match self {
            CommandError::ConfigNotFound { path } => {
                let mut r = "config file not found: ".to_string();
                r.append(path.as_str());
                r
            },
            CommandError::ConfigLoad { error } => error.clone(),
            CommandError::LoadTestSetup { error } => error.clone(),
            CommandError::LoadTestFailed { error } => {
                let mut r = "load test failed before ZK bench: ".to_string();
                r.append(error.as_str());
                r
            },
            CommandError::Bench { bench } => bench.message(),
        }
    }
}

/// Results that are written to a file.
#[derive(Clone, Copy, Debug, PartialEq, Eq)]
pub enum BenchResults<'a> {
    /// Those of the load test.
    LoadTest { load: &'a MetricsSummary },
    /// Those of the proof.
    ZkBench { bench: &'a ZkBenchSummary },
}

impl<'a> BenchResults<'a> {
    /// What the results are of.
    pub open spec fn of_kind(self) -> ResultKind {
        match self {
            BenchResults::LoadTest { load } => ResultKind::LoadTest,
            BenchResults::ZkBench { bench } => ResultKind::ZkBench,
        }
    }

    /// What the results are of.
    pub fn kind(&self) -> (r: ResultKind)
        ensures
            r == self.of_kind(),
    {
        match self {
            BenchResults::LoadTest { .. } => ResultKind::LoadTest,
            BenchResults::ZkBench { .. } => ResultKind::ZkBench,
        }
    }
}

/// What the command needs done next.
#[derive(Debug, PartialEq, Eq)]
pub enum CommandAction<'a> {
    /// Look whether the configuration file is there.
    CheckConfig { path: String },
    /// Load the configuration file.
    LoadConfig { path: String },
    /// Print lines.
    Print { lines: Vec<ReportLine> },
    /// Do what the load test needs done.
    Load { load: LoadAction },
    /// Read the environment variable that names a file for results.
    ReadVariable { name: &'static str },
    /// Serialize results.
    Serialize { results: BenchResults<'a> },
    /// Write a file.
    WriteFile { path: String, content: String },
    /// Do what the benchmark needs done.
    Bench { bench: BenchAction },
    /// Write the two times, given as bit patterns of double-precision numbers,
    /// as text with two decimals.
    FormatTimings { witness_ms: u64, execution_ms: u64 },
    /// Nothing: the command is over.
    Finish,
}

/// What came of an action.
#[derive(Debug, PartialEq, Eq)]
pub enum CommandEvent {
    /// It is done.
    Done,
    /// The configuration file is there, or is not.
    ConfigFile { exists: bool },
    /// The configuration file is loaded.
    ConfigLoaded { test_config: TestConfig },
    /// This came of what the load test needed done.
    Load { load: LoadEvent },
    /// The environment variable has a value, or none.
    Variable { value: Option<String> },
    /// The results are serialized.
    Serialized { json: String },
    /// This came of what the benchmark needed done.
    Bench { bench: BenchEvent },
    /// The times are text.
    Timings { timings: BenchTimings },
    /// It failed.
    Failed { error: String },
}

/// The environment variable that names the file for results.
pub open spec fn variable_name(kind: ResultKind) -> Seq<char> {
    match kind {
        ResultKind::LoadTest => "LOAD_TEST_OUTPUT"@,
        ResultKind::ZkBench => "ZK_BENCH_OUTPUT"@,
    }
}

/// Where the writing of results stands.
#[derive(Debug, PartialEq, Eq)]
pub enum WriteStage {
    /// The file is looked up.
    Naming,
    /// The results are serialized.
    Serializing { path: String },
    /// The file is written.
    Writing { path: String, json: String },
    /// The outcome is printed.
    Reporting { outcome: WriteOutcome },
    /// The results are dealt with.
    Over,
}

impl WriteStage {
    /// The writing after `event`. Nothing that fails here ends the command. An
    /// event that does not answer the pending action changes nothing.
    pub open spec fn next(self, event: CommandEvent) -> WriteStage {
        match (self, event) {
            (WriteStage::Naming, CommandEvent::Variable { value }) => match value {
                Some(path) => WriteStage::Serializing { path },
                None => WriteStage::Over,
            },
            (WriteStage::Serializing { path }, CommandEvent::Serialized { json }) => {
                WriteStage::Writing { path, json }
            },
            (WriteStage::Serializing { path }, CommandEvent::Failed { error }) => {
                WriteStage::Reporting { outcome: WriteOutcome::NotSerialized { error } }
            },
            (WriteStage::Writing { path, json }, CommandEvent::Done) => {
                WriteStage::Reporting { outcome: WriteOutcome::Written { path } }
            },
            (WriteStage::Writing { path, json }, CommandEvent::Failed { error }) => {
                WriteStage::Reporting { outcome: WriteOutcome::NotWritten { path, error } }
            },
            (WriteStage::Reporting { outcome }, CommandEvent::Done) => WriteStage::Over,
            (stage, _) => stage,
        }
    }

    /// `action` is what the writing of `results` needs done.
    pub open spec fn is_pending(self, results: BenchResults, action: CommandAction) -> bool {
        match self {
            WriteStage::Naming => {
                action is ReadVariable && action->name@ == variable_name(results.of_kind())
            },
            WriteStage::Serializing { path } => action == (CommandAction::Serialize { results }),
            WriteStage::Writing { path, json } => {
                action == (CommandAction::WriteFile { path, content: json })
            },
            WriteStage::Reporting { outcome } => {
                action is Print && report::lines_view(action->lines@)
                    == seq![report::write_line(results.of_kind(), outcome)]
            },
            WriteStage::Over => action is Finish,
        }
    }

    /// Moves the writing on. An event that does not answer the pending action
    /// changes nothing.
    pub fn on(self, event: CommandEvent) -> (r: WriteStage)
        ensures
            r == self.next(event),
    {
        match (self, event) {
            (WriteStage::Naming, CommandEvent::Variable { value }) => match value {
                Some(path) => WriteStage::Serializing { path },
                None => WriteStage::Over,
            },
            (WriteStage::Serializing { path }, CommandEvent::Serialized { json }) => {
                WriteStage::Writing { path, json }
            },
            (WriteStage::Serializing { .. }, CommandEvent::Failed { error }) => {
                WriteStage::Reporting { outcome: WriteOutcome::NotSerialized { error } }
            },
            (WriteStage::Writing { path, .. }, CommandEvent::Done) => {
                WriteStage::Reporting { outcome: WriteOutcome::Written { path } }
            },
            (WriteStage::Writing { path, .. }, CommandEvent::Failed { error }) => {
                WriteStage::Reporting { outcome: WriteOutcome::NotWritten { path, error } }
            },
            (WriteStage::Reporting { .. }, CommandEvent::Done) => WriteStage::Over,
            (stage, _) => stage,
        }
    }

    /// What the writing of `results` needs done.
    pub fn action<'a>(&self, results: BenchResults<'a>) -> (r: CommandAction<'a>)
        ensures
            self.is_pending(results, r),
    {
        match self {
            WriteStage::Naming => CommandAction::ReadVariable {
                name: match results.kind() {
                    ResultKind::LoadTest => "LOAD_TEST_OUTPUT",
                    ResultKind::ZkBench => "ZK_BENCH_OUTPUT",
                },
            },
            WriteStage::Serializing { .. } => CommandAction::Serialize { results },
            WriteStage::Writing { path, json } => CommandAction::WriteFile {
                path: path.clone(),
                content: json.clone(),
            },
            WriteStage::Reporting { outcome } => CommandAction::Print {
                lines: report::write_report(results.kind(), outcome),
            },
            WriteStage::Over => CommandAction::Finish,
        }
    }
}

/// Where the command stands.
#[derive(Debug, PartialEq, Eq)]
pub enum CommandStage {
    /// The configuration file is looked for.
    CheckingConfig,
    /// The configuration file is loaded.
    LoadingConfig,
    /// The load test is announced.
    Announcing { test_config: TestConfig },
    /// The load test runs.
    LoadTesting { load: LoadTestRun },
    /// The results of the load test are written.
    WritingLoad { output: LoadTestRunOutput, write: WriteStage },
    /// The cleanup is reported.
    ReportingCleanup { output: LoadTestRunOutput },
    /// The benchmark is announced.
    AnnouncingBench { summary: MetricsSummary },
    /// The benchmark runs.
    Benching { run: BenchRun },
    /// The times of the benchmark are turned to text.
    FormattingBench { bench: ZkBenchSummary, witness_ms: u64, execution_ms: u64 },
    /// The benchmark is reported.
    ReportingBench { bench: ZkBenchSummary, timings: BenchTimings },
    /// The results of the benchmark are written.
    WritingBench { bench: ZkBenchSummary, write: WriteStage },
    /// The command is over.
    Finished,
    /// The command has failed.
    Failed { error: CommandError },
}

/// Runs the selected benchmark.
#[derive(Debug, PartialEq, Eq)]
pub struct BenchCommand {
    /// Path of the load-test configuration.
    pub config_path: String,
    /// Whether the load test runs until it is interrupted.
    pub continuous: bool,
    /// Configuration of the proof.
    pub zk_config: ZkBenchConfig,
    /// Where the command stands.
    pub stage: CommandStage,
}

/// The options of the command's load test: those by default, but continuous if
/// that is wanted, and with a signal handler.
pub open spec fn command_options(continuous: bool) -> LoadTestRunOptions {
    LoadTestRunOptions {
        continuous,
        clear_txpools: true,
        cleanup: true,
        install_signal_handler: true,
    }
}

/// `r` is where the command stands with its load test at `load`: with the test
/// until that has its result, and then with the output, or with the error that
/// kept the test from being set up.
pub open spec fn is_load_tested(load: LoadTestRun, r: CommandStage) -> bool {
    match r {
        CommandStage::LoadTesting { load: now } => now == load && load.is_result(None),
        CommandStage::WritingLoad { output, write } => {
            load.is_result(Some(Ok(output))) && write is Naming
        },
        CommandStage::Failed { error: CommandError::LoadTestSetup { error } } => {
            load.is_result(Some(Err(error)))
        },
        _ => false,
    }
}

/// `r` is where the command stands once the benchmark of the load test with
/// `summary` is begun: with the run, or with the error that there is no target.
pub open spec fn is_bench_begun(
    summary: MetricsSummary,
    zk_config: ZkBenchConfig,
    r: CommandStage,
) -> bool {
    match r {
        CommandStage::Benching { run } => run::is_start(summary, zk_config, Ok(run)),
        CommandStage::Failed { error: CommandError::Bench { bench } } => run::is_start(
            summary,
            zk_config,
            Err(bench),
        ),
        _ => false,
    }
}

/// `r` is where the command stands with its benchmark at `run`: with the run
/// until that has its result, and then with the error or with the summary. Its
/// times are turned to text first, where it has stats.
pub open spec fn is_benched(run: BenchRun, r: CommandStage) -> bool {
    match r {
        CommandStage::Benching { run: now } => now == run && run.is_result(None),
        CommandStage::FormattingBench { bench, witness_ms, execution_ms } => {
            &&& run.is_result(Some(Ok(bench)))
            &&& bench.execution_stats is Some
            &&& witness_ms == bench.execution_stats->0.witness_generation_ms
            &&& execution_ms == bench.execution_stats->0.execution_ms
        },
        CommandStage::ReportingBench { bench, timings } => {
            &&& run.is_result(Some(Ok(bench)))
            &&& bench.execution_stats is None
            &&& timings.blank()
        },
        CommandStage::Failed { error: CommandError::Bench { bench } } => {
            run.is_result(Some(Err(bench)))
        },
        _ => false,
    }
}

impl BenchCommand {
    /// The command before anything is done.
    pub fn new(config_path: String, continuous: bool, zk_config: ZkBenchConfig) -> (r: Self)
        ensures
            r == command_start(config_path, continuous, zk_config),
    {
        BenchCommand { config_path, continuous, zk_config, stage: CommandStage::CheckingConfig }
    }

    /// `r` is where the command stands after `event`. An event that does not
    /// answer the pending action changes nothing.
    pub open spec fn is_next_stage(self, event: CommandEvent, r: CommandStage) -> bool {
        match (self.stage, event) {
            (CommandStage::CheckingConfig, CommandEvent::ConfigFile { exists }) => r == if exists {
                CommandStage::LoadingConfig
            } else {
                CommandStage::Failed {
                    error: CommandError::ConfigNotFound { path: self.config_path },
                }
            },
            (CommandStage::LoadingConfig, CommandEvent::ConfigLoaded { test_config }) => r == (
            CommandStage::Announcing { test_config }),
            (CommandStage::LoadingConfig, CommandEvent::Failed { error }) => r == (
            CommandStage::Failed { error: CommandError::ConfigLoad { error } }),
            (CommandStage::Announcing { test_config }, CommandEvent::Done) => r == (
            CommandStage::LoadTesting {
                load: executor::load_test_start(
                    test_config,
                    command_options(self.continuous),
                    false,
                ),
            }),
            (CommandStage::LoadTesting { load }, CommandEvent::Load { load: event }) => {
                is_load_tested(load.next(event), r)
            },
            (CommandStage::WritingLoad { output, write }, event) => {
                let write = write.next(event);
                r == if write is Over {
                    CommandStage::ReportingCleanup { output }
                } else {
                    CommandStage::WritingLoad { output, write }
                }
            },
            (CommandStage::ReportingCleanup { output }, CommandEvent::Done) => {
                r == match output.summary.error {
                    Some(error) => CommandStage::Failed {
                        error: CommandError::LoadTestFailed { error },
                    },
                    None => CommandStage::AnnouncingBench { summary: output.summary },
                }
            },
            (CommandStage::AnnouncingBench { summary }, CommandEvent::Done) => is_bench_begun(
                summary,
                self.zk_config,
                r,
            ),
            (CommandStage::Benching { run }, CommandEvent::Bench { bench: event }) => is_benched(
                run.next(event),
                r,
            ),
            (CommandStage::FormattingBench { bench, .. }, CommandEvent::Timings { timings }) => {
                r == (CommandStage::ReportingBench { bench, timings })
            },
            (CommandStage::ReportingBench { bench, timings }, CommandEvent::Done) => r == (
            CommandStage::WritingBench { bench, write: WriteStage::Naming }),
            (CommandStage::WritingBench { bench, write }, event) => {
                let write = write.next(event);
                r == if write is Over {
                    CommandStage::Finished
                } else {
                    CommandStage::WritingBench { bench, write }
                }
            },
            (stage, _) => r == stage,
        }
    }

    /// The command can go on with `event`: a load test begins only from a
    /// configuration that names an RPC.
    pub open spec fn accepts(self, event: CommandEvent) -> bool {
        match (self.stage, event) {
            (CommandStage::Announcing { test_config }, CommandEvent::Done) => {
                test_config.well_formed()
            },
            _ => true,
        }
    }

    /// `r` is the command after `event`.
    pub open spec fn is_next(self, event: CommandEvent, r: BenchCommand) -> bool {
        &&& r.config_path == self.config_path
        &&& r.continuous == self.continuous
        &&& r.zk_config == self.zk_config
        &&& self.is_next_stage(event, r.stage)
    }

    /// `action` is what the command needs done.
    pub open spec fn is_pending(self, action: CommandAction) -> bool {
        match self.stage {
            CommandStage::CheckingConfig => {
                action == (CommandAction::CheckConfig { path: self.config_path })
            },
            CommandStage::LoadingConfig => {
                action == (CommandAction::LoadConfig { path: self.config_path })
            },
            CommandStage::Announcing { test_config } => {
                action is Print && report::lines_view(action->lines@)
                    == report::announcement_lines(self.config_path@, self.zk_config)
            },
            CommandStage::LoadTesting { load } => {
                action is Load && load.is_pending(action->load)
            },
            CommandStage::WritingLoad { output, write } => write.is_pending(
                BenchResults::LoadTest { load: &output.summary },
                action,
            ),
            CommandStage::ReportingCleanup { output } => {
                action is Print && report::lines_view(action->lines@) == report::teardown_lines(
                    output.cleanup,
                ) + report::drain_lines(output.cleanup)
            },
            CommandStage::AnnouncingBench { summary } => {
                action is Print && report::lines_view(action->lines@)
                    == report::bench_announcement_lines()
            },
            CommandStage::Benching { run } => action is Bench && run.is_pending(action->bench),
            CommandStage::FormattingBench { bench, witness_ms, execution_ms } => {
                action == (CommandAction::FormatTimings { witness_ms, execution_ms })
            },
            CommandStage::ReportingBench { bench, timings } => {
                action is Print && report::lines_view(action->lines@) == report::bench_lines(
                    bench,
                    timings,
                )
            },
            CommandStage::WritingBench { bench, write } => write.is_pending(
                BenchResults::ZkBench { bench: &bench },
                action,
            ),
            CommandStage::Finished => action is Finish,
            CommandStage::Failed { error } => action is Finish,
        }
    }

    /// Moves the command on. An event that does not answer the pending action
    /// changes nothing.
    pub fn on(self, event: CommandEvent) -> (r: BenchCommand)
        requires
            self.accepts(event),
        ensures
            self.is_next(event, r),
    {
        let config_path = self.config_path;
        let stage = match (self.stage, event) {
            (CommandStage::CheckingConfig, CommandEvent::ConfigFile { exists }) => if exists {
                CommandStage::LoadingConfig
            } else {
                CommandStage::Failed {
                    error: CommandError::ConfigNotFound { path: config_path.clone() },
                }
            },
            (CommandStage::LoadingConfig, CommandEvent::ConfigLoaded { test_config }) => {
                CommandStage::Announcing { test_config }
            },
            (CommandStage::LoadingConfig, CommandEvent::Failed { error }) => CommandStage::Failed {
                error: CommandError::ConfigLoad { error },
            },
            (CommandStage::Announcing { test_config }, CommandEvent::Done) => {
                let mut options = LoadTestRunOptions::default();
                options.continuous = self.continuous;
                options.install_signal_handler = true;
                CommandStage::LoadTesting { load: LoadTestExecutor::run(test_config, options) }
            },
            (CommandStage::LoadTesting { load }, CommandEvent::Load { load: event }) => {
                Self::load_tested(load.on(event))
            },
            (CommandStage::WritingLoad { output, write }, event) => match write.on(event) {
                WriteStage::Over => CommandStage::ReportingCleanup { output },
                write => CommandStage::WritingLoad { output, write },
            },
            (CommandStage::ReportingCleanup { output }, CommandEvent::Done) => {
                let summary = output.summary;
                match summary.error {
                    Some(error) => CommandStage::Failed {
                        error: CommandError::LoadTestFailed { error },
                    },
                    None => CommandStage::AnnouncingBench {
                        summary: MetricsSummary {
                            config: summary.config,
                            error: None,
                            block_range: summary.block_range,
                            block_load: summary.block_load,
                        },
                    },
                }
            },
            (CommandStage::AnnouncingBench { summary }, CommandEvent::Done) => {
                match ZkBenchRunner::run(&summary, self.zk_config.clone()) {
                    Ok(run) => CommandStage::Benching { run },
                    Err(bench) => CommandStage::Failed { error: CommandError::Bench { bench } },
                }
            },
            (CommandStage::Benching { run }, CommandEvent::Bench { bench: event }) => {
                Self::benched(run.on(event))
            },
            (CommandStage::FormattingBench { bench, .. }, CommandEvent::Timings { timings }) => {
                CommandStage::ReportingBench { bench, timings }
            },
            (CommandStage::ReportingBench { bench, .. }, CommandEvent::Done) => {
                CommandStage::WritingBench { bench, write: WriteStage::Naming }
            },
            (CommandStage::WritingBench { bench, write }, event) => match write.on(event) {
                WriteStage::Over => CommandStage::Finished,
                write => CommandStage::WritingBench { bench, write },
            },
            (stage, _) => stage,
        };
        BenchCommand { config_path, continuous: self.continuous, zk_config: self.zk_config, stage }
    }

    /// Goes on with the load test, or leaves it once it has its result.
    fn load_tested(load: LoadTestRun) -> (r: CommandStage)
        ensures
            is_load_tested(load, r),
    {
        if !load.is_over() {
            return CommandStage::LoadTesting { load };
        }
        match load.into_result() {
            Some(Ok(output)) => CommandStage::WritingLoad { output, write: WriteStage::Naming },
            Some(Err(error)) => CommandStage::Failed {
                error: CommandError::LoadTestSetup { error },
            },
            None => vstd::pervasive::unreached(),
        }
    }

    /// Goes on with the benchmark, or leaves it once it has its result.
    fn benched(run: BenchRun) -> (r: CommandStage)
        ensures
            is_benched(run, r),
    {
        if !run.is_over() {
            return CommandStage::Benching { run };
        }
        match run.into_result() {
            Some(Ok(bench)) => {
                let times = match &bench.execution_stats {
                    Some(stats) => Some((stats.witness_generation_ms, stats.execution_ms)),
                    None => None,
                };
                match times {
                    Some((witness_ms, execution_ms)) => {
                        CommandStage::FormattingBench { bench, witness_ms, execution_ms }
                    },
                    None => CommandStage::ReportingBench { bench, timings: BenchTimings::none() },
                }
            },
            Some(Err(bench)) => CommandStage::Failed { error: CommandError::Bench { bench } },
            None => vstd::pervasive::unreached(),
        }
    }

    /// What the command needs done.
    pub fn action(&self) -> (r: CommandAction<'_>)
        ensures
            self.is_pending(r),
    {
        match &self.stage {
            CommandStage::CheckingConfig => CommandAction::CheckConfig {
                path: self.config_path.clone(),
            },
            CommandStage::LoadingConfig => CommandAction::LoadConfig {
                path: self.config_path.clone(),
            },
            CommandStage::Announcing { .. } => CommandAction::Print {
                lines: report::announcement(self.config_path.as_str(), &self.zk_config),
            },
            CommandStage::LoadTesting { load } => CommandAction::Load { load: load.action() },
            CommandStage::WritingLoad { output, write } => write.action(
                BenchResults::LoadTest { load: &output.summary },
            ),
            CommandStage::ReportingCleanup { output } => CommandAction::Print {
                lines: report::cleanup_report(&output.cleanup),
            },
            CommandStage::AnnouncingBench { .. } => CommandAction::Print {
                lines: report::bench_announcement(),
            },
            CommandStage::Benching { run } => CommandAction::Bench { bench: run.action() },
            CommandStage::FormattingBench { witness_ms, execution_ms, .. } => {
                CommandAction::FormatTimings {
                    witness_ms: *witness_ms,
                    execution_ms: *execution_ms,
                }
            },
            CommandStage::ReportingBench { bench, timings } => CommandAction::Print {
                lines: report::bench_report(bench, timings),
            },
            CommandStage::WritingBench { bench, write } => write.action(
                BenchResults::ZkBench { bench },
            ),
            CommandStage::Finished | CommandStage::Failed { .. } => CommandAction::Finish,
        }
    }

    /// Nanoseconds that the present part of the benchmark may take in all, where
    /// it is limited.
    pub open spec fn limit(self) -> Option<u128> {
        match self.stage {
            CommandStage::Benching { run } => run.limit(),
            _ => None,
        }
    }

    /// Nanoseconds that the present part of the benchmark may take in all, where
    /// it is limited.
    pub fn budget(&self) -> (r: Option<u128>)
        ensures
            r == self.limit(),
    {
        match &self.stage {
            CommandStage::Benching { run } => run.budget(),
            _ => None,
        }
    }

    /// Whether the command succeeded, once it is over.
    pub open spec fn result(self) -> Option<Result<(), CommandError>> {
        match self.stage {
            CommandStage::Finished => Some(Ok(())),
            CommandStage::Failed { error } => Some(Err(error)),
            _ => None,
        }
    }

    /// Whether the command succeeded, once it is over.
    pub fn into_result(self) -> (r: Option<Result<(), CommandError>>)
        ensures
            r == self.result(),
    {
        match self.stage {
            CommandStage::Finished => Some(Ok(())),
            CommandStage::Failed { error } => Some(Err(error)),
            _ => None,
        }
    }
}

/// The command before anything is done.
pub open spec fn command_start(
    config_path: String,
    continuous: bool,
    zk_config: ZkBenchConfig,
) -> BenchCommand {
    BenchCommand { config_path, continuous, zk_config, stage: CommandStage::CheckingConfig }
}

} // verus!
