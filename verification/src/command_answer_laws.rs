//! What each answer does to the benchmark command.

use crate::cli;
use crate::cli::{
    BenchCommand, BenchResults, CommandAction, CommandError, CommandEvent, CommandStage, WriteStage,
};
use crate::command_laws;
use crate::config::ZkBenchConfig;
use crate::executor::LoadAction;
use crate::report;
use crate::report::{ResultKind, WriteOutcome};
use crate::run;
use crate::service::BenchAction;
use vstd::prelude::*;

verus! {

/// The command has no result yet, and needs `action` done and nothing else.
pub open spec fn command_asks(command: BenchCommand, action: CommandAction) -> bool {
    &&& forall|a: CommandAction| #[trigger] command.is_pending(a) ==> a == action
    &&& command.result() is None
}

/// The command is over with `error`.
pub open spec fn command_fails(command: BenchCommand, error: CommandError) -> bool {
    &&& forall|a: CommandAction| #[trigger] command.is_pending(a) ==> a is Finish
    &&& command.result() == Some(Err::<(), _>(error))
}

/// What a command is asked stays as it is, whatever happens; and only its
/// benchmark is limited in time, as that says.
pub proof fn law_command_keeps_what_it_is_asked(
    command: BenchCommand,
    event: CommandEvent,
    next: BenchCommand,
)
    requires
        command.is_next(event, next),
    ensures
        next.config_path == command.config_path,
        next.continuous == command.continuous,
        next.zk_config == command.zk_config,
        command.limit() == match command.stage {
            CommandStage::Benching { run } => run.limit(),
            _ => None,
        },
{
}

/// A command takes every answer at every time, but for one: a load test cannot
/// begin from a configuration that names no RPC.
pub proof fn law_command_takes_answers(command: BenchCommand, event: CommandEvent)
    ensures
        command.accepts(event) || (event is Done && (command.stage matches
            CommandStage::Announcing { test_config } && test_config.query_rpc is None
            && test_config.primary_submission_rpc is None)),
{
}

/// A command begins with the configuration file that it is given.
pub proof fn law_command_begins(config_path: String, continuous: bool, zk_config: ZkBenchConfig)
    ensures
        ({
            let command = cli::command_start(config_path, continuous, zk_config);
            &&& command_asks(command, CommandAction::CheckConfig { path: config_path })
            &&& command.stage is CheckingConfig
            &&& command.continuous == continuous
            &&& command.zk_config == zk_config
            &&& command.config_path == config_path
        }),
{
}

/// What a command does until its load test runs. A file that is there is loaded,
/// one that is not ends the command, as does one that cannot be loaded. What is
/// loaded is announced, and with that the load test begins: for the
/// configuration, continuous exactly where that was asked, with txpools cleared,
/// cleanup, a signal handler, and no display. Nothing else changes the command.
pub proof fn law_config_answers(command: BenchCommand, event: CommandEvent, next: BenchCommand)
    requires
        command.accepts(event),
        command.is_next(event, next),
    ensures
        ({
            let path = command.config_path;
            match command.stage {
                CommandStage::CheckingConfig => {
                    command_asks(command, CommandAction::CheckConfig { path }) && match event {
                        CommandEvent::ConfigFile { exists } => if exists {
                            &&& next.stage is LoadingConfig
                            &&& command_asks(next, CommandAction::LoadConfig { path })
                        } else {
                            command_fails(next, CommandError::ConfigNotFound { path })
                        },
                        _ => next == command,
                    }
                },
                CommandStage::LoadingConfig => {
                    command_asks(command, CommandAction::LoadConfig { path }) && match event {
                        CommandEvent::ConfigLoaded { test_config } => {
                            &&& next.stage == (CommandStage::Announcing { test_config })
                            &&& next.result() is None
                            &&& command_laws::prints(
                                next,
                                report::announcement_lines(path@, command.zk_config),
                            )
                        },
                        CommandEvent::Failed { error } => command_fails(
                            next,
                            CommandError::ConfigLoad { error },
                        ),
                        _ => next == command,
                    }
                },
                CommandStage::Announcing { test_config } => match event {
                    CommandEvent::Done => {
                        &&& next.result() is None
                        &&& next.stage matches CommandStage::LoadTesting { load }
                        &&& load.options.continuous == command.continuous
                        &&& load.options.clear_txpools
                        &&& load.options.cleanup
                        &&& load.options.install_signal_handler
                        &&& !load.display
                        &&& load.config_summary == test_config.summary
                        &&& command_asks(
                            next,
                            CommandAction::Load {
                                load: LoadAction::ConnectQuery {
                                    url: match test_config.query_rpc {
                                        Some(url) => url,
                                        None => test_config.primary_submission_rpc->0,
                                    },
                                },
                            },
                        )
                    },
                    _ => next == command,
                },
                _ => true,
            }
        }),
{
}

/// What a command does while its load test runs: it asks for what the test asks
/// for and takes its answers. With an output of the test it turns to the file for
/// that; a test that could not be set up ends the command with the error of the
/// test. Nothing else changes the command.
pub proof fn law_load_test_answers(command: BenchCommand, event: CommandEvent, next: BenchCommand)
    requires
        command.is_next(event, next),
    ensures
        command.stage matches CommandStage::LoadTesting { load } ==> {
            &&& command.result() is None
            &&& forall|a: CommandAction| #[trigger]
                command.is_pending(a) ==> (a matches CommandAction::Load { load: asked }
                    && load.is_pending(asked))
            &&& match event {
                CommandEvent::Load { load: answer } => if !load.next(answer).over() {
                    next.stage == (CommandStage::LoadTesting { load: load.next(answer) })
                } else {
                    match next.stage {
                        CommandStage::WritingLoad { output, write } => {
                            &&& load.next(answer).is_result(Some(Ok(output)))
                            &&& reads(next, "LOAD_TEST_OUTPUT"@)
                        },
                        CommandStage::Failed { error } => {
                            &&& error matches CommandError::LoadTestSetup { error: reported }
                            &&& load.next(answer).is_result(Some(Err(reported)))
                            &&& command_fails(next, error)
                        },
                        _ => false,
                    }
                },
                _ => next == command,
            }
        },
{
}

/// The command has no result yet, and needs the environment variable `name`
/// read and nothing else.
pub open spec fn reads(command: BenchCommand, name: Seq<char>) -> bool {
    command_laws::reads_variable(command, name) && command.result() is None
}

/// What a command does with the results of its load test. Whatever comes of
/// their file, the cleanup of the test is reported next. Then a test that
/// reported a failure ends the command with that; after one that did not, the
/// benchmark is announced, and begun for that test and the configuration of the
/// command. Nothing else changes the command.
pub proof fn law_load_results_answers(
    command: BenchCommand,
    event: CommandEvent,
    next: BenchCommand,
)
    requires
        command.is_next(event, next),
    ensures
        match command.stage {
            CommandStage::WritingLoad { output, write } => {
                &&& command.result() is None
                &&& forall|a: CommandAction| #[trigger]
                    command.is_pending(a) ==> write.is_pending(
                        BenchResults::LoadTest { load: &output.summary },
                        a,
                    )
                &&& if write.next(event) is Over {
                    &&& next.stage == (CommandStage::ReportingCleanup { output })
                    &&& command_laws::prints(
                        next,
                        report::teardown_lines(output.cleanup) + report::drain_lines(
                            output.cleanup,
                        ),
                    )
                } else {
                    next.stage == (CommandStage::WritingLoad { output, write: write.next(event) })
                }
            },
            CommandStage::ReportingCleanup { output } => {
                command.result() is None && if event is Done {
                    match output.summary.error {
                        Some(error) => command_fails(next, CommandError::LoadTestFailed { error }),
                        None => {
                            &&& next.stage == (CommandStage::AnnouncingBench {
                                summary: output.summary,
                            })
                            &&& command_laws::prints(next, report::bench_announcement_lines())
                        },
                    }
                } else {
                    next == command
                }
            },
            CommandStage::AnnouncingBench { summary } => {
                command.result() is None && if event is Done {
                    match next.stage {
                        CommandStage::Benching { run } => {
                            &&& run::is_start(summary, command.zk_config, Ok(run))
                            &&& command_asks(
                                next,
                                CommandAction::Bench {
                                    bench: BenchAction::ConnectRollup {
                                        url: command.zk_config.rollup_rpc_url,
                                    },
                                },
                            )
                        },
                        CommandStage::Failed { error } => {
                            &&& error matches CommandError::Bench { bench }
                            &&& run::is_start(summary, command.zk_config, Err(bench))
                            &&& command_fails(next, error)
                        },
                        _ => false,
                    }
                } else {
                    next == command
                }
            },
            _ => true,
        },
{
}

/// What a command does with its benchmark: it asks for what the benchmark asks
/// for and takes its answers. An error of the benchmark ends the command. A
/// summary is printed, once its times are text if it has stats, and then turned
/// over to the file for it; and whatever comes of that, the command has
/// succeeded. Nothing else changes the command.
pub proof fn law_bench_answers(command: BenchCommand, event: CommandEvent, next: BenchCommand)
    requires
        command.is_next(event, next),
    ensures
        match command.stage {
            CommandStage::Benching { run } => {
                &&& command.result() is None
                &&& forall|a: CommandAction| #[trigger]
                    command.is_pending(a) ==> (a matches CommandAction::Bench { bench: asked }
                        && run.is_pending(asked))
                &&& match event {
                    CommandEvent::Bench { bench: answer } => if !run.next(answer).over() {
                        next.stage == (CommandStage::Benching { run: run.next(answer) })
                    } else {
                        match next.stage {
                            CommandStage::FormattingBench { bench, .. } => {
                                &&& run.next(answer).is_result(Some(Ok(bench)))
                                &&& bench.execution_stats matches Some(stats)
                                &&& command_asks(
                                    next,
                                    CommandAction::FormatTimings {
                                        witness_ms: stats.witness_generation_ms,
                                        execution_ms: stats.execution_ms,
                                    },
                                )
                            },
                            CommandStage::ReportingBench { bench, timings } => {
                                &&& run.next(answer).is_result(Some(Ok(bench)))
                                &&& bench.execution_stats is None
                                &&& command_laws::prints(next, report::bench_lines(bench, timings))
                            },
                            CommandStage::Failed { error } => {
                                &&& error matches CommandError::Bench { bench }
                                &&& run.next(answer).is_result(Some(Err(bench)))
                                &&& command_fails(next, error)
                            },
                            _ => false,
                        }
                    },
                    _ => next == command,
                }
            },
            CommandStage::FormattingBench { bench, .. } => {
                command.result() is None && match event {
                    CommandEvent::Timings { timings } => {
                        &&& next.stage == (CommandStage::ReportingBench { bench, timings })
                        &&& command_laws::prints(next, report::bench_lines(bench, timings))
                    },
                    _ => next == command,
                }
            },
            CommandStage::ReportingBench { bench, timings } => {
                command.result() is None && if event is Done {
                    &&& next.stage matches CommandStage::WritingBench { bench: kept, .. }
                    &&& kept == bench
                    &&& reads(next, "ZK_BENCH_OUTPUT"@)
                } else {
                    next == command
                }
            },
            CommandStage::WritingBench { bench, write } => {
                &&& command.result() is None
                &&& forall|a: CommandAction| #[trigger]
                    command.is_pending(a) ==> write.is_pending(
                        BenchResults::ZkBench { bench: &bench },
                        a,
                    )
                &&& if write.next(event) is Over {
                    &&& next.result() == Some(Ok::<(), CommandError>(()))
                    &&& forall|a: CommandAction| #[trigger] next.is_pending(a) ==> a is Finish
                } else {
                    next.stage == (CommandStage::WritingBench { bench, write: write.next(event) })
                }
            },
            CommandStage::Finished => {
                next == command && command.result() == Some(Ok::<(), CommandError>(()))
            },
            CommandStage::Failed { error } => next == command && command_fails(command, error),
            _ => true,
        },
{
}

/// What the writing of results does with each answer. Where the environment
/// names no file, nothing is written. Else the very results are serialized, and
/// what comes of that is written to that file. What came of it all is told in one
/// line, and with that the results are dealt with. Nothing else changes the
/// writing.
pub proof fn law_write_answers(write: WriteStage, results: BenchResults, event: CommandEvent)
    ensures
        forall|a: CommandAction| #[trigger]
            write.is_pending(results, a) ==> match write {
                WriteStage::Naming => {
                    &&& a is ReadVariable
                    &&& a->name@ == match results {
                        BenchResults::LoadTest { .. } => "LOAD_TEST_OUTPUT"@,
                        BenchResults::ZkBench { .. } => "ZK_BENCH_OUTPUT"@,
                    }
                },
                WriteStage::Serializing { .. } => a == (CommandAction::Serialize { results }),
                WriteStage::Writing { path, json } => {
                    a == (CommandAction::WriteFile { path, content: json })
                },
                WriteStage::Reporting { outcome } => {
                    &&& a is Print
                    &&& report::lines_view(a->lines@) == seq![
                        report::write_line(
                            match results {
                                BenchResults::LoadTest { .. } => ResultKind::LoadTest,
                                BenchResults::ZkBench { .. } => ResultKind::ZkBench,
                            },
                            outcome,
                        ),
                    ]
                },
                WriteStage::Over => a is Finish,
            },
        write.next(event) == match (write, event) {
            (WriteStage::Naming, CommandEvent::Variable { value: None }) => WriteStage::Over,
            (WriteStage::Naming, CommandEvent::Variable { value: Some(path) }) => {
                WriteStage::Serializing { path }
            },
            (WriteStage::Serializing { path }, CommandEvent::Serialized { json }) => {
                WriteStage::Writing { path, json }
            },
            (WriteStage::Serializing { .. }, CommandEvent::Failed { error }) => {
                WriteStage::Reporting { outcome: WriteOutcome::NotSerialized { error } }
            },
            (WriteStage::Writing { path, .. }, CommandEvent::Done) => {
                WriteStage::Reporting { outcome: WriteOutcome::Written { path } }
            },
            (WriteStage::Writing { path, .. }, CommandEvent::Failed { error }) => {
                WriteStage::Reporting { outcome: WriteOutcome::NotWritten { path, error } }
            },
            (WriteStage::Reporting { .. }, CommandEvent::Done) => WriteStage::Over,
            (unanswered, _) => unanswered,
        },
{
}

} // verus!
