//! What holds of the benchmark command as a whole.

use crate::cli;
use crate::cli::{
    BenchCommand, BenchResults, CommandAction, CommandError, CommandEvent, CommandStage, WriteStage,
};
use crate::error::ZkBenchError;
use crate::executor;
use crate::executor::{LoadAction, LoadEvent, LoadTestRun, LoadTestRunOutput, TestConfig};
use crate::laws;
use crate::metrics::MetricsSummary;
use crate::report;
use crate::report::{BenchTimings, ReportStream, ResultKind, WriteOutcome};
use crate::run;
use crate::run::BenchRun;
use crate::service::{BenchAction, BenchEvent};
use crate::summary::ZkBenchSummary;
use vstd::prelude::*;

verus! {

/// The command at `k` goes over to the next with the event at `k`.
pub open spec fn stepped(states: Seq<BenchCommand>, events: Seq<CommandEvent>, k: int) -> bool {
    states[k].accepts(events[k]) && states[k].is_next(events[k], states[k + 1])
}

/// A command starts as the first of `states` and goes through them as `events`
/// happen.
pub open spec fn is_trace(states: Seq<BenchCommand>, events: Seq<CommandEvent>) -> bool {
    &&& states.len() == events.len() + 1
    &&& states[0].stage is CheckingConfig
    &&& forall|k: int| 0 <= k < events.len() ==> #[trigger] stepped(states, events, k)
}

/// The event at `k`, among the first `n`, is `event`, and came when `action` was
/// to be done.
pub open spec fn answered_at(
    states: Seq<BenchCommand>,
    events: Seq<CommandEvent>,
    n: int,
    k: int,
    action: CommandAction,
    event: CommandEvent,
) -> bool {
    0 <= k < n && states[k].is_pending(action) && events[k] == event
}

/// One of the first `n` events answered `action` with `event`.
pub open spec fn answered(
    states: Seq<BenchCommand>,
    events: Seq<CommandEvent>,
    n: int,
    action: CommandAction,
    event: CommandEvent,
) -> bool {
    exists|k: int| answered_at(states, events, n, k, action, event)
}

/// The configuration file was found, and loaded as `test_config`.
pub open spec fn config_loaded(
    states: Seq<BenchCommand>,
    events: Seq<CommandEvent>,
    n: int,
    test_config: TestConfig,
) -> bool {
    let path = states[0].config_path;
    &&& answered(
        states,
        events,
        n,
        CommandAction::CheckConfig { path },
        CommandEvent::ConfigFile { exists: true },
    )
    &&& answered(
        states,
        events,
        n,
        CommandAction::LoadConfig { path },
        CommandEvent::ConfigLoaded { test_config },
    )
}

/// A load test was begun from the configuration that was loaded, which names an
/// RPC.
pub open spec fn load_begun(
    states: Seq<BenchCommand>,
    events: Seq<CommandEvent>,
    n: int,
    test_config: TestConfig,
) -> bool {
    config_loaded(states, events, n, test_config) && test_config.well_formed()
}

/// What came, among the first `n` events, of what the load test needed done.
pub open spec fn load_events(
    states: Seq<BenchCommand>,
    events: Seq<CommandEvent>,
    n: int,
) -> Seq<LoadEvent>
    decreases n,
{
    if n <= 0 {
        Seq::empty()
    } else {
        let before = load_events(states, events, n - 1);
        match (states[n - 1].stage, events[n - 1]) {
            (CommandStage::LoadTesting { load: _ }, CommandEvent::Load { load }) => {
                before.push(load)
            },
            _ => before,
        }
    }
}

/// The load test of `test_config` after the first `n` events, with the options
/// of the command and no display.
pub open spec fn load_at(
    states: Seq<BenchCommand>,
    events: Seq<CommandEvent>,
    n: int,
    test_config: TestConfig,
) -> LoadTestRun {
    executor::load_test_start(
        test_config,
        cli::command_options(states[0].continuous),
        false,
    ).after(load_events(states, events, n))
}

/// The load test of the configuration that was loaded came to `r`.
pub open spec fn load_ended(
    states: Seq<BenchCommand>,
    events: Seq<CommandEvent>,
    n: int,
    r: Result<LoadTestRunOutput, String>,
) -> bool {
    exists|test_config: TestConfig| #[trigger]
        load_begun(states, events, n, test_config) && load_at(
            states,
            events,
            n,
            test_config,
        ).is_result(Some(r))
}

/// The load test reported `summary`.
pub open spec fn reported_load(
    states: Seq<BenchCommand>,
    events: Seq<CommandEvent>,
    n: int,
    summary: MetricsSummary,
) -> bool {
    exists|output: LoadTestRunOutput| #[trigger]
        load_ended(states, events, n, Ok(output)) && output.summary == summary
}

/// The benchmark was begun as `begun`, for a load test that reported no failure.
pub open spec fn bench_begun(
    states: Seq<BenchCommand>,
    events: Seq<CommandEvent>,
    n: int,
    begun: Result<BenchRun, ZkBenchError>,
) -> bool {
    exists|summary: MetricsSummary| #[trigger]
        reported_load(states, events, n, summary) && summary.error is None && run::is_start(
            summary,
            states[0].zk_config,
            begun,
        )
}

/// What came, among the first `n` events, of what the benchmark needed done.
pub open spec fn bench_events(
    states: Seq<BenchCommand>,
    events: Seq<CommandEvent>,
    n: int,
) -> Seq<BenchEvent>
    decreases n,
{
    if n <= 0 {
        Seq::empty()
    } else {
        let before = bench_events(states, events, n - 1);
        match (states[n - 1].stage, events[n - 1]) {
            (CommandStage::Benching { run: _ }, CommandEvent::Bench { bench }) => {
                before.push(bench)
            },
            _ => before,
        }
    }
}

/// The benchmark that was begun for the load test came to `r`.
pub open spec fn bench_ended(
    states: Seq<BenchCommand>,
    events: Seq<CommandEvent>,
    n: int,
    r: Result<ZkBenchSummary, ZkBenchError>,
) -> bool {
    exists|begun: BenchRun| #[trigger]
        bench_begun(states, events, n, Ok(begun)) && begun.after(
            bench_events(states, events, n),
        ).is_result(Some(r))
}

/// The times are those of the summary as they were turned to text, or none if
/// it has no stats.
pub open spec fn formatted(
    states: Seq<BenchCommand>,
    events: Seq<CommandEvent>,
    n: int,
    bench: ZkBenchSummary,
    timings: BenchTimings,
) -> bool {
    match bench.execution_stats {
        None => timings.blank(),
        Some(stats) => answered(
            states,
            events,
            n,
            CommandAction::FormatTimings {
                witness_ms: stats.witness_generation_ms,
                execution_ms: stats.execution_ms,
            },
            CommandEvent::Timings { timings },
        ),
    }
}

/// What the command needs done is to print `lines`.
pub open spec fn prints(command: BenchCommand, lines: Seq<(ReportStream, Seq<char>)>) -> bool {
    forall|action: CommandAction| #[trigger]
        command.is_pending(action) ==> action is Print && report::lines_view(action->lines@)
            == lines
}

/// The event at `k` came when the lines on `bench` had been printed, with times
/// that were its own.
pub open spec fn bench_printed_at(
    states: Seq<BenchCommand>,
    events: Seq<CommandEvent>,
    k: int,
    bench: ZkBenchSummary,
    timings: BenchTimings,
) -> bool {
    &&& formatted(states, events, k, bench, timings)
    &&& prints(states[k], report::bench_lines(bench, timings))
    &&& events[k] is Done
}

/// The lines on `bench` were printed, with its times.
pub open spec fn bench_printed(
    states: Seq<BenchCommand>,
    events: Seq<CommandEvent>,
    n: int,
    bench: ZkBenchSummary,
) -> bool {
    exists|k: int, timings: BenchTimings|
        0 <= k < n && #[trigger] bench_printed_at(states, events, k, bench, timings)
}

/// What the command needs done is to read the environment variable `name`.
pub open spec fn reads_variable(command: BenchCommand, name: Seq<char>) -> bool {
    forall|action: CommandAction| #[trigger]
        command.is_pending(action) ==> action is ReadVariable && action->name@ == name
}

/// The event at `k` told that the environment variable `name` is `value`.
pub open spec fn variable_read_at(
    states: Seq<BenchCommand>,
    events: Seq<CommandEvent>,
    k: int,
    name: Seq<char>,
    value: String,
) -> bool {
    reads_variable(states[k], name) && events[k] == (CommandEvent::Variable { value: Some(value) })
}

/// The file for results of the kind was named: it is `path`.
pub open spec fn file_named(
    states: Seq<BenchCommand>,
    events: Seq<CommandEvent>,
    n: int,
    kind: ResultKind,
    path: String,
) -> bool {
    exists|k: int|
        0 <= k < n && #[trigger] variable_read_at(
            states,
            events,
            k,
            cli::variable_name(kind),
            path,
        )
}

/// `results` were serialized as `json`, for the file at `path`, which was named
/// for them.
pub open spec fn serialized(
    states: Seq<BenchCommand>,
    events: Seq<CommandEvent>,
    n: int,
    results: BenchResults,
    path: String,
    json: String,
) -> bool {
    &&& file_named(states, events, n, results.of_kind(), path)
    &&& answered(
        states,
        events,
        n,
        CommandAction::Serialize { results },
        CommandEvent::Serialized { json },
    )
}

/// `event` is what came of writing `results`, serialized, to the file at `path`,
/// which was named for them.
pub open spec fn file_attempted(
    states: Seq<BenchCommand>,
    events: Seq<CommandEvent>,
    n: int,
    results: BenchResults,
    path: String,
    event: CommandEvent,
) -> bool {
    exists|json: String| #[trigger]
        serialized(states, events, n, results, path, json) && answered(
            states,
            events,
            n,
            CommandAction::WriteFile { path, content: json },
            event,
        )
}

/// `outcome` is what came of writing `results`.
pub open spec fn write_accounted_for(
    states: Seq<BenchCommand>,
    events: Seq<CommandEvent>,
    n: int,
    results: BenchResults,
    outcome: WriteOutcome,
) -> bool {
    match outcome {
        WriteOutcome::Written { path } => file_attempted(
            states,
            events,
            n,
            results,
            path,
            CommandEvent::Done,
        ),
        WriteOutcome::NotWritten { path, error } => file_attempted(
            states,
            events,
            n,
            results,
            path,
            CommandEvent::Failed { error },
        ),
        WriteOutcome::NotSerialized { error } => answered(
            states,
            events,
            n,
            CommandAction::Serialize { results },
            CommandEvent::Failed { error },
        ),
    }
}

/// What is known of the writing of `results`.
spec fn write_known(
    states: Seq<BenchCommand>,
    events: Seq<CommandEvent>,
    n: int,
    results: BenchResults,
    write: WriteStage,
) -> bool {
    match write {
        WriteStage::Naming => true,
        WriteStage::Serializing { path } => file_named(states, events, n, results.of_kind(), path),
        WriteStage::Writing { path, json } => serialized(states, events, n, results, path, json),
        WriteStage::Reporting { outcome } => write_accounted_for(
            states,
            events,
            n,
            results,
            outcome,
        ),
        WriteStage::Over => false,
    }
}

/// The command failed with `error` for a reason that an answer gave.
pub open spec fn failure_accounted_for(
    states: Seq<BenchCommand>,
    events: Seq<CommandEvent>,
    n: int,
    error: CommandError,
) -> bool {
    let config_path = states[0].config_path;
    match error {
        CommandError::ConfigNotFound { path } => {
            &&& path == config_path
            &&& answered(
                states,
                events,
                n,
                CommandAction::CheckConfig { path },
                CommandEvent::ConfigFile { exists: false },
            )
        },
        CommandError::ConfigLoad { error } => answered(
            states,
            events,
            n,
            CommandAction::LoadConfig { path: config_path },
            CommandEvent::Failed { error },
        ),
        CommandError::LoadTestSetup { error } => load_ended(states, events, n, Err(error)),
        CommandError::LoadTestFailed { error } => load_blamed(states, events, n, error),
        CommandError::Bench { bench } => {
            bench_begun(states, events, n, Err(bench)) || bench_ended(states, events, n, Err(bench))
        },
    }
}

/// The load test reported `error`.
pub open spec fn load_blamed(
    states: Seq<BenchCommand>,
    events: Seq<CommandEvent>,
    n: int,
    error: String,
) -> bool {
    exists|summary: MetricsSummary| #[trigger]
        reported_load(states, events, n, summary) && summary.error == Some(error)
}

/// The load test of the configuration that was loaded is at `load`, and goes on.
pub open spec fn load_goes_on(
    states: Seq<BenchCommand>,
    events: Seq<CommandEvent>,
    n: int,
    load: LoadTestRun,
) -> bool {
    &&& load.is_result(None)
    &&& exists|test_config: TestConfig| #[trigger]
        load_begun(states, events, n, test_config) && load == load_at(
            states,
            events,
            n,
            test_config,
        )
}

/// The benchmark that was begun for the load test is at `run`, and goes on.
pub open spec fn bench_goes_on(
    states: Seq<BenchCommand>,
    events: Seq<CommandEvent>,
    n: int,
    run: BenchRun,
) -> bool {
    &&& run.is_result(None)
    &&& exists|begun: BenchRun| #[trigger]
        bench_begun(states, events, n, Ok(begun)) && run == begun.after(
            bench_events(states, events, n),
        )
}

/// The benchmark came to a summary, which was printed.
pub open spec fn succeeded(
    states: Seq<BenchCommand>,
    events: Seq<CommandEvent>,
    n: int,
) -> bool {
    exists|bench: ZkBenchSummary| #[trigger]
        bench_ended(states, events, n, Ok(bench)) && bench_printed(states, events, n, bench)
}

/// What is known of the load test and the benchmark of a command after its first
/// `n` events.
spec fn known(states: Seq<BenchCommand>, events: Seq<CommandEvent>, n: int) -> bool {
    &&& states[n].config_path == states[0].config_path
    &&& states[n].continuous == states[0].continuous
    &&& states[n].zk_config == states[0].zk_config
    &&& match states[n].stage {
        CommandStage::CheckingConfig => {
            &&& load_events(states, events, n) == Seq::<LoadEvent>::empty()
            &&& bench_events(states, events, n) == Seq::<BenchEvent>::empty()
        },
        CommandStage::LoadingConfig => {
            &&& load_events(states, events, n) == Seq::<LoadEvent>::empty()
            &&& bench_events(states, events, n) == Seq::<BenchEvent>::empty()
            &&& answered(
                states,
                events,
                n,
                CommandAction::CheckConfig { path: states[0].config_path },
                CommandEvent::ConfigFile { exists: true },
            )
        },
        CommandStage::Announcing { test_config } => {
            &&& load_events(states, events, n) == Seq::<LoadEvent>::empty()
            &&& bench_events(states, events, n) == Seq::<BenchEvent>::empty()
            &&& config_loaded(states, events, n, test_config)
        },
        CommandStage::LoadTesting { load } => {
            bench_events(states, events, n) == Seq::<BenchEvent>::empty() && load_goes_on(
                states,
                events,
                n,
                load,
            )
        },
        CommandStage::WritingLoad { output, write } => {
            &&& bench_events(states, events, n) == Seq::<BenchEvent>::empty()
            &&& load_ended(states, events, n, Ok(output))
            &&& write_known(
                states,
                events,
                n,
                BenchResults::LoadTest { load: &output.summary },
                write,
            )
        },
        CommandStage::ReportingCleanup { output } => {
            &&& bench_events(states, events, n) == Seq::<BenchEvent>::empty()
            &&& load_ended(states, events, n, Ok(output))
        },
        CommandStage::AnnouncingBench { summary } => {
            &&& bench_events(states, events, n) == Seq::<BenchEvent>::empty()
            &&& reported_load(states, events, n, summary)
            &&& summary.error is None
        },
        CommandStage::Benching { run } => bench_goes_on(states, events, n, run),
        CommandStage::FormattingBench { bench, witness_ms, execution_ms } => {
            &&& bench_ended(states, events, n, Ok(bench))
            &&& bench.execution_stats is Some
            &&& witness_ms == bench.execution_stats->0.witness_generation_ms
            &&& execution_ms == bench.execution_stats->0.execution_ms
        },
        CommandStage::ReportingBench { bench, timings } => {
            &&& bench_ended(states, events, n, Ok(bench))
            &&& formatted(states, events, n, bench, timings)
        },
        CommandStage::WritingBench { bench, write } => {
            &&& bench_ended(states, events, n, Ok(bench))
            &&& bench_printed(states, events, n, bench)
            &&& write_known(states, events, n, BenchResults::ZkBench { bench: &bench }, write)
        },
        CommandStage::Finished => succeeded(states, events, n),
        CommandStage::Failed { error } => failure_accounted_for(states, events, n, error),
    }
}

/// What was answered stays answered as events happen, and the event that
/// happens answers what was to be done.
proof fn lemma_answers_grow(states: Seq<BenchCommand>, events: Seq<CommandEvent>, n: int)
    requires
        0 <= n,
    ensures
        forall|a: CommandAction, e: CommandEvent| #[trigger]
            answered(states, events, n, a, e) ==> answered(states, events, n + 1, a, e),
        forall|a: CommandAction| #[trigger]
            states[n].is_pending(a) ==> answered(states, events, n + 1, a, events[n]),
        forall|t: TestConfig| #[trigger]
            config_loaded(states, events, n, t) ==> config_loaded(states, events, n + 1, t),
        forall|t: TestConfig| #[trigger]
            load_begun(states, events, n, t) ==> load_begun(states, events, n + 1, t),
        forall|k: ResultKind, p: String| #[trigger]
            file_named(states, events, n, k, p) ==> file_named(states, events, n + 1, k, p),
        forall|r: BenchResults, p: String, j: String| #[trigger]
            serialized(states, events, n, r, p, j) ==> serialized(states, events, n + 1, r, p, j),
        forall|r: BenchResults, o: WriteOutcome| #[trigger]
            write_accounted_for(states, events, n, r, o) ==> write_accounted_for(
                states,
                events,
                n + 1,
                r,
                o,
            ),
        forall|b: ZkBenchSummary| #[trigger]
            bench_printed(states, events, n, b) ==> bench_printed(states, events, n + 1, b),
        forall|b: ZkBenchSummary, t: BenchTimings| #[trigger]
            formatted(states, events, n, b, t) ==> formatted(states, events, n + 1, b, t),
{
    assert forall|a: CommandAction, e: CommandEvent| #[trigger]
        answered(states, events, n, a, e) implies answered(states, events, n + 1, a, e) by {
        let k = choose|k: int| answered_at(states, events, n, k, a, e);
        assert(answered_at(states, events, n + 1, k, a, e));
    }
    assert forall|a: CommandAction| #[trigger] states[n].is_pending(a) implies answered(
        states,
        events,
        n + 1,
        a,
        events[n],
    ) by {
        assert(answered_at(states, events, n + 1, n, a, events[n]));
    }
    assert forall|r: BenchResults, p: String, e: CommandEvent| #[trigger]
        file_attempted(states, events, n, r, p, e) implies file_attempted(
        states,
        events,
        n + 1,
        r,
        p,
        e,
    ) by {
        let json = choose|json: String| #[trigger]
            serialized(states, events, n, r, p, json) && answered(
                states,
                events,
                n,
                CommandAction::WriteFile { path: p, content: json },
                e,
            );
        assert(serialized(states, events, n + 1, r, p, json));
    }
}

/// Until the load test runs on, what is known of its end stays known; and until
/// the benchmark runs on, so does what is known of that.
proof fn lemma_ends_grow(states: Seq<BenchCommand>, events: Seq<CommandEvent>, n: int)
    requires
        0 <= n,
        load_events(states, events, n + 1) == load_events(states, events, n),
    ensures
        forall|r: Result<LoadTestRunOutput, String>| #[trigger]
            load_ended(states, events, n, r) ==> load_ended(states, events, n + 1, r),
        forall|s: MetricsSummary| #[trigger]
            reported_load(states, events, n, s) ==> reported_load(states, events, n + 1, s),
        forall|b: Result<BenchRun, ZkBenchError>| #[trigger]
            bench_begun(states, events, n, b) ==> bench_begun(states, events, n + 1, b),
        forall|e: String| #[trigger]
            load_blamed(states, events, n, e) ==> load_blamed(states, events, n + 1, e),
        bench_events(states, events, n + 1) == bench_events(states, events, n) ==> forall|
            r: Result<ZkBenchSummary, ZkBenchError>,
        | #[trigger]
            bench_ended(states, events, n, r) ==> bench_ended(states, events, n + 1, r),
{
    lemma_answers_grow(states, events, n);
    assert forall|r: Result<LoadTestRunOutput, String>| #[trigger]
        load_ended(states, events, n, r) implies load_ended(states, events, n + 1, r) by {
        let t = choose|t: TestConfig| #[trigger]
            load_begun(states, events, n, t) && load_at(states, events, n, t).is_result(Some(r));
        assert(load_begun(states, events, n + 1, t));
    }
    assert forall|s: MetricsSummary| #[trigger]
        reported_load(states, events, n, s) implies reported_load(states, events, n + 1, s) by {
        let o = choose|o: LoadTestRunOutput| #[trigger]
            load_ended(states, events, n, Ok(o)) && o.summary == s;
        assert(load_ended(states, events, n + 1, Ok(o)));
    }
    assert forall|b: Result<BenchRun, ZkBenchError>| #[trigger]
        bench_begun(states, events, n, b) implies bench_begun(states, events, n + 1, b) by {
        let s = choose|s: MetricsSummary| #[trigger]
            reported_load(states, events, n, s) && s.error is None && run::is_start(
                s,
                states[0].zk_config,
                b,
            );
        assert(reported_load(states, events, n + 1, s));
    }
    assert forall|e: String| #[trigger] load_blamed(states, events, n, e) implies load_blamed(
        states,
        events,
        n + 1,
        e,
    ) by {
        let s = choose|s: MetricsSummary| #[trigger]
            reported_load(states, events, n, s) && s.error == Some(e);
        assert(reported_load(states, events, n + 1, s));
    }
    if bench_events(states, events, n + 1) == bench_events(states, events, n) {
        assert forall|r: Result<ZkBenchSummary, ZkBenchError>| #[trigger]
            bench_ended(states, events, n, r) implies bench_ended(states, events, n + 1, r) by {
            let b = choose|b: BenchRun| #[trigger]
                bench_begun(states, events, n, Ok(b)) && b.after(
                    bench_events(states, events, n),
                ).is_result(Some(r));
            assert(bench_begun(states, events, n + 1, Ok(b)));
        }
    }
}

/// What is known of the writing of `results` stays known, until they are dealt
/// with.
proof fn lemma_write_step(
    states: Seq<BenchCommand>,
    events: Seq<CommandEvent>,
    n: int,
    results: BenchResults,
    write: WriteStage,
)
    requires
        0 <= n,
        forall|a: CommandAction| #[trigger]
            states[n].is_pending(a) <==> write.is_pending(results, a),
        write_known(states, events, n, results, write),
    ensures
        write.next(events[n]) is Over || write_known(
            states,
            events,
            n + 1,
            results,
            write.next(events[n]),
        ),
{
    lemma_answers_grow(states, events, n);
    match (write, events[n]) {
        (WriteStage::Naming, CommandEvent::Variable { value: Some(path) }) => {
            assert(variable_read_at(
                states,
                events,
                n,
                cli::variable_name(results.of_kind()),
                path,
            ));
        },
        (WriteStage::Serializing { path }, _) => {
            assert(states[n].is_pending(CommandAction::Serialize { results }));
        },
        (WriteStage::Writing { path, json }, _) => {
            assert(states[n].is_pending(CommandAction::WriteFile { path, content: json }));
            assert(serialized(states, events, n + 1, results, path, json));
            assert(file_attempted(states, events, n + 1, results, path, events[n]));
        },
        _ => {},
    }
}

/// What is known of the configuration and the load test stays known as events
/// happen.
proof fn lemma_load_step(states: Seq<BenchCommand>, events: Seq<CommandEvent>, n: int)
    requires
        0 <= n,
        known(states, events, n),
        stepped(states, events, n),
        states[n].stage is CheckingConfig || states[n].stage is LoadingConfig
            || states[n].stage is Announcing || states[n].stage is LoadTesting,
    ensures
        known(states, events, n + 1),
{
    lemma_answers_grow(states, events, n);
    let path = states[0].config_path;
    match states[n].stage {
        CommandStage::CheckingConfig => {
            assert(states[n].is_pending(CommandAction::CheckConfig { path }));
        },
        CommandStage::LoadingConfig => {
            assert(states[n].is_pending(CommandAction::LoadConfig { path }));
            if let CommandEvent::ConfigLoaded { test_config } = events[n] {
                assert(config_loaded(states, events, n + 1, test_config));
            }
        },
        CommandStage::Announcing { test_config } => {
            assert(config_loaded(states, events, n + 1, test_config));
            if events[n] is Done {
                assert(load_begun(states, events, n + 1, test_config));
            }
        },
        CommandStage::LoadTesting { load } => {
            let t = choose|t: TestConfig| #[trigger]
                load_begun(states, events, n, t) && load == load_at(states, events, n, t);
            assert(load_begun(states, events, n + 1, t));
            if let CommandEvent::Load { load: event } = events[n] {
                let before = load_events(states, events, n);
                assert(before.push(event).drop_last() =~= before);
                assert(load_at(states, events, n + 1, t) == load.next(event));
            }
        },
        _ => {},
    }
}

/// What is known of the results of the load test stays known as events happen.
proof fn lemma_loaded_step(states: Seq<BenchCommand>, events: Seq<CommandEvent>, n: int)
    requires
        0 <= n,
        known(states, events, n),
        stepped(states, events, n),
        states[n].stage is WritingLoad || states[n].stage is ReportingCleanup
            || states[n].stage is AnnouncingBench,
    ensures
        known(states, events, n + 1),
{
    lemma_ends_grow(states, events, n);
    match states[n].stage {
        CommandStage::WritingLoad { output, write } => {
            lemma_write_step(
                states,
                events,
                n,
                BenchResults::LoadTest { load: &output.summary },
                write,
            );
            assert(load_ended(states, events, n + 1, Ok(output)));
        },
        CommandStage::ReportingCleanup { output } => {
            assert(load_ended(states, events, n + 1, Ok(output)));
            assert(reported_load(states, events, n + 1, output.summary));
        },
        CommandStage::AnnouncingBench { summary } => {
            assert(reported_load(states, events, n + 1, summary));
            match states[n + 1].stage {
                CommandStage::Benching { run } => {
                    assert(bench_begun(states, events, n + 1, Ok(run)));
                },
                CommandStage::Failed { error: CommandError::Bench { bench } } => {
                    assert(bench_begun(states, events, n + 1, Err(bench)));
                },
                _ => {},
            }
        },
        _ => {},
    }
}

/// What is known of the benchmark stays known as events happen.
proof fn lemma_bench_step(states: Seq<BenchCommand>, events: Seq<CommandEvent>, n: int)
    requires
        0 <= n,
        known(states, events, n),
        stepped(states, events, n),
        states[n].stage is Benching || states[n].stage is FormattingBench
            || states[n].stage is ReportingBench,
    ensures
        known(states, events, n + 1),
{
    lemma_ends_grow(states, events, n);
    match states[n].stage {
        CommandStage::Benching { run } => {
            let begun = choose|begun: BenchRun| #[trigger]
                bench_begun(states, events, n, Ok(begun)) && run == begun.after(
                    bench_events(states, events, n),
                );
            assert(bench_begun(states, events, n + 1, Ok(begun)));
            if let CommandEvent::Bench { bench: event } = events[n] {
                let before = bench_events(states, events, n);
                assert(before.push(event).drop_last() =~= before);
                assert(begun.after(bench_events(states, events, n + 1)) == run.next(event));
            }
        },
        CommandStage::FormattingBench { bench, witness_ms, execution_ms } => {
            lemma_answers_grow(states, events, n);
            assert(bench_ended(states, events, n + 1, Ok(bench)));
            assert(states[n].is_pending(CommandAction::FormatTimings { witness_ms, execution_ms }));
        },
        CommandStage::ReportingBench { bench, timings } => {
            lemma_answers_grow(states, events, n);
            assert(bench_ended(states, events, n + 1, Ok(bench)));
            if events[n] is Done {
                assert(bench_printed_at(states, events, n, bench, timings));
            }
        },
        _ => {},
    }
}

/// What is known of the results of the benchmark, and of a command that is over,
/// stays known as events happen.
proof fn lemma_benched_step(states: Seq<BenchCommand>, events: Seq<CommandEvent>, n: int)
    requires
        0 <= n,
        known(states, events, n),
        stepped(states, events, n),
        states[n].stage is WritingBench || states[n].stage is Finished
            || states[n].stage is Failed,
    ensures
        known(states, events, n + 1),
{
    lemma_ends_grow(states, events, n);
    lemma_answers_grow(states, events, n);
    match states[n].stage {
        CommandStage::WritingBench { bench, write } => {
            lemma_write_step(
                states,
                events,
                n,
                BenchResults::ZkBench { bench: &bench },
                write,
            );
            assert(bench_ended(states, events, n + 1, Ok(bench)));
        },
        CommandStage::Finished => {
            let bench = choose|bench: ZkBenchSummary| #[trigger]
                bench_ended(states, events, n, Ok(bench)) && bench_printed(
                    states,
                    events,
                    n,
                    bench,
                );
            assert(bench_ended(states, events, n + 1, Ok(bench)));
        },
        _ => {},
    }
}

/// What is known of a command holds whatever happens.
proof fn lemma_known(states: Seq<BenchCommand>, events: Seq<CommandEvent>, n: int)
    requires
        is_trace(states, events),
        0 <= n < states.len(),
    ensures
        known(states, events, n),
    decreases n,
{
    if n > 0 {
        let before = n - 1;
        lemma_known(states, events, before);
        assert(stepped(states, events, before));
        match states[before].stage {
            CommandStage::CheckingConfig
            | CommandStage::LoadingConfig
            | CommandStage::Announcing { .. }
            | CommandStage::LoadTesting { .. } => lemma_load_step(states, events, before),
            CommandStage::WritingLoad { .. }
            | CommandStage::ReportingCleanup { .. }
            | CommandStage::AnnouncingBench { .. } => lemma_loaded_step(states, events, before),
            CommandStage::Benching { .. }
            | CommandStage::FormattingBench { .. }
            | CommandStage::ReportingBench { .. } => lemma_bench_step(states, events, before),
            _ => lemma_benched_step(states, events, before),
        }
    }
}

/// No load test runs without a configuration file that was found and loaded. It
/// runs for that configuration, with the options by default, a signal handler,
/// and continuously if that is wanted: what the command needs done is what such
/// a load test needs done.
pub proof fn law_load_test_needs_config(
    states: Seq<BenchCommand>,
    events: Seq<CommandEvent>,
    n: int,
    action: LoadAction,
)
    requires
        is_trace(states, events),
        0 <= n < states.len(),
        states[n].is_pending(CommandAction::Load { load: action }),
    ensures
        !(action is Finish),
        exists|test_config: TestConfig| #[trigger]
            load_begun(states, events, n, test_config) && load_at(
                states,
                events,
                n,
                test_config,
            ).is_pending(action),
{
    lemma_known(states, events, n);
}

/// The benchmark runs only for a load test that reported no failure: what the
/// command needs done is what the run begun for that load test needs done.
pub proof fn law_bench_needs_good_load_test(
    states: Seq<BenchCommand>,
    events: Seq<CommandEvent>,
    n: int,
    action: BenchAction,
)
    requires
        is_trace(states, events),
        0 <= n < states.len(),
        states[n].is_pending(CommandAction::Bench { bench: action }),
    ensures
        !(action is Finish),
        exists|begun: BenchRun| #[trigger]
            bench_begun(states, events, n, Ok(begun)) && begun.after(
                bench_events(states, events, n),
            ).is_pending(action),
{
    lemma_known(states, events, n);
    match states[n].stage {
        CommandStage::Benching { run } => {
            let begun = choose|begun: BenchRun| #[trigger]
                bench_begun(states, events, n, Ok(begun)) && run == begun.after(
                    bench_events(states, events, n),
                );
            let summary = choose|summary: MetricsSummary| #[trigger]
                reported_load(states, events, n, summary) && summary.error is None && run::is_start(
                    summary,
                    states[0].zk_config,
                    Ok(begun),
                );
            laws::law_finish_means_result(
                summary,
                states[0].zk_config,
                begun,
                bench_events(states, events, n),
                None,
            );
        },
        _ => {},
    }
}

/// What is printed of the cleanup is what the load test reported of it.
pub proof fn law_cleanup_report_tells_of_the_load_test(
    states: Seq<BenchCommand>,
    events: Seq<CommandEvent>,
    n: int,
    output: LoadTestRunOutput,
)
    requires
        is_trace(states, events),
        0 <= n < states.len(),
        states[n].stage == (CommandStage::ReportingCleanup { output }),
    ensures
        prints(
            states[n],
            report::teardown_lines(output.cleanup) + report::drain_lines(output.cleanup),
        ),
        load_ended(states, events, n, Ok(output)),
{
    lemma_known(states, events, n);
}

/// What is printed of a benchmark is the result of the run that was begun for
/// the reported load test, and the times printed are those of its stats.
pub proof fn law_report_tells_of_the_run(
    states: Seq<BenchCommand>,
    events: Seq<CommandEvent>,
    n: int,
    bench: ZkBenchSummary,
    timings: BenchTimings,
)
    requires
        is_trace(states, events),
        0 <= n < states.len(),
        states[n].stage == (CommandStage::ReportingBench { bench, timings }),
    ensures
        prints(states[n], report::bench_lines(bench, timings)),
        bench_ended(states, events, n, Ok(bench)),
        formatted(states, events, n, bench, timings),
{
    lemma_known(states, events, n);
}

/// Results that are serialized are those of the load test that was reported, or
/// the result of the run that was begun for it, which was printed before.
pub proof fn law_serialized_results_are_of_the_run(
    states: Seq<BenchCommand>,
    events: Seq<CommandEvent>,
    n: int,
    results: BenchResults,
)
    requires
        is_trace(states, events),
        0 <= n < states.len(),
        states[n].is_pending(CommandAction::Serialize { results }),
    ensures
        match results {
            BenchResults::LoadTest { load } => reported_load(states, events, n, *load),
            BenchResults::ZkBench { bench } => {
                &&& bench_ended(states, events, n, Ok(*bench))
                &&& bench_printed(states, events, n, *bench)
            },
        },
{
    lemma_known(states, events, n);
    if let CommandStage::WritingLoad { output, .. } = states[n].stage {
        assert(reported_load(states, events, n, output.summary));
    }
}

/// The results that the command is at writing: those of the load test, or those
/// of the benchmark.
pub open spec fn is_writing(command: BenchCommand, results: BenchResults) -> bool {
    match (command.stage, results) {
        (CommandStage::WritingLoad { output, .. }, BenchResults::LoadTest { load }) => {
            *load == output.summary
        },
        (CommandStage::WritingBench { bench: summary, .. }, BenchResults::ZkBench { bench }) => {
            *bench == summary
        },
        _ => false,
    }
}

/// A file is written only with results that were serialized, and only where the
/// environment variable for them says.
pub proof fn law_file_holds_serialized_results(
    states: Seq<BenchCommand>,
    events: Seq<CommandEvent>,
    n: int,
    path: String,
    content: String,
)
    requires
        is_trace(states, events),
        0 <= n < states.len(),
        states[n].is_pending(CommandAction::WriteFile { path, content }),
    ensures
        exists|results: BenchResults|
            is_writing(states[n], results) && #[trigger] serialized(
                states,
                events,
                n,
                results,
                path,
                content,
            ),
{
    lemma_known(states, events, n);
    match states[n].stage {
        CommandStage::WritingLoad { output, .. } => {
            assert(serialized(
                states,
                events,
                n,
                BenchResults::LoadTest { load: &output.summary },
                path,
                content,
            ));
        },
        CommandStage::WritingBench { bench, .. } => {
            assert(serialized(
                states,
                events,
                n,
                BenchResults::ZkBench { bench: &bench },
                path,
                content,
            ));
        },
        _ => {},
    }
}

/// What the command tells of a file is what came of writing it.
pub proof fn law_write_report_is_true(
    states: Seq<BenchCommand>,
    events: Seq<CommandEvent>,
    n: int,
    results: BenchResults,
    outcome: WriteOutcome,
)
    requires
        is_trace(states, events),
        0 <= n < states.len(),
        is_writing(states[n], results),
        match states[n].stage {
            CommandStage::WritingLoad { write, .. } => write == (WriteStage::Reporting { outcome }),
            CommandStage::WritingBench { write, .. } => {
                write == (WriteStage::Reporting { outcome })
            },
            _ => false,
        },
    ensures
        prints(states[n], seq![report::write_line(results.of_kind(), outcome)]),
        write_accounted_for(states, events, n, results, outcome),
{
    lemma_known(states, events, n);
}

/// Results that cannot be serialized or written do not end the command.
pub proof fn law_write_failure_is_only_a_warning(
    command: BenchCommand,
    event: CommandEvent,
    next: BenchCommand,
)
    requires
        command.stage is WritingLoad || command.stage is WritingBench,
        command.is_next(event, next),
    ensures
        !(next.stage is Failed),
{
}

/// The command succeeds only once the benchmark, begun for a load test that
/// reported no failure, came to a summary, and that was printed.
pub proof fn law_success_means_benched(
    states: Seq<BenchCommand>,
    events: Seq<CommandEvent>,
    n: int,
)
    requires
        is_trace(states, events),
        0 <= n < states.len(),
        states[n].stage is Finished,
    ensures
        succeeded(states, events, n),
{
    lemma_known(states, events, n);
}

/// The command fails only for a reason that an answer gave: the configuration
/// file is not there or cannot be loaded, the load test cannot be set up or
/// reported the failure, or the benchmark of the load test has no target or no
/// proof.
pub proof fn law_failure_is_accounted_for(
    states: Seq<BenchCommand>,
    events: Seq<CommandEvent>,
    n: int,
    error: CommandError,
)
    requires
        is_trace(states, events),
        0 <= n < states.len(),
        states[n].stage == (CommandStage::Failed { error }),
    ensures
        failure_accounted_for(states, events, n, error),
{
    lemma_known(states, events, n);
}

/// Once the command is over, nothing that happens changes its result; and it is
/// over exactly when it needs nothing done.
pub proof fn law_command_result_is_final(
    states: Seq<BenchCommand>,
    events: Seq<CommandEvent>,
    n: int,
    event: CommandEvent,
    next: BenchCommand,
)
    requires
        is_trace(states, events),
        0 <= n < states.len(),
    ensures
        ({
            let over = states[n].stage is Finished || states[n].stage is Failed;
            &&& over <==> states[n].is_pending(CommandAction::Finish)
            &&& over && states[n].is_next(event, next) ==> next == states[n]
        }),
{
    lemma_known(states, events, n);
}

/// The options, the display and the configuration of a load test stay as they
/// are.
proof fn lemma_load_keeps(start: LoadTestRun, events: Seq<LoadEvent>)
    ensures
        start.after(events).options == start.options,
        start.after(events).display == start.display,
        start.after(events).config_summary == start.config_summary,
    decreases events.len(),
{
    if events.len() > 0 {
        lemma_load_keeps(start, events.drop_last());
    }
}

/// Every load test that a command runs is continuous if and only if that was
/// asked of the command. It clears txpools, cleans up, has a signal handler and
/// no display, and is told of the configuration that was loaded.
pub proof fn law_load_test_runs_as_asked(
    states: Seq<BenchCommand>,
    events: Seq<CommandEvent>,
    n: int,
    load: LoadTestRun,
)
    requires
        is_trace(states, events),
        0 <= n < states.len(),
        states[n].stage == (CommandStage::LoadTesting { load }),
    ensures
        load.options.continuous == states[0].continuous,
        load.options.clear_txpools,
        load.options.cleanup,
        load.options.install_signal_handler,
        !load.display,
        exists|test_config: TestConfig| #[trigger]
            load_begun(states, events, n, test_config) && load.config_summary
                == test_config.summary,
{
    lemma_known(states, events, n);
    let t = choose|t: TestConfig| #[trigger]
        load_begun(states, events, n, t) && load == load_at(states, events, n, t);
    lemma_load_keeps(
        executor::load_test_start(t, cli::command_options(states[0].continuous), false),
        load_events(states, events, n),
    );
    assert(load_begun(states, events, n, t));
}

/// A load configuration is built for a continuous run if and only if that was
/// asked of the command, and a runner is configured with a signal handler and
/// without a display.
pub proof fn law_load_is_built_as_asked(
    states: Seq<BenchCommand>,
    events: Seq<CommandEvent>,
    n: int,
    action: LoadAction,
)
    requires
        is_trace(states, events),
        0 <= n < states.len(),
        states[n].is_pending(CommandAction::Load { load: action }),
    ensures
        match action {
            LoadAction::BuildConfig { continuous, .. } => continuous == states[0].continuous,
            LoadAction::ConfigureRunner { display, install_signal_handler, .. } => {
                !display && install_signal_handler
            },
            _ => true,
        },
{
    lemma_known(states, events, n);
    if let CommandStage::LoadTesting { load } = states[n].stage {
        law_load_test_runs_as_asked(states, events, n, load);
    }
}

} // verus!
