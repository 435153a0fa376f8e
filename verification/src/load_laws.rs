//! What holds of load tests as a whole.

use crate::executor;
use crate::executor::{
    CleanupRun, CleanupStage, LoadAction, LoadEvent, LoadPhases, LoadTestCleanupSummary,
    LoadTestRun, LoadTestRunOptions,
    LoadTestRunOutput, LoadTestStage, PhaseStage, TestConfig, TokenSetup,
};
use crate::metrics::MetricsSummary;
use crate::outside;
use vstd::prelude::*;

verus! {

/// The event at `k` is `event`, and came when `action` was to be done.
pub open spec fn answered_at(
    start: LoadTestRun,
    events: Seq<LoadEvent>,
    k: int,
    action: LoadAction,
    event: LoadEvent,
) -> bool {
    &&& 0 <= k < events.len()
    &&& events[k] == event
    &&& start.after(events.take(k)).is_pending(action)
}

/// In the load test that starts as `start`, one of `events` answered `action`
/// with `event`.
pub open spec fn answered(
    start: LoadTestRun,
    events: Seq<LoadEvent>,
    action: LoadAction,
    event: LoadEvent,
) -> bool {
    exists|k: int| answered_at(start, events, k, action, event)
}

/// `action` was done.
pub open spec fn performed(
    start: LoadTestRun,
    events: Seq<LoadEvent>,
    action: LoadAction,
) -> bool {
    answered(start, events, action, LoadEvent::Done)
}

/// There are no txpool nodes, or they were cleared.
pub open spec fn txpools_clear(start: LoadTestRun, events: Seq<LoadEvent>) -> bool {
    ||| answered(
        start,
        events,
        LoadAction::CountTxpoolNodes,
        LoadEvent::TxpoolNodes { count: 0 },
    )
    ||| performed(start, events, LoadAction::ClearTxpools)
}

/// The accounts were funded, after txpools were cleared if that is wanted.
pub open spec fn funded(start: LoadTestRun, events: Seq<LoadEvent>) -> bool {
    &&& performed(start, events, LoadAction::FundAccounts)
    &&& start.options.clear_txpools ==> txpools_clear(start, events)
}

/// The load configuration was built for the chain.
pub open spec fn built_for(start: LoadTestRun, events: Seq<LoadEvent>, chain_id: u64) -> bool {
    exists|rpc_chain_id: Option<u64>| #[trigger]
        answered(
            start,
            events,
            LoadAction::BuildConfig { rpc_chain_id, continuous: start.options.continuous },
            LoadEvent::Configured { chain_id },
        )
}

/// The real tokens were read for the chain of the load configuration, and are
/// configured or are not.
pub open spec fn read_real_tokens(
    start: LoadTestRun,
    events: Seq<LoadEvent>,
    configured: bool,
) -> bool {
    exists|chain_id: u64| #[trigger]
        answered(
            start,
            events,
            LoadAction::ReadRealTokenSetup { chain_id },
            LoadEvent::RealTokens { configured },
        ) && built_for(start, events, chain_id)
}

/// The runner has swap tokens.
pub open spec fn has_swap_tokens(start: LoadTestRun, events: Seq<LoadEvent>) -> bool {
    exists|count: usize|
        count > 0 && #[trigger] answered(
            start,
            events,
            LoadAction::CountSwapTokens,
            LoadEvent::SwapTokens { count },
        )
}

/// The tokens that the load trades are prepared: the real ones if they are
/// configured, else the swap tokens if the runner has any.
pub open spec fn traded_ready(start: LoadTestRun, events: Seq<LoadEvent>) -> bool {
    ||| read_real_tokens(start, events, true) && performed(
        start,
        events,
        LoadAction::SetupRealTokens,
    )
    ||| read_real_tokens(start, events, false) && has_swap_tokens(start, events) && performed(
        start,
        events,
        LoadAction::SetupSwapTokens,
    )
    ||| read_real_tokens(start, events, false) && answered(
        start,
        events,
        LoadAction::CountSwapTokens,
        LoadEvent::SwapTokens { count: 0 },
    )
}

/// B-20 tokens are needed.
pub open spec fn b20_needed(start: LoadTestRun, events: Seq<LoadEvent>) -> bool {
    answered(start, events, LoadAction::CheckB20, LoadEvent::B20 { needed: true })
}

/// No B-20 tokens are needed, or they are prepared.
pub open spec fn b20_ready(start: LoadTestRun, events: Seq<LoadEvent>) -> bool {
    ||| answered(start, events, LoadAction::CheckB20, LoadEvent::B20 { needed: false })
    ||| b20_needed(start, events) && performed(start, events, LoadAction::SetupB20Tokens)
}

/// Some action failed with `error`.
pub open spec fn failed_with(start: LoadTestRun, events: Seq<LoadEvent>, error: String) -> bool {
    exists|action: LoadAction|
        answered(start, events, action, LoadEvent::Failed { error })
}

/// The outcome of the phases is what the load that ran reported, or the error
/// of an action that failed.
pub open spec fn accounts_for(
    start: LoadTestRun,
    events: Seq<LoadEvent>,
    outcome: Result<MetricsSummary, String>,
) -> bool {
    match outcome {
        Ok(summary) => answered(
            start,
            events,
            LoadAction::RunLoad,
            LoadEvent::Completed { summary },
        ),
        Err(error) => failed_with(start, events, error),
    }
}

/// The cleanup tells what came of burning and draining.
pub open spec fn cleanup_accounted_for(
    start: LoadTestRun,
    events: Seq<LoadEvent>,
    cleanup: LoadTestCleanupSummary,
) -> bool {
    &&& match (cleanup.drained, cleanup.drain_error) {
        (Some(wei), None) => answered(
            start,
            events,
            LoadAction::DrainAccounts,
            LoadEvent::Drained { wei },
        ),
        (None, Some(error)) => answered(
            start,
            events,
            LoadAction::DrainAccounts,
            LoadEvent::Failed { error },
        ),
        _ => false,
    }
    &&& burn_accounted_for(start, events, cleanup)
}

/// The cleanup tells what came of burning: it was attempted if B-20 tokens were
/// needed, and then was done or failed.
pub open spec fn burn_accounted_for(
    start: LoadTestRun,
    events: Seq<LoadEvent>,
    cleanup: LoadTestCleanupSummary,
) -> bool {
    if cleanup.b20_teardown_attempted {
        &&& b20_needed(start, events)
        &&& match cleanup.b20_teardown_error {
            Some(error) => answered(
                start,
                events,
                LoadAction::TeardownB20Tokens,
                LoadEvent::Failed { error },
            ),
            None => performed(start, events, LoadAction::TeardownB20Tokens),
        }
    } else {
        &&& answered(start, events, LoadAction::CheckB20, LoadEvent::B20 { needed: false })
        &&& cleanup.b20_teardown_error is None
    }
}

/// What is known of the phases while they go on.
spec fn phases_known(start: LoadTestRun, events: Seq<LoadEvent>, phases: LoadPhases) -> bool {
    &&& built_for(start, events, phases.chain_id)
    &&& match phases.stage {
        PhaseStage::CountingTxpools | PhaseStage::ClearingTxpools => start.options.clear_txpools,
        PhaseStage::Funding => start.options.clear_txpools ==> txpools_clear(start, events),
        PhaseStage::ReadingRealTokens => funded(start, events),
        PhaseStage::SettingTokens { setup } => {
            funded(start, events) && tokens_known(start, events, setup)
        },
        PhaseStage::Running => {
            &&& funded(start, events)
            &&& traded_ready(start, events)
            &&& b20_ready(start, events)
        },
        _ => false,
    }
}

/// What is known of the token setup while it goes on.
spec fn tokens_known(start: LoadTestRun, events: Seq<LoadEvent>, setup: TokenSetup) -> bool {
    match setup {
        TokenSetup::SettingReal => read_real_tokens(start, events, true),
        TokenSetup::CountingSwap => read_real_tokens(start, events, false),
        TokenSetup::SettingSwap => {
            read_real_tokens(start, events, false) && has_swap_tokens(start, events)
        },
        TokenSetup::CheckingB20 => traded_ready(start, events),
        TokenSetup::SettingB20 => traded_ready(start, events) && b20_needed(start, events),
        _ => false,
    }
}

/// What is known of the cleanup while it goes on.
spec fn cleanup_known(start: LoadTestRun, events: Seq<LoadEvent>, cleanup: CleanupRun) -> bool {
    &&& cleanup.summary.drained is None
    &&& cleanup.summary.drain_error is None
    &&& match cleanup.stage {
        CleanupStage::Settling | CleanupStage::CheckingB20 => {
            cleanup.summary == LoadTestCleanupSummary::nothing()
        },
        CleanupStage::TearingDown => {
            &&& cleanup.summary.b20_teardown_attempted
            &&& cleanup.summary.b20_teardown_error is None
            &&& b20_needed(start, events)
        },
        CleanupStage::Draining => burn_accounted_for(start, events, cleanup.summary),
        CleanupStage::Over => false,
    }
}

/// What is known of the load test that starts as `start`, once `events` have
/// brought it to `run`.
spec fn reachable(
    start: LoadTestRun,
    test_config: TestConfig,
    events: Seq<LoadEvent>,
    run: LoadTestRun,
) -> bool {
    &&& run.options == start.options
    &&& run.display == start.display
    &&& run.config_summary == test_config.summary
    &&& match run.stage {
        LoadTestStage::Connecting { url, configured_chain_id } => {
            &&& url == executor::queried_rpc(test_config)
            &&& configured_chain_id == test_config.chain_id
        },
        LoadTestStage::FetchingChainId => test_config.chain_id is None,
        LoadTestStage::BuildingConfig { rpc_chain_id } => match rpc_chain_id {
            None => test_config.chain_id is Some,
            Some(id) => test_config.chain_id is None && answered(
                start,
                events,
                LoadAction::FetchChainId,
                LoadEvent::ChainId { id },
            ),
        },
        LoadTestStage::LoadingKey { chain_id } => built_for(start, events, chain_id),
        LoadTestStage::BuildingRunner { chain_id, funder } => {
            &&& built_for(start, events, chain_id)
            &&& answered(
                start,
                events,
                LoadAction::LoadFunderKey,
                LoadEvent::FunderKey { address: funder },
            )
        },
        LoadTestStage::Configuring { chain_id, funder } => {
            &&& built_for(start, events, chain_id)
            &&& answered(
                start,
                events,
                LoadAction::LoadFunderKey,
                LoadEvent::FunderKey { address: funder },
            )
        },
        LoadTestStage::InPhases { phases } => phases_known(start, events, phases),
        LoadTestStage::CleaningUp { outcome, cleanup } => {
            &&& run.options.cleanup
            &&& accounts_for(start, events, outcome)
            &&& cleanup_known(start, events, cleanup)
        },
        LoadTestStage::Finished { outcome, cleaned } => {
            &&& accounts_for(start, events, outcome)
            &&& if run.options.cleanup {
                cleanup_accounted_for(start, events, cleaned)
            } else {
                cleaned == LoadTestCleanupSummary::nothing()
            }
        },
        _ => true,
    }
}

/// An answer stays an answer as events happen, and the event that happens
/// answers what was to be done.
proof fn lemma_answers_grow(start: LoadTestRun, events: Seq<LoadEvent>, event: LoadEvent)
    ensures
        forall|a: LoadAction, e: LoadEvent| #[trigger]
            answered(start, events, a, e) ==> answered(start, events.push(event), a, e),
        forall|a: LoadAction|
            start.after(events).is_pending(a) ==> #[trigger] answered(
                start,
                events.push(event),
                a,
                event,
            ),
        forall|c: u64| #[trigger]
            built_for(start, events, c) ==> built_for(start, events.push(event), c),
        forall|c: bool| #[trigger]
            read_real_tokens(start, events, c) ==> read_real_tokens(start, events.push(event), c),
        has_swap_tokens(start, events) ==> has_swap_tokens(start, events.push(event)),
        forall|o: Result<MetricsSummary, String>| #[trigger]
            accounts_for(start, events, o) ==> accounts_for(start, events.push(event), o),
{
    let more = events.push(event);
    let last = events.len() as int;
    assert forall|a: LoadAction, e: LoadEvent| #[trigger]
        answered(start, events, a, e) implies answered(start, more, a, e) by {
        let k = choose|k: int| answered_at(start, events, k, a, e);
        assert(more.take(k) =~= events.take(k));
        assert(answered_at(start, more, k, a, e));
    }
    assert forall|a: LoadAction| start.after(events).is_pending(a) implies #[trigger] answered(
        start,
        more,
        a,
        event,
    ) by {
        assert(more.take(last) =~= events);
        assert(answered_at(start, more, last, a, event));
    }
    assert forall|c: u64| #[trigger] built_for(start, events, c) implies built_for(
        start,
        more,
        c,
    ) by {
        let continuous = start.options.continuous;
        let rpc_chain_id = choose|rpc_chain_id: Option<u64>| #[trigger]
            answered(
                start,
                events,
                LoadAction::BuildConfig { rpc_chain_id, continuous },
                LoadEvent::Configured { chain_id: c },
            );
        assert(answered(
            start,
            more,
            LoadAction::BuildConfig { rpc_chain_id, continuous },
            LoadEvent::Configured { chain_id: c },
        ));
    }
    assert forall|c: bool| #[trigger] read_real_tokens(start, events, c) implies read_real_tokens(
        start,
        more,
        c,
    ) by {
        let event = LoadEvent::RealTokens { configured: c };
        let chain_id = choose|chain_id: u64| #[trigger]
            answered(start, events, LoadAction::ReadRealTokenSetup { chain_id }, event)
                && built_for(start, events, chain_id);
        assert(answered(start, more, LoadAction::ReadRealTokenSetup { chain_id }, event));
    }
    if has_swap_tokens(start, events) {
        let count = choose|count: usize|
            count > 0 && #[trigger] answered(
                start,
                events,
                LoadAction::CountSwapTokens,
                LoadEvent::SwapTokens { count },
            );
        assert(answered(
            start,
            more,
            LoadAction::CountSwapTokens,
            LoadEvent::SwapTokens { count },
        ));
    }
    assert forall|o: Result<MetricsSummary, String>| #[trigger]
        accounts_for(start, events, o) implies accounts_for(start, more, o) by {
        if let Err(error) = o {
            let a = choose|a: LoadAction| answered(start, events, a, LoadEvent::Failed { error });
            assert(answered(start, more, a, LoadEvent::Failed { error }));
            assert(failed_with(start, more, error));
        }
    }
}

/// What is known of the token setup stays known, until all tokens are ready.
proof fn lemma_tokens_step(
    start: LoadTestRun,
    events: Seq<LoadEvent>,
    event: LoadEvent,
    setup: TokenSetup,
)
    requires
        start.after(events).is_pending(setup.pending()),
        tokens_known(start, events, setup),
    ensures
        match setup.next(event) {
            TokenSetup::Ready => traded_ready(start, events.push(event)) && b20_ready(
                start,
                events.push(event),
            ),
            TokenSetup::Failed { error } => failed_with(start, events.push(event), error),
            next => tokens_known(start, events.push(event), next),
        },
{
    lemma_answers_grow(start, events, event);
    let more = events.push(event);
    let action = setup.pending();
    assert(answered(start, more, action, event));
    match (setup, event) {
        (TokenSetup::CountingSwap, LoadEvent::SwapTokens { count }) => {
            assert(answered(start, more, action, LoadEvent::SwapTokens { count }));
        },
        (_, LoadEvent::Failed { error }) => {
            assert(answered(start, more, action, LoadEvent::Failed { error }));
        },
        _ => {},
    }
    if traded_ready(start, events) {
        assert(traded_ready(start, more));
    }
}

/// What is known of the phases stays known, until they are over.
proof fn lemma_phases_step(
    start: LoadTestRun,
    events: Seq<LoadEvent>,
    event: LoadEvent,
    phases: LoadPhases,
)
    requires
        start.after(events).is_pending(phases.pending()),
        phases_known(start, events, phases),
    ensures
        match phases.next(event).stage {
            PhaseStage::Completed { summary } => accounts_for(
                start,
                events.push(event),
                Ok(summary),
            ),
            PhaseStage::Failed { error } => accounts_for(start, events.push(event), Err(error)),
            _ => phases_known(start, events.push(event), phases.next(event)),
        },
{
    lemma_answers_grow(start, events, event);
    let more = events.push(event);
    let action = phases.pending();
    assert(answered(start, more, action, event));
    if funded(start, events) {
        assert(funded(start, more));
    }
    match phases.stage {
        PhaseStage::SettingTokens { setup } => {
            lemma_tokens_step(start, events, event, setup);
        },
        PhaseStage::ReadingRealTokens => {
            if let LoadEvent::RealTokens { configured } = event {
                assert(answered(start, more, action, LoadEvent::RealTokens { configured }));
                assert(read_real_tokens(start, more, configured));
            }
        },
        _ => {},
    }
    if let LoadEvent::Failed { error } = event {
        assert(answered(start, more, action, LoadEvent::Failed { error }));
        assert(failed_with(start, more, error));
    }
}

/// What is known of the cleanup stays known, until it is over.
proof fn lemma_cleanup_step(
    start: LoadTestRun,
    events: Seq<LoadEvent>,
    event: LoadEvent,
    cleanup: CleanupRun,
)
    requires
        start.after(events).is_pending(cleanup.pending()),
        cleanup_known(start, events, cleanup),
    ensures
        if cleanup.next(event).stage is Over {
            cleanup_accounted_for(start, events.push(event), cleanup.next(event).summary)
        } else {
            cleanup_known(start, events.push(event), cleanup.next(event))
        },
{
    lemma_answers_grow(start, events, event);
    assert(answered(start, events.push(event), cleanup.pending(), event));
}

/// What is known of a load test that is being set up stays known, until its
/// phases begin.
proof fn lemma_setup_step(
    start: LoadTestRun,
    test_config: TestConfig,
    events: Seq<LoadEvent>,
    event: LoadEvent,
)
    requires
        reachable(start, test_config, events, start.after(events)),
        !(start.after(events).stage is InPhases),
        !(start.after(events).stage is CleaningUp),
        !(start.after(events).stage is Finished),
    ensures
        reachable(start, test_config, events.push(event), start.after(events).next(event)),
{
    lemma_answers_grow(start, events, event);
    let more = events.push(event);
    let run = start.after(events);
    match run.stage {
        LoadTestStage::FetchingChainId => {
            assert(answered(start, more, LoadAction::FetchChainId, event));
        },
        LoadTestStage::BuildingConfig { rpc_chain_id } => {
            let action = LoadAction::BuildConfig {
                rpc_chain_id,
                continuous: start.options.continuous,
            };
            assert(run.is_pending(action));
            assert(answered(start, more, action, event));
        },
        LoadTestStage::LoadingKey { chain_id } => {
            assert(answered(start, more, LoadAction::LoadFunderKey, event));
        },
        _ => {},
    }
}

/// What is known of a load test that has run stays known.
proof fn lemma_ended_step(
    start: LoadTestRun,
    test_config: TestConfig,
    events: Seq<LoadEvent>,
    event: LoadEvent,
)
    requires
        reachable(start, test_config, events, start.after(events)),
        start.after(events).stage is CleaningUp || start.after(events).stage is Finished,
    ensures
        reachable(start, test_config, events.push(event), start.after(events).next(event)),
{
    let more = events.push(event);
    match start.after(events).stage {
        LoadTestStage::CleaningUp { outcome, cleanup } => {
            lemma_cleanup_step(start, events, event, cleanup);
            assert(accounts_for(start, more, outcome)) by {
                lemma_answers_grow(start, events, event);
            }
        },
        LoadTestStage::Finished { outcome, cleaned } => {
            assert(accounts_for(start, more, outcome)) by {
                lemma_answers_grow(start, events, event);
            }
            if start.options.cleanup {
                assert(cleanup_accounted_for(start, more, cleaned)) by {
                    lemma_answers_grow(start, events, event);
                }
            }
        },
        _ => {},
    }
}

/// What is known of a load test stays known as events happen.
proof fn lemma_reachable_step(
    start: LoadTestRun,
    test_config: TestConfig,
    events: Seq<LoadEvent>,
    event: LoadEvent,
)
    requires
        reachable(start, test_config, events, start.after(events)),
    ensures
        reachable(start, test_config, events.push(event), start.after(events).next(event)),
{
    match start.after(events).stage {
        LoadTestStage::InPhases { phases } => {
            lemma_phases_step(start, events, event, phases);
        },
        LoadTestStage::CleaningUp { .. } | LoadTestStage::Finished { .. } => {
            lemma_ended_step(start, test_config, events, event);
        },
        _ => {
            lemma_setup_step(start, test_config, events, event);
        },
    }
}

/// What is known of a load test holds whatever happens.
proof fn lemma_reachable(
    test_config: TestConfig,
    options: LoadTestRunOptions,
    display: bool,
    events: Seq<LoadEvent>,
)
    ensures
        reachable(
            executor::load_test_start(test_config, options, display),
            test_config,
            events,
            executor::load_test_start(test_config, options, display).after(events),
        ),
    decreases events.len(),
{
    if events.len() > 0 {
        let start = executor::load_test_start(test_config, options, display);
        let init = events.drop_last();
        lemma_reachable(test_config, options, display, init);
        lemma_reachable_step(start, test_config, init, events.last());
        assert(init.push(events.last()) =~= events);
    }
}

/// Where txpools are to be cleared, accounts are funded only once there are no
/// txpool nodes or they are cleared. Where not, nothing is done to txpools.
pub proof fn law_txpools_are_cleared_before_funding(
    test_config: TestConfig,
    options: LoadTestRunOptions,
    display: bool,
    events: Seq<LoadEvent>,
    action: LoadAction,
)
    requires
        test_config.well_formed(),
        executor::load_test_start(test_config, options, display).after(events).is_pending(action),
    ensures
        options.clear_txpools && action is FundAccounts ==> txpools_clear(
            executor::load_test_start(test_config, options, display),
            events,
        ),
        !options.clear_txpools ==> !(action is CountTxpoolNodes) && !(action is ClearTxpools),
{
    lemma_reachable(test_config, options, display, events);
}

/// Real tokens are read for the chain that the load configuration was built
/// for.
pub proof fn law_real_tokens_are_read_for_built_chain(
    test_config: TestConfig,
    options: LoadTestRunOptions,
    display: bool,
    events: Seq<LoadEvent>,
    chain_id: u64,
)
    requires
        test_config.well_formed(),
        executor::load_test_start(test_config, options, display).after(events).is_pending(
            LoadAction::ReadRealTokenSetup { chain_id },
        ),
    ensures
        built_for(
            executor::load_test_start(test_config, options, display),
            events,
            chain_id,
        ),
{
    lemma_reachable(test_config, options, display, events);
}

/// The runner is told of the funder whose key was loaded, of the configuration,
/// and of a display and a signal handler as they are wanted.
pub proof fn law_runner_is_configured_as_wanted(
    test_config: TestConfig,
    options: LoadTestRunOptions,
    display: bool,
    events: Seq<LoadEvent>,
    action: LoadAction,
)
    requires
        test_config.well_formed(),
        executor::load_test_start(test_config, options, display).after(events).is_pending(action),
        action is ConfigureRunner,
    ensures
        action->config_summary == test_config.summary,
        action->display == display,
        action->install_signal_handler == options.install_signal_handler,
        exists|address: [u8; 20]| #[trigger]
            answered(
                executor::load_test_start(test_config, options, display),
                events,
                LoadAction::LoadFunderKey,
                LoadEvent::FunderKey { address },
            ) && action->funder_address@ == outside::address_display(address@),
{
    lemma_reachable(test_config, options, display, events);
}

/// Real tokens are prepared only where they are configured; swap tokens only
/// where real tokens are not and the runner has swap tokens; B-20 tokens only
/// where they are needed; and all only once the accounts are funded.
pub proof fn law_tokens_are_prepared_as_needed(
    test_config: TestConfig,
    options: LoadTestRunOptions,
    display: bool,
    events: Seq<LoadEvent>,
    action: LoadAction,
)
    requires
        test_config.well_formed(),
        executor::load_test_start(test_config, options, display).after(events).is_pending(action),
    ensures
        ({
            let start = executor::load_test_start(test_config, options, display);
            &&& action is SetupRealTokens ==> funded(start, events) && read_real_tokens(
                start,
                events,
                true,
            )
            &&& action is SetupSwapTokens ==> funded(start, events) && read_real_tokens(
                start,
                events,
                false,
            ) && has_swap_tokens(start, events)
            &&& action is SetupB20Tokens ==> funded(start, events) && b20_needed(start, events)
        }),
{
    lemma_reachable(test_config, options, display, events);
}

/// The load runs only once txpools are cleared if that is wanted, the accounts
/// are funded, and the tokens are prepared.
pub proof fn law_load_runs_when_all_is_prepared(
    test_config: TestConfig,
    options: LoadTestRunOptions,
    display: bool,
    events: Seq<LoadEvent>,
)
    requires
        test_config.well_formed(),
        executor::load_test_start(test_config, options, display).after(events).is_pending(
            LoadAction::RunLoad,
        ),
    ensures
        ({
            let start = executor::load_test_start(test_config, options, display);
            &&& funded(start, events)
            &&& traded_ready(start, events)
            &&& b20_ready(start, events)
        }),
{
    lemma_reachable(test_config, options, display, events);
}

/// The RPC is asked for its chain ID, and that ID is used, where the
/// configuration names none, and only there.
pub proof fn law_configured_chain_id_prevails(
    test_config: TestConfig,
    options: LoadTestRunOptions,
    display: bool,
    events: Seq<LoadEvent>,
    action: LoadAction,
)
    requires
        test_config.well_formed(),
        executor::load_test_start(test_config, options, display).after(events).is_pending(action),
    ensures
        action is FetchChainId ==> test_config.chain_id is None,
        action matches LoadAction::BuildConfig { rpc_chain_id, continuous } ==> {
            &&& continuous == options.continuous
            &&& rpc_chain_id is None <==> test_config.chain_id is Some
            &&& rpc_chain_id is Some ==> answered(
                executor::load_test_start(test_config, options, display),
                events,
                LoadAction::FetchChainId,
                LoadEvent::ChainId { id: rpc_chain_id->0 },
            )
        },
{
    lemma_reachable(test_config, options, display, events);
}

/// Once its phases have begun, a load test ends with an output, whatever fails.
pub proof fn law_started_phases_end_with_output(run: LoadTestRun, events: Seq<LoadEvent>)
    requires
        run.stage is InPhases,
    ensures
        run.after(events).stage is InPhases || run.after(events).stage is CleaningUp || run.after(
            events,
        ).stage is Finished,
    decreases events.len(),
{
    if events.len() > 0 {
        law_started_phases_end_with_output(run, events.drop_last());
    }
}

/// An output holds what the load that ran reported, or the configuration and
/// the error that kept it from running.
pub proof fn law_output_is_accounted_for(
    test_config: TestConfig,
    options: LoadTestRunOptions,
    display: bool,
    events: Seq<LoadEvent>,
    output: LoadTestRunOutput,
)
    requires
        test_config.well_formed(),
        executor::load_test_start(test_config, options, display).after(events).is_result(
            Some(Ok(output)),
        ),
    ensures
        ({
            let start = executor::load_test_start(test_config, options, display);
            ||| accounts_for(start, events, Ok(output.summary))
            ||| exists|error: String|
                output.summary.is_failure(test_config.summary, error) && #[trigger] accounts_for(
                    start,
                    events,
                    Err(error),
                )
        }),
{
    lemma_reachable(test_config, options, display, events);
    let start = executor::load_test_start(test_config, options, display);
    match start.after(events).stage {
        LoadTestStage::Finished { outcome: Err(error), cleaned } => {
            assert(accounts_for(start, events, Err(error)));
        },
        _ => {},
    }
}

/// Where cleanup is wanted, every output tells what came of the drain, and of
/// the burn if B-20 tokens were needed. Where it is not, nothing is attempted.
pub proof fn law_cleanup_follows_every_run(
    test_config: TestConfig,
    options: LoadTestRunOptions,
    display: bool,
    events: Seq<LoadEvent>,
    output: LoadTestRunOutput,
)
    requires
        test_config.well_formed(),
        executor::load_test_start(test_config, options, display).after(events).is_result(
            Some(Ok(output)),
        ),
    ensures
        if options.cleanup {
            cleanup_accounted_for(
                executor::load_test_start(test_config, options, display),
                events,
                output.cleanup,
            )
        } else {
            output.cleanup == LoadTestCleanupSummary::nothing()
        },
{
    lemma_reachable(test_config, options, display, events);
}

/// Balances are burned and accounts drained only where cleanup is wanted, and
/// only after the run has succeeded or failed.
pub proof fn law_cleanup_comes_after_run(
    test_config: TestConfig,
    options: LoadTestRunOptions,
    display: bool,
    events: Seq<LoadEvent>,
    action: LoadAction,
)
    requires
        test_config.well_formed(),
        executor::load_test_start(test_config, options, display).after(events).is_pending(action),
        action is TeardownB20Tokens || action is DrainAccounts,
    ensures
        options.cleanup,
        exists|outcome: Result<MetricsSummary, String>| #[trigger]
            accounts_for(
                executor::load_test_start(test_config, options, display),
                events,
                outcome,
            ),
{
    lemma_reachable(test_config, options, display, events);
}

/// A load test has its result exactly when it needs nothing done, and then
/// nothing that happens changes it.
pub proof fn law_load_result_is_final(
    test_config: TestConfig,
    options: LoadTestRunOptions,
    display: bool,
    events: Seq<LoadEvent>,
    event: LoadEvent,
    r: Option<Result<LoadTestRunOutput, String>>,
)
    requires
        test_config.well_formed(),
        executor::load_test_start(test_config, options, display).after(events).is_result(r),
    ensures
        r is Some <==> executor::load_test_start(test_config, options, display).after(
            events,
        ).is_pending(LoadAction::Finish),
        r is Some ==> executor::load_test_start(test_config, options, display).after(events).next(
            event,
        ) == executor::load_test_start(test_config, options, display).after(events),
{
    lemma_reachable(test_config, options, display, events);
}

/// The load test has no result yet, and needs `action` done and nothing else.
pub open spec fn load_asks(run: LoadTestRun, action: LoadAction) -> bool {
    &&& forall|a: LoadAction| #[trigger] run.is_pending(a) ==> a == action
    &&& forall|r: Option<Result<LoadTestRunOutput, String>>| #[trigger]
        run.is_result(r) ==> r is None
    &&& !run.over()
}

/// The load test is over without an output: it could not be set up.
pub open spec fn load_aborts(run: LoadTestRun, error: String) -> bool {
    &&& forall|a: LoadAction| #[trigger] run.is_pending(a) ==> a is Finish
    &&& forall|r: Option<Result<LoadTestRunOutput, String>>| #[trigger]
        run.is_result(r) ==> r == Some(Err::<LoadTestRunOutput, _>(error))
    &&& run.over()
}

/// `summary` is what the load reported, or names the configuration and the
/// error, and no block.
pub open spec fn tells_outcome(
    summary: MetricsSummary,
    config_summary: String,
    outcome: Result<MetricsSummary, String>,
) -> bool {
    match outcome {
        Ok(reported) => summary == reported,
        Err(error) => {
            &&& summary.config == Some(config_summary)
            &&& summary.error == Some(error)
            &&& summary.block_range.first_block is None
            &&& summary.block_range.last_block is None
            &&& summary.block_range.block_count == 0
            &&& summary.block_load@.len() == 0
        },
    }
}

/// The load test is over with an output that tells of the outcome.
pub open spec fn load_ends(
    run: LoadTestRun,
    config_summary: String,
    outcome: Result<MetricsSummary, String>,
) -> bool {
    &&& forall|a: LoadAction| #[trigger] run.is_pending(a) ==> a is Finish
    &&& forall|r: Option<Result<LoadTestRunOutput, String>>| #[trigger]
        run.is_result(r) ==> (r matches Some(Ok(output)) && tells_outcome(
            output.summary,
            config_summary,
            outcome,
        ))
    &&& run.over()
}

/// The phases have ended with the outcome: where cleanup is wanted the load test
/// first lets transactions settle for two seconds, else it is over, with nothing
/// cleaned up.
pub open spec fn leaves_phases(
    run: LoadTestRun,
    options: LoadTestRunOptions,
    config_summary: String,
    outcome: Result<MetricsSummary, String>,
) -> bool {
    if options.cleanup {
        &&& load_asks(run, LoadAction::Pause { nanos: 2_000_000_000 })
        &&& run.stage matches LoadTestStage::CleaningUp { outcome: kept, .. } && kept == outcome
    } else {
        &&& load_ends(run, config_summary, outcome)
        &&& forall|output: LoadTestRunOutput| #[trigger]
            run.is_result(Some(Ok(output))) ==> {
                &&& !output.cleanup.b20_teardown_attempted
                &&& output.cleanup.b20_teardown_error is None
                &&& output.cleanup.drained is None
                &&& output.cleanup.drain_error is None
            }
    }
}

/// What a load test does with each answer while it is set up. It connects to the
/// RPC that is configured for queries, or else to the first that it submits to;
/// asks that for its chain ID where none is configured; builds the load
/// configuration; loads the funder's key; builds the runner and configures it;
/// and then turns to the txpools, if they are to be cleared, or to the accounts.
/// Each failure on the way ends it. Nothing else changes it.
pub proof fn law_setup_answers(
    test_config: TestConfig,
    options: LoadTestRunOptions,
    display: bool,
    events: Seq<LoadEvent>,
    asked: LoadAction,
    event: LoadEvent,
)
    requires
        test_config.well_formed(),
        executor::load_test_start(test_config, options, display).after(events).is_pending(asked),
    ensures
        ({
            let run = executor::load_test_start(test_config, options, display).after(events);
            let next = run.next(event);
            let continuous = options.continuous;
            match asked {
                LoadAction::ConnectQuery { url } => {
                    &&& match test_config.query_rpc {
                        Some(query) => url == query,
                        None => Some(url) == test_config.primary_submission_rpc,
                    }
                    &&& match event {
                        LoadEvent::Done => if test_config.chain_id is None {
                            load_asks(next, LoadAction::FetchChainId)
                        } else {
                            load_asks(
                                next,
                                LoadAction::BuildConfig { rpc_chain_id: None, continuous },
                            )
                        },
                        LoadEvent::Failed { error } => load_aborts(next, error),
                        _ => next == run,
                    }
                },
                LoadAction::FetchChainId => match event {
                    LoadEvent::ChainId { id } => load_asks(
                        next,
                        LoadAction::BuildConfig { rpc_chain_id: Some(id), continuous },
                    ),
                    LoadEvent::Failed { error } => load_aborts(next, error),
                    _ => next == run,
                },
                LoadAction::BuildConfig { .. } => match event {
                    LoadEvent::Configured { .. } => load_asks(next, LoadAction::LoadFunderKey),
                    LoadEvent::Failed { error } => load_aborts(next, error),
                    _ => next == run,
                },
                LoadAction::LoadFunderKey => match event {
                    LoadEvent::FunderKey { .. } => load_asks(next, LoadAction::BuildRunner),
                    LoadEvent::Failed { error } => load_aborts(next, error),
                    _ => next == run,
                },
                LoadAction::BuildRunner => match event {
                    LoadEvent::Done => {
                        &&& !next.over()
                        &&& forall|a: LoadAction| #[trigger]
                            next.is_pending(a) ==> a is ConfigureRunner
                    },
                    LoadEvent::Failed { error } => load_aborts(next, error),
                    _ => next == run,
                },
                LoadAction::ConfigureRunner { .. } => match event {
                    LoadEvent::Done => load_asks(
                        next,
                        if options.clear_txpools {
                            LoadAction::CountTxpoolNodes
                        } else {
                            LoadAction::FundAccounts
                        },
                    ),
                    _ => next == run,
                },
                LoadAction::Finish => next == run,
                _ => run.stage is InPhases || run.stage is CleaningUp,
            }
        }),
{
    lemma_reachable(test_config, options, display, events);
}

/// What a load test does with each answer while its phases run. Txpool nodes are
/// cleared where there are any; then the accounts are funded; then the real
/// tokens are read; then those are prepared if they are configured, else the
/// swap tokens if there are any; then B-20 tokens if they are needed; then the
/// load runs. The phases end with what the load reports, or with the first
/// failure. Nothing else changes them.
pub proof fn law_phase_answers(
    test_config: TestConfig,
    options: LoadTestRunOptions,
    display: bool,
    events: Seq<LoadEvent>,
    asked: LoadAction,
    event: LoadEvent,
)
    requires
        test_config.well_formed(),
        executor::load_test_start(test_config, options, display).after(events).is_pending(asked),
        executor::load_test_start(test_config, options, display).after(events).stage is InPhases,
    ensures
        ({
            let run = executor::load_test_start(test_config, options, display).after(events);
            let next = run.next(event);
            let summary = test_config.summary;
            match (asked, event) {
                (LoadAction::CountTxpoolNodes, LoadEvent::TxpoolNodes { count }) => load_asks(
                    next,
                    if count > 0 {
                        LoadAction::ClearTxpools
                    } else {
                        LoadAction::FundAccounts
                    },
                ),
                (LoadAction::ClearTxpools, LoadEvent::Done) => load_asks(
                    next,
                    LoadAction::FundAccounts,
                ),
                (LoadAction::FundAccounts, LoadEvent::Done) => {
                    &&& !next.over()
                    &&& forall|a: LoadAction| #[trigger]
                        next.is_pending(a) ==> a is ReadRealTokenSetup
                },
                (
                    LoadAction::ReadRealTokenSetup { .. },
                    LoadEvent::RealTokens { configured },
                ) => load_asks(
                    next,
                    if configured {
                        LoadAction::SetupRealTokens
                    } else {
                        LoadAction::CountSwapTokens
                    },
                ),
                (LoadAction::CountSwapTokens, LoadEvent::SwapTokens { count }) => load_asks(
                    next,
                    if count > 0 {
                        LoadAction::SetupSwapTokens
                    } else {
                        LoadAction::CheckB20
                    },
                ),
                (LoadAction::SetupRealTokens, LoadEvent::Done)
                | (LoadAction::SetupSwapTokens, LoadEvent::Done) => load_asks(
                    next,
                    LoadAction::CheckB20,
                ),
                (LoadAction::CheckB20, LoadEvent::B20 { needed }) => load_asks(
                    next,
                    if needed {
                        LoadAction::SetupB20Tokens
                    } else {
                        LoadAction::RunLoad
                    },
                ),
                (LoadAction::SetupB20Tokens, LoadEvent::Done) => load_asks(
                    next,
                    LoadAction::RunLoad,
                ),
                (LoadAction::RunLoad, LoadEvent::Completed { summary: reported }) => leaves_phases(
                    next,
                    options,
                    summary,
                    Ok(reported),
                ),
                (LoadAction::ClearTxpools, LoadEvent::Failed { error })
                | (LoadAction::FundAccounts, LoadEvent::Failed { error })
                | (LoadAction::ReadRealTokenSetup { .. }, LoadEvent::Failed { error })
                | (LoadAction::SetupRealTokens, LoadEvent::Failed { error })
                | (LoadAction::SetupSwapTokens, LoadEvent::Failed { error })
                | (LoadAction::SetupB20Tokens, LoadEvent::Failed { error })
                | (LoadAction::RunLoad, LoadEvent::Failed { error }) => leaves_phases(
                    next,
                    options,
                    summary,
                    Err(error),
                ),
                (LoadAction::CountTxpoolNodes, _)
                | (LoadAction::ClearTxpools, _)
                | (LoadAction::FundAccounts, _)
                | (LoadAction::ReadRealTokenSetup { .. }, _)
                | (LoadAction::SetupRealTokens, _)
                | (LoadAction::CountSwapTokens, _)
                | (LoadAction::SetupSwapTokens, _)
                | (LoadAction::CheckB20, _)
                | (LoadAction::SetupB20Tokens, _)
                | (LoadAction::RunLoad, _) => next == run,
                _ => false,
            }
        }),
{
    lemma_reachable(test_config, options, display, events);
}

/// What a load test does with each answer while it is cleaned up after. Once
/// transactions have settled, B-20 balances are burned where they are needed;
/// then, burned or not, the accounts are drained; and with that the load test is
/// over, with the outcome that its phases had. Nothing else changes it.
pub proof fn law_cleanup_answers(
    test_config: TestConfig,
    options: LoadTestRunOptions,
    display: bool,
    events: Seq<LoadEvent>,
    asked: LoadAction,
    event: LoadEvent,
    outcome: Result<MetricsSummary, String>,
)
    requires
        test_config.well_formed(),
        executor::load_test_start(test_config, options, display).after(events).is_pending(asked),
        executor::load_test_start(test_config, options, display).after(events).stage matches
            LoadTestStage::CleaningUp { outcome: kept, .. } && kept == outcome,
    ensures
        ({
            let run = executor::load_test_start(test_config, options, display).after(events);
            let next = run.next(event);
            &&& asked is DrainAccounts || (next.stage matches LoadTestStage::CleaningUp {
                outcome: kept,
                ..
            } && kept == outcome)
            &&& match (asked, event) {
                (LoadAction::Pause { nanos }, _) => nanos == 2_000_000_000 && if event is Done {
                    load_asks(next, LoadAction::CheckB20)
                } else {
                    next == run
                },
                (LoadAction::CheckB20, LoadEvent::B20 { needed }) => load_asks(
                    next,
                    if needed {
                        LoadAction::TeardownB20Tokens
                    } else {
                        LoadAction::DrainAccounts
                    },
                ),
                (LoadAction::TeardownB20Tokens, LoadEvent::Done)
                | (LoadAction::TeardownB20Tokens, LoadEvent::Failed { .. }) => load_asks(
                    next,
                    LoadAction::DrainAccounts,
                ),
                (LoadAction::DrainAccounts, LoadEvent::Drained { wei }) => {
                    &&& load_ends(next, test_config.summary, outcome)
                    &&& forall|output: LoadTestRunOutput| #[trigger]
                        next.is_result(Some(Ok(output))) ==> output.cleanup.drained == Some(wei)
                            && output.cleanup.drain_error is None
                },
                (LoadAction::DrainAccounts, LoadEvent::Failed { error }) => {
                    &&& load_ends(next, test_config.summary, outcome)
                    &&& forall|output: LoadTestRunOutput| #[trigger]
                        next.is_result(Some(Ok(output))) ==> output.cleanup.drained is None
                            && output.cleanup.drain_error == Some(error)
                },
                (LoadAction::CheckB20, _)
                | (LoadAction::TeardownB20Tokens, _)
                | (LoadAction::DrainAccounts, _) => next == run,
                _ => false,
            }
        }),
{
    lemma_reachable(test_config, options, display, events);
}

/// Good answers run the load: once the accounts are funded, whether or not real
/// tokens are configured, however many swap tokens there are, and whether or not
/// B-20 tokens are needed, at most five answers lead to the load.
pub proof fn law_good_answers_run_the_load(
    chain_id: u64,
    configured: bool,
    count: usize,
    needed: bool,
)
    ensures
        ({
            let read = LoadPhases { chain_id, stage: PhaseStage::Funding }.next(
                LoadEvent::Done,
            ).next(LoadEvent::RealTokens { configured });
            let traded = if configured {
                read.next(LoadEvent::Done)
            } else if count > 0 {
                read.next(LoadEvent::SwapTokens { count }).next(LoadEvent::Done)
            } else {
                read.next(LoadEvent::SwapTokens { count })
            };
            let ready = if needed {
                traded.next(LoadEvent::B20 { needed }).next(LoadEvent::Done)
            } else {
                traded.next(LoadEvent::B20 { needed })
            };
            &&& read.pending() == if configured {
                LoadAction::SetupRealTokens
            } else {
                LoadAction::CountSwapTokens
            }
            &&& ready.pending() is RunLoad
        }),
{
}

/// How far a load test has come.
pub open spec fn progress(stage: LoadTestStage) -> nat {
    match stage {
        LoadTestStage::Connecting { .. } => 0,
        LoadTestStage::FetchingChainId => 1,
        LoadTestStage::BuildingConfig { .. } => 2,
        LoadTestStage::LoadingKey { .. } => 3,
        LoadTestStage::BuildingRunner { .. } => 4,
        LoadTestStage::Configuring { .. } => 5,
        LoadTestStage::InPhases { phases } => match phases.stage {
            PhaseStage::CountingTxpools => 6,
            PhaseStage::ClearingTxpools => 7,
            PhaseStage::Funding => 8,
            PhaseStage::ReadingRealTokens => 9,
            PhaseStage::SettingTokens { setup } => match setup {
                TokenSetup::SettingReal => 10,
                TokenSetup::CountingSwap => 11,
                TokenSetup::SettingSwap => 12,
                TokenSetup::CheckingB20 => 13,
                _ => 14,
            },
            _ => 15,
        },
        LoadTestStage::CleaningUp { cleanup, .. } => match cleanup.stage {
            CleanupStage::Settling => 16,
            CleanupStage::CheckingB20 => 17,
            CleanupStage::TearingDown => 18,
            _ => 19,
        },
        LoadTestStage::Finished { .. } => 20,
        LoadTestStage::Aborted { .. } => 20,
    }
}

/// A load test never goes back: every answer either changes nothing or brings
/// it further, and there are at most twenty steps to its end.
pub proof fn law_load_test_moves_forward(
    test_config: TestConfig,
    options: LoadTestRunOptions,
    display: bool,
    events: Seq<LoadEvent>,
    event: LoadEvent,
)
    ensures
        ({
            let run = executor::load_test_start(test_config, options, display).after(events);
            &&& progress(run.stage) <= 20
            &&& run.next(event) == run || progress(run.stage) < progress(run.next(event).stage)
        }),
{
    lemma_reachable(test_config, options, display, events);
}

/// Progress is kept as events happen.
proof fn lemma_progress_is_kept(
    test_config: TestConfig,
    options: LoadTestRunOptions,
    display: bool,
    events: Seq<LoadEvent>,
    k: int,
)
    requires
        0 <= k <= events.len(),
    ensures
        ({
            let start = executor::load_test_start(test_config, options, display);
            progress(start.after(events.take(k)).stage) <= progress(start.after(events).stage)
        }),
    decreases events.len(),
{
    if k < events.len() {
        let init = events.drop_last();
        lemma_progress_is_kept(test_config, options, display, init, k);
        law_load_test_moves_forward(test_config, options, display, init, events.last());
        assert(init.take(k) =~= events.take(k));
    } else {
        assert(events.take(k) =~= events);
    }
}

/// What was done is not asked for again: once the accounts are funded they are
/// not funded again, and once the load has run it does not run again.
pub proof fn law_nothing_is_done_twice(
    test_config: TestConfig,
    options: LoadTestRunOptions,
    display: bool,
    events: Seq<LoadEvent>,
    action: LoadAction,
    event: LoadEvent,
)
    requires
        test_config.well_formed(),
        answered(
            executor::load_test_start(test_config, options, display),
            events,
            action,
            event,
        ),
        event is Done || event is Completed || event is Drained,
        action is FundAccounts || action is ClearTxpools || action is SetupRealTokens
            || action is SetupSwapTokens || action is SetupB20Tokens || action is RunLoad
            || action is TeardownB20Tokens || action is DrainAccounts,
        action is RunLoad <==> event is Completed,
        action is DrainAccounts <==> event is Drained,
    ensures
        !executor::load_test_start(test_config, options, display).after(events).is_pending(action),
{
    let start = executor::load_test_start(test_config, options, display);
    let k = choose|k: int| answered_at(start, events, k, action, event);
    let before = events.take(k);
    lemma_reachable(test_config, options, display, before);
    lemma_reachable(test_config, options, display, events);
    law_load_test_moves_forward(test_config, options, display, before, event);
    assert(events.take(k + 1).drop_last() =~= before);
    assert(start.after(events.take(k + 1)) == start.after(before).next(event));
    lemma_progress_is_kept(test_config, options, display, events, k + 1);
}

/// How the parts of a load test begin: the phases with the txpools if they are
/// to be cleared, else with the accounts; the tokens with the real ones if they
/// are configured, else with the swap tokens; the cleanup with a pause of two
/// seconds.
pub proof fn law_parts_begin(options: LoadTestRunOptions, chain_id: u64, real_tokens: bool)
    ensures
        LoadPhases::start(options, chain_id).chain_id == chain_id,
        LoadPhases::start(options, chain_id).pending() == if options.clear_txpools {
            LoadAction::CountTxpoolNodes
        } else {
            LoadAction::FundAccounts
        },
        TokenSetup::start(real_tokens).pending() == if real_tokens {
            LoadAction::SetupRealTokens
        } else {
            LoadAction::CountSwapTokens
        },
        CleanupRun::start().pending() == (LoadAction::Pause { nanos: 2_000_000_000 }),
        !CleanupRun::start().summary.b20_teardown_attempted,
        CleanupRun::start().summary.b20_teardown_error is None,
        CleanupRun::start().summary.drained is None,
        CleanupRun::start().summary.drain_error is None,
{
}

/// What the preparation of tokens does with each answer.
pub proof fn law_token_answers(setup: TokenSetup, event: LoadEvent)
    ensures
        match (setup.pending(), event) {
            (LoadAction::SetupRealTokens, LoadEvent::Done)
            | (LoadAction::SetupSwapTokens, LoadEvent::Done) => {
                setup.next(event).pending() is CheckB20
            },
            (LoadAction::CountSwapTokens, LoadEvent::SwapTokens { count }) => {
                setup.next(event).pending() == if count > 0 {
                    LoadAction::SetupSwapTokens
                } else {
                    LoadAction::CheckB20
                }
            },
            (LoadAction::CheckB20, LoadEvent::B20 { needed: true }) => {
                setup.next(event).pending() is SetupB20Tokens
            },
            (LoadAction::CheckB20, LoadEvent::B20 { needed: false })
            | (LoadAction::SetupB20Tokens, LoadEvent::Done) => {
                setup.next(event) is Ready && setup.next(event).pending() is Finish
            },
            (LoadAction::SetupRealTokens, LoadEvent::Failed { error })
            | (LoadAction::SetupSwapTokens, LoadEvent::Failed { error })
            | (LoadAction::SetupB20Tokens, LoadEvent::Failed { error }) => {
                setup.next(event) == (TokenSetup::Failed { error }) && setup.next(
                    event,
                ).pending() is Finish
            },
            _ => setup.next(event) == setup,
        },
{
}

/// What the phases do with each answer while tokens are not being prepared, and
/// how the preparation of tokens ends them or leads to the load.
pub proof fn law_phases_alone(phases: LoadPhases, event: LoadEvent)
    ensures
        ({
            let next = phases.next(event);
            &&& next.chain_id == phases.chain_id
            &&& match (phases.stage, event) {
                (PhaseStage::CountingTxpools, LoadEvent::TxpoolNodes { count }) => {
                    next.pending() == if count > 0 {
                        LoadAction::ClearTxpools
                    } else {
                        LoadAction::FundAccounts
                    }
                },
                (PhaseStage::ClearingTxpools, LoadEvent::Done) => next.pending() is FundAccounts,
                (PhaseStage::Funding, LoadEvent::Done) => {
                    next.pending() == (LoadAction::ReadRealTokenSetup {
                        chain_id: phases.chain_id,
                    })
                },
                (PhaseStage::ReadingRealTokens, LoadEvent::RealTokens { configured }) => {
                    next.pending() == if configured {
                        LoadAction::SetupRealTokens
                    } else {
                        LoadAction::CountSwapTokens
                    }
                },
                (PhaseStage::SettingTokens { setup }, _) => match setup.next(event) {
                    TokenSetup::Ready => next.pending() is RunLoad,
                    TokenSetup::Failed { error } => {
                        next.stage == (PhaseStage::Failed { error }) && next.pending() is Finish
                    },
                    prepared => next.pending() == prepared.pending(),
                },
                (PhaseStage::Running, LoadEvent::Completed { summary }) => {
                    next.stage == (PhaseStage::Completed { summary }) && next.pending() is Finish
                },
                (PhaseStage::ClearingTxpools, LoadEvent::Failed { error })
                | (PhaseStage::Funding, LoadEvent::Failed { error })
                | (PhaseStage::ReadingRealTokens, LoadEvent::Failed { error })
                | (PhaseStage::Running, LoadEvent::Failed { error }) => {
                    next.stage == (PhaseStage::Failed { error }) && next.pending() is Finish
                },
                _ => next == phases,
            }
        }),
{
}

/// What the cleanup does with each answer: it remembers whether balances were to
/// be burned and what came of it, and what came of the drain, and overwrites
/// nothing of that.
pub proof fn law_cleanup_alone(cleanup: CleanupRun, event: LoadEvent)
    ensures
        ({
            let next = cleanup.next(event);
            let before = cleanup.summary;
            let after = next.summary;
            &&& after.b20_teardown_attempted == (before.b20_teardown_attempted || (
            cleanup.pending() is CheckB20 && event == LoadEvent::B20 { needed: true }))
            &&& after.b20_teardown_error == match (cleanup.pending(), event) {
                (LoadAction::TeardownB20Tokens, LoadEvent::Failed { error }) => Some(error),
                _ => before.b20_teardown_error,
            }
            &&& after.drained == match (cleanup.pending(), event) {
                (LoadAction::DrainAccounts, LoadEvent::Drained { wei }) => Some(wei),
                _ => before.drained,
            }
            &&& after.drain_error == match (cleanup.pending(), event) {
                (LoadAction::DrainAccounts, LoadEvent::Failed { error }) => Some(error),
                _ => before.drain_error,
            }
            &&& next.pending() == match (cleanup.pending(), event) {
                (LoadAction::Pause { .. }, LoadEvent::Done) => LoadAction::CheckB20,
                (LoadAction::CheckB20, LoadEvent::B20 { needed: true }) => {
                    LoadAction::TeardownB20Tokens
                },
                (LoadAction::CheckB20, LoadEvent::B20 { needed: false })
                | (LoadAction::TeardownB20Tokens, LoadEvent::Done)
                | (LoadAction::TeardownB20Tokens, LoadEvent::Failed { .. }) => {
                    LoadAction::DrainAccounts
                },
                (LoadAction::DrainAccounts, LoadEvent::Drained { .. })
                | (LoadAction::DrainAccounts, LoadEvent::Failed { .. }) => LoadAction::Finish,
                (unanswered, _) => unanswered,
            }
            &&& next.stage is Over <==> next.pending() is Finish
        }),
{
}

} // verus!
