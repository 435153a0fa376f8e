//! Execution of a load test: setup, run and cleanup.

use crate::config::RpcUrl;
use crate::metrics::MetricsSummary;
use crate::outside;
use vstd::prelude::*;

verus! {

/// Nanoseconds that submitted transactions get to settle before cleanup.
pub const CLEANUP_DELAY_NANOS: u128 = 2_000_000_000;

/// Runtime options for a load-test execution.
#[derive(Clone, Copy, Debug, PartialEq, Eq, Structural)]
pub struct LoadTestRunOptions {
    /// Run continuously until the runner is externally stopped.
    pub continuous: bool,
    /// Clear configured txpool nodes before funding and running the test.
    pub clear_txpools: bool,
    /// Burn B-20 balances and drain native ETH after the run attempt.
    pub cleanup: bool,
    /// Install a Ctrl-C handler that asks the runner to stop gracefully.
    pub install_signal_handler: bool,
}

impl LoadTestRunOptions {
    /// The options where none are named.
    pub open spec fn unnamed() -> Self {
        LoadTestRunOptions {
            continuous: false,
            clear_txpools: true,
            cleanup: true,
            install_signal_handler: false,
        }
    }
}

impl Default for LoadTestRunOptions {
    /// One run with txpools cleared before it and accounts cleaned up after it.
    fn default() -> (r: Self)
        ensures
            r == LoadTestRunOptions::unnamed(),
    {
        LoadTestRunOptions {
            continuous: false,
            clear_txpools: true,
            cleanup: true,
            install_signal_handler: false,
        }
    }
}

/// What the execution reads of a validated load-test configuration.
#[derive(Debug, PartialEq, Eq)]
pub struct TestConfig {
    /// RPC to query, if the configuration names one.
    pub query_rpc: Option<RpcUrl>,
    /// First RPC that transactions are submitted to.
    pub primary_submission_rpc: Option<RpcUrl>,
    /// Chain ID, if the configuration names one.
    pub chain_id: Option<u64>,
    /// The configuration as the load test renders it.
    pub summary: String,
}

/// Cleanup work attempted after a load-test run.
#[derive(Clone, Debug, PartialEq, Eq)]
pub struct LoadTestCleanupSummary {
    /// Whether B-20 teardown was attempted.
    pub b20_teardown_attempted: bool,
    /// Error returned by B-20 teardown, if any.
    pub b20_teardown_error: Option<String>,
    /// Native ETH drained back to the funder, in wei: a 256-bit number as its
    /// 64-bit limbs, least significant first.
    pub drained: Option<[u64; 4]>,
    /// Error returned by native ETH drain, if any.
    pub drain_error: Option<String>,
}

impl LoadTestCleanupSummary {
    /// Nothing was attempted.
    pub open spec fn nothing() -> Self {
        LoadTestCleanupSummary {
            b20_teardown_attempted: false,
            b20_teardown_error: None,
            drained: None,
            drain_error: None,
        }
    }
}

impl Default for LoadTestCleanupSummary {
    fn default() -> (r: Self)
        ensures
            r == LoadTestCleanupSummary::nothing(),
    {
        LoadTestCleanupSummary {
            b20_teardown_attempted: false,
            b20_teardown_error: None,
            drained: None,
            drain_error: None,
        }
    }
}

/// Completed load-test execution.
#[derive(Clone, Debug, PartialEq, Eq)]
pub struct LoadTestRunOutput {
    /// Metrics summary from the run. If setup or execution failed, `error` is
    /// populated.
    pub summary: MetricsSummary,
    /// Cleanup summary.
    pub cleanup: LoadTestCleanupSummary,
}

/// What a load test needs done next.
#[derive(Debug, PartialEq, Eq)]
pub enum LoadAction {
    /// Connect to the RPC that is queried.
    ConnectQuery { url: RpcUrl },
    /// Ask that RPC for its chain ID.
    FetchChainId,
    /// Build the load configuration, for the chain ID that the RPC named if it
    /// was asked, and for a continuous run if that is wanted.
    BuildConfig { rpc_chain_id: Option<u64>, continuous: bool },
    /// Load the key of the funder.
    LoadFunderKey,
    /// Build the load runner.
    BuildRunner,
    /// Hand the runner its configuration summary, the funder's address and the
    /// display, if there is one, and install the signal handler if that is
    /// wanted.
    ConfigureRunner {
        config_summary: String,
        funder_address: String,
        display: bool,
        install_signal_handler: bool,
    },
    /// Ask the runner for its number of txpool nodes.
    CountTxpoolNodes,
    /// Clear the txpool nodes.
    ClearTxpools,
    /// Fund the accounts with the configured amount.
    FundAccounts,
    /// Read the real tokens configured for the chain, if any.
    ReadRealTokenSetup { chain_id: u64 },
    /// Prepare balances of the real tokens.
    SetupRealTokens,
    /// Ask the runner for its number of swap tokens.
    CountSwapTokens,
    /// Prepare balances of the swap tokens, of the configured amount.
    SetupSwapTokens,
    /// Ask the runner whether it needs B-20 tokens.
    CheckB20,
    /// Prepare B-20 balances of the configured amount.
    SetupB20Tokens,
    /// Run the load.
    RunLoad,
    /// Wait.
    Pause { nanos: u128 },
    /// Burn the B-20 balances.
    TeardownB20Tokens,
    /// Drain native ETH back to the funder.
    DrainAccounts,
    /// Nothing: the load test has its result.
    Finish,
}

/// What came of an action.
#[derive(Debug, PartialEq, Eq)]
pub enum LoadEvent {
    /// It is done.
    Done,
    /// The RPC named its chain ID.
    ChainId { id: u64 },
    /// The load configuration is built, for the chain.
    Configured { chain_id: u64 },
    /// The funder's key belongs to the address.
    FunderKey { address: [u8; 20] },
    /// The runner has that many txpool nodes.
    TxpoolNodes { count: usize },
    /// Real tokens are configured, or are not.
    RealTokens { configured: bool },
    /// The runner has that many swap tokens.
    SwapTokens { count: usize },
    /// The runner needs B-20 tokens, or does not.
    B20 { needed: bool },
    /// The load has run.
    Completed { summary: MetricsSummary },
    /// The accounts are drained of that many wei, given as 64-bit limbs, least
    /// significant first.
    Drained { wei: [u64; 4] },
    /// It failed.
    Failed { error: String },
}

/// Preparation of optional real-token, swap-token, and B-20 balances.
#[derive(Debug, PartialEq, Eq)]
pub enum TokenSetup {
    /// Real tokens are prepared.
    SettingReal,
    /// The swap tokens are counted.
    CountingSwap,
    /// Swap tokens are prepared.
    SettingSwap,
    /// It is asked whether B-20 tokens are needed.
    CheckingB20,
    /// B-20 tokens are prepared.
    SettingB20,
    /// All tokens are prepared.
    Ready,
    /// Some token could not be prepared.
    Failed { error: String },
}

impl TokenSetup {
    /// The preparation before anything is done.
    pub open spec fn start(real_tokens: bool) -> TokenSetup {
        if real_tokens {
            TokenSetup::SettingReal
        } else {
            TokenSetup::CountingSwap
        }
    }

    /// The preparation after `event`. An event that does not answer the pending
    /// action changes nothing.
    pub open spec fn next(self, event: LoadEvent) -> TokenSetup {
        match (self, event) {
            (TokenSetup::SettingReal, LoadEvent::Done)
            | (TokenSetup::SettingSwap, LoadEvent::Done) => TokenSetup::CheckingB20,
            (TokenSetup::CountingSwap, LoadEvent::SwapTokens { count }) => if count > 0 {
                TokenSetup::SettingSwap
            } else {
                TokenSetup::CheckingB20
            },
            (TokenSetup::CheckingB20, LoadEvent::B20 { needed }) => if needed {
                TokenSetup::SettingB20
            } else {
                TokenSetup::Ready
            },
            (TokenSetup::SettingB20, LoadEvent::Done) => TokenSetup::Ready,
            (TokenSetup::SettingReal, LoadEvent::Failed { error })
            | (TokenSetup::SettingSwap, LoadEvent::Failed { error })
            | (TokenSetup::SettingB20, LoadEvent::Failed { error }) => TokenSetup::Failed { error },
            (setup, _) => setup,
        }
    }

    /// What the preparation needs done.
    pub open spec fn pending(self) -> LoadAction {
        match self {
            TokenSetup::SettingReal => LoadAction::SetupRealTokens,
            TokenSetup::CountingSwap => LoadAction::CountSwapTokens,
            TokenSetup::SettingSwap => LoadAction::SetupSwapTokens,
            TokenSetup::CheckingB20 => LoadAction::CheckB20,
            TokenSetup::SettingB20 => LoadAction::SetupB20Tokens,
            _ => LoadAction::Finish,
        }
    }

    /// Moves the preparation on. An event that does not answer the pending
    /// action changes nothing.
    pub fn on(self, event: LoadEvent) -> (r: TokenSetup)
        ensures
            r == self.next(event),
    {
        match (self, event) {
            (TokenSetup::SettingReal, LoadEvent::Done)
            | (TokenSetup::SettingSwap, LoadEvent::Done) => TokenSetup::CheckingB20,
            (TokenSetup::CountingSwap, LoadEvent::SwapTokens { count }) => if count > 0 {
                TokenSetup::SettingSwap
            } else {
                TokenSetup::CheckingB20
            },
            (TokenSetup::CheckingB20, LoadEvent::B20 { needed }) => if needed {
                TokenSetup::SettingB20
            } else {
                TokenSetup::Ready
            },
            (TokenSetup::SettingB20, LoadEvent::Done) => TokenSetup::Ready,
            (TokenSetup::SettingReal, LoadEvent::Failed { error })
            | (TokenSetup::SettingSwap, LoadEvent::Failed { error })
            | (TokenSetup::SettingB20, LoadEvent::Failed { error }) => TokenSetup::Failed { error },
            (setup, _) => setup,
        }
    }

    /// What the preparation needs done.
    pub fn action(&self) -> (r: LoadAction)
        ensures
            r == self.pending(),
    {
        match self {
            TokenSetup::SettingReal => LoadAction::SetupRealTokens,
            TokenSetup::CountingSwap => LoadAction::CountSwapTokens,
            TokenSetup::SettingSwap => LoadAction::SetupSwapTokens,
            TokenSetup::CheckingB20 => LoadAction::CheckB20,
            TokenSetup::SettingB20 => LoadAction::SetupB20Tokens,
            _ => LoadAction::Finish,
        }
    }
}

/// Where the phases of a load test stand.
#[derive(Debug, PartialEq, Eq)]
pub enum PhaseStage {
    /// The txpool nodes are counted.
    CountingTxpools,
    /// The txpool nodes are cleared.
    ClearingTxpools,
    /// The accounts are funded.
    Funding,
    /// The configured real tokens are read.
    ReadingRealTokens,
    /// The tokens are prepared.
    SettingTokens { setup: TokenSetup },
    /// The load runs.
    Running,
    /// The load has run.
    Completed { summary: MetricsSummary },
    /// Some phase failed.
    Failed { error: String },
}

impl PhaseStage {
    /// The phases before anything is done.
    pub open spec fn start(options: LoadTestRunOptions) -> PhaseStage {
        if options.clear_txpools {
            PhaseStage::CountingTxpools
        } else {
            PhaseStage::Funding
        }
    }

    /// The phases after `event`. An event that does not answer the pending
    /// action changes nothing.
    pub open spec fn next(self, event: LoadEvent) -> PhaseStage {
        match (self, event) {
            (PhaseStage::CountingTxpools, LoadEvent::TxpoolNodes { count }) => if count > 0 {
                PhaseStage::ClearingTxpools
            } else {
                PhaseStage::Funding
            },
            (PhaseStage::ClearingTxpools, LoadEvent::Done) => PhaseStage::Funding,
            (PhaseStage::Funding, LoadEvent::Done) => PhaseStage::ReadingRealTokens,
            (PhaseStage::ReadingRealTokens, LoadEvent::RealTokens { configured }) => {
                PhaseStage::SettingTokens { setup: TokenSetup::start(configured) }
            },
            (PhaseStage::SettingTokens { setup }, event) => match setup.next(event) {
                TokenSetup::Ready => PhaseStage::Running,
                TokenSetup::Failed { error } => PhaseStage::Failed { error },
                setup => PhaseStage::SettingTokens { setup },
            },
            (PhaseStage::Running, LoadEvent::Completed { summary }) => {
                PhaseStage::Completed { summary }
            },
            (PhaseStage::ClearingTxpools, LoadEvent::Failed { error })
            | (PhaseStage::Funding, LoadEvent::Failed { error })
            | (PhaseStage::ReadingRealTokens, LoadEvent::Failed { error })
            | (PhaseStage::Running, LoadEvent::Failed { error }) => PhaseStage::Failed { error },
            (phases, _) => phases,
        }
    }

    /// Moves the phases on. An event that does not answer the pending action
    /// changes nothing.
    pub fn on(self, event: LoadEvent) -> (r: PhaseStage)
        ensures
            r == self.next(event),
    {
        match (self, event) {
            (PhaseStage::CountingTxpools, LoadEvent::TxpoolNodes { count }) => if count > 0 {
                PhaseStage::ClearingTxpools
            } else {
                PhaseStage::Funding
            },
            (PhaseStage::ClearingTxpools, LoadEvent::Done) => PhaseStage::Funding,
            (PhaseStage::Funding, LoadEvent::Done) => PhaseStage::ReadingRealTokens,
            (PhaseStage::ReadingRealTokens, LoadEvent::RealTokens { configured }) => {
                PhaseStage::SettingTokens { setup: LoadTestExecutor::setup_tokens(configured) }
            },
            (PhaseStage::SettingTokens { setup }, event) => match setup.on(event) {
                TokenSetup::Ready => PhaseStage::Running,
                TokenSetup::Failed { error } => PhaseStage::Failed { error },
                setup => PhaseStage::SettingTokens { setup },
            },
            (PhaseStage::Running, LoadEvent::Completed { summary }) => {
                PhaseStage::Completed { summary }
            },
            (PhaseStage::ClearingTxpools, LoadEvent::Failed { error })
            | (PhaseStage::Funding, LoadEvent::Failed { error })
            | (PhaseStage::ReadingRealTokens, LoadEvent::Failed { error })
            | (PhaseStage::Running, LoadEvent::Failed { error }) => PhaseStage::Failed { error },
            (phases, _) => phases,
        }
    }
}

/// Txpool clearing, account funding, token setup, and the load loop.
#[derive(Debug, PartialEq, Eq)]
pub struct LoadPhases {
    /// Chain that the load configuration is built for.
    pub chain_id: u64,
    /// Where the phases stand.
    pub stage: PhaseStage,
}

impl LoadPhases {
    /// The phases before anything is done.
    pub open spec fn start(options: LoadTestRunOptions, chain_id: u64) -> LoadPhases {
        LoadPhases { chain_id, stage: PhaseStage::start(options) }
    }

    /// The phases after `event`.
    pub open spec fn next(self, event: LoadEvent) -> LoadPhases {
        LoadPhases { stage: self.stage.next(event), ..self }
    }

    /// What the phases need done.
    pub open spec fn pending(self) -> LoadAction {
        match self.stage {
            PhaseStage::CountingTxpools => LoadAction::CountTxpoolNodes,
            PhaseStage::ClearingTxpools => LoadAction::ClearTxpools,
            PhaseStage::Funding => LoadAction::FundAccounts,
            PhaseStage::ReadingRealTokens => LoadAction::ReadRealTokenSetup {
                chain_id: self.chain_id,
            },
            PhaseStage::SettingTokens { setup } => setup.pending(),
            PhaseStage::Running => LoadAction::RunLoad,
            _ => LoadAction::Finish,
        }
    }

    /// Moves the phases on. An event that does not answer the pending action
    /// changes nothing.
    pub fn on(self, event: LoadEvent) -> (r: LoadPhases)
        ensures
            r == self.next(event),
    {
        LoadPhases { chain_id: self.chain_id, stage: self.stage.on(event) }
    }

    /// What the phases need done.
    pub fn action(&self) -> (r: LoadAction)
        ensures
            r == self.pending(),
    {
        match &self.stage {
            PhaseStage::CountingTxpools => LoadAction::CountTxpoolNodes,
            PhaseStage::ClearingTxpools => LoadAction::ClearTxpools,
            PhaseStage::Funding => LoadAction::FundAccounts,
            PhaseStage::ReadingRealTokens => LoadAction::ReadRealTokenSetup {
                chain_id: self.chain_id,
            },
            PhaseStage::SettingTokens { setup } => setup.action(),
            PhaseStage::Running => LoadAction::RunLoad,
            _ => LoadAction::Finish,
        }
    }
}

/// Where the cleanup stands.
#[derive(Clone, Copy, Debug, PartialEq, Eq, Structural)]
pub enum CleanupStage {
    /// Submitted transactions settle.
    Settling,
    /// It is asked whether B-20 balances are to be burned.
    CheckingB20,
    /// The B-20 balances are burned.
    TearingDown,
    /// Native ETH is drained.
    Draining,
    /// The cleanup is over.
    Over,
}

/// Burning of B-20 balances when needed and draining of native ETH back to the
/// funder.
#[derive(Debug, PartialEq, Eq)]
pub struct CleanupRun {
    /// What was attempted so far.
    pub summary: LoadTestCleanupSummary,
    /// Where the cleanup stands.
    pub stage: CleanupStage,
}

impl CleanupRun {
    /// The cleanup before anything is done.
    pub open spec fn start() -> CleanupRun {
        CleanupRun { summary: LoadTestCleanupSummary::nothing(), stage: CleanupStage::Settling }
    }

    /// The cleanup after `event`. A failed burn does not keep the drain from
    /// being attempted. An event that does not answer the pending action changes
    /// nothing.
    pub open spec fn next(self, event: LoadEvent) -> CleanupRun {
        let summary = self.summary;
        match (self.stage, event) {
            (CleanupStage::Settling, LoadEvent::Done) => {
                CleanupRun { summary, stage: CleanupStage::CheckingB20 }
            },
            (CleanupStage::CheckingB20, LoadEvent::B20 { needed }) => if needed {
                CleanupRun {
                    summary: LoadTestCleanupSummary { b20_teardown_attempted: true, ..summary },
                    stage: CleanupStage::TearingDown,
                }
            } else {
                CleanupRun { summary, stage: CleanupStage::Draining }
            },
            (CleanupStage::TearingDown, LoadEvent::Done) => {
                CleanupRun { summary, stage: CleanupStage::Draining }
            },
            (CleanupStage::TearingDown, LoadEvent::Failed { error }) => CleanupRun {
                summary: LoadTestCleanupSummary { b20_teardown_error: Some(error), ..summary },
                stage: CleanupStage::Draining,
            },
            (CleanupStage::Draining, LoadEvent::Drained { wei }) => CleanupRun {
                summary: LoadTestCleanupSummary { drained: Some(wei), ..summary },
                stage: CleanupStage::Over,
            },
            (CleanupStage::Draining, LoadEvent::Failed { error }) => CleanupRun {
                summary: LoadTestCleanupSummary { drain_error: Some(error), ..summary },
                stage: CleanupStage::Over,
            },
            _ => self,
        }
    }

    /// What the cleanup needs done.
    pub open spec fn pending(self) -> LoadAction {
        match self.stage {
            CleanupStage::Settling => LoadAction::Pause { nanos: CLEANUP_DELAY_NANOS },
            CleanupStage::CheckingB20 => LoadAction::CheckB20,
            CleanupStage::TearingDown => LoadAction::TeardownB20Tokens,
            CleanupStage::Draining => LoadAction::DrainAccounts,
            CleanupStage::Over => LoadAction::Finish,
        }
    }

    /// Moves the cleanup on. An event that does not answer the pending action
    /// changes nothing.
    pub fn on(self, event: LoadEvent) -> (r: CleanupRun)
        ensures
            r == self.next(event),
    {
        let mut summary = self.summary;
        let stage = match (self.stage, event) {
            (CleanupStage::Settling, LoadEvent::Done) => CleanupStage::CheckingB20,
            (CleanupStage::CheckingB20, LoadEvent::B20 { needed }) => if needed {
                summary.b20_teardown_attempted = true;
                CleanupStage::TearingDown
            } else {
                CleanupStage::Draining
            },
            (CleanupStage::TearingDown, LoadEvent::Done) => CleanupStage::Draining,
            (CleanupStage::TearingDown, LoadEvent::Failed { error }) => {
                summary.b20_teardown_error = Some(error);
                CleanupStage::Draining
            },
            (CleanupStage::Draining, LoadEvent::Drained { wei }) => {
                summary.drained = Some(wei);
                CleanupStage::Over
            },
            (CleanupStage::Draining, LoadEvent::Failed { error }) => {
                summary.drain_error = Some(error);
                CleanupStage::Over
            },
            (stage, _) => stage,
        };
        CleanupRun { summary, stage }
    }

    /// What the cleanup needs done.
    pub fn action(&self) -> (r: LoadAction)
        ensures
            r == self.pending(),
    {
        match self.stage {
            CleanupStage::Settling => LoadAction::Pause { nanos: CLEANUP_DELAY_NANOS },
            CleanupStage::CheckingB20 => LoadAction::CheckB20,
            CleanupStage::TearingDown => LoadAction::TeardownB20Tokens,
            CleanupStage::Draining => LoadAction::DrainAccounts,
            CleanupStage::Over => LoadAction::Finish,
        }
    }
}

/// Where a load test stands.
#[derive(Debug, PartialEq, Eq)]
pub enum LoadTestStage {
    /// The RPC that is queried is being connected to.
    Connecting { url: RpcUrl, configured_chain_id: Option<u64> },
    /// That RPC is asked for its chain ID.
    FetchingChainId,
    /// The load configuration is built.
    BuildingConfig { rpc_chain_id: Option<u64> },
    /// The funder's key is loaded.
    LoadingKey { chain_id: u64 },
    /// The runner is built.
    BuildingRunner { chain_id: u64, funder: [u8; 20] },
    /// The runner is configured.
    Configuring { chain_id: u64, funder: [u8; 20] },
    /// The phases of the test run.
    InPhases { phases: LoadPhases },
    /// The test has run, well or not, and is cleaned up after.
    CleaningUp { outcome: Result<MetricsSummary, String>, cleanup: CleanupRun },
    /// The test has run, well or not, and is over.
    Finished { outcome: Result<MetricsSummary, String>, cleaned: LoadTestCleanupSummary },
    /// The test could not be set up.
    Aborted { error: String },
}

/// Executes a configured load test, including setup and optional cleanup.
#[derive(Debug, PartialEq, Eq)]
pub struct LoadTestRun {
    /// Options of the execution.
    pub options: LoadTestRunOptions,
    /// Whether there is a live display.
    pub display: bool,
    /// The configuration as the load test renders it.
    pub config_summary: String,
    /// Where the test stands.
    pub stage: LoadTestStage,
}

/// Where a load test stands once its phases are over.
pub open spec fn after_phases(
    options: LoadTestRunOptions,
    outcome: Result<MetricsSummary, String>,
) -> LoadTestStage {
    if options.cleanup {
        LoadTestStage::CleaningUp { outcome, cleanup: CleanupRun::start() }
    } else {
        LoadTestStage::Finished { outcome, cleaned: LoadTestCleanupSummary::nothing() }
    }
}

impl LoadTestRun {
    /// The load test after `event`. An event that does not answer the pending
    /// action changes nothing.
    pub open spec fn next(self, event: LoadEvent) -> LoadTestRun {
        let options = self.options;
        let stage = match (self.stage, event) {
            (LoadTestStage::Connecting { url, configured_chain_id }, LoadEvent::Done) => {
                if configured_chain_id is None {
                    LoadTestStage::FetchingChainId
                } else {
                    LoadTestStage::BuildingConfig { rpc_chain_id: None }
                }
            },
            (LoadTestStage::FetchingChainId, LoadEvent::ChainId { id }) => {
                LoadTestStage::BuildingConfig { rpc_chain_id: Some(id) }
            },
            (LoadTestStage::BuildingConfig { .. }, LoadEvent::Configured { chain_id }) => {
                LoadTestStage::LoadingKey { chain_id }
            },
            (LoadTestStage::LoadingKey { chain_id }, LoadEvent::FunderKey { address }) => {
                LoadTestStage::BuildingRunner { chain_id, funder: address }
            },
            (LoadTestStage::BuildingRunner { chain_id, funder }, LoadEvent::Done) => {
                LoadTestStage::Configuring { chain_id, funder }
            },
            (LoadTestStage::Configuring { chain_id, .. }, LoadEvent::Done) => {
                LoadTestStage::InPhases { phases: LoadPhases::start(options, chain_id) }
            },
            (LoadTestStage::Connecting { .. }, LoadEvent::Failed { error })
            | (LoadTestStage::FetchingChainId, LoadEvent::Failed { error })
            | (LoadTestStage::BuildingConfig { .. }, LoadEvent::Failed { error })
            | (LoadTestStage::LoadingKey { .. }, LoadEvent::Failed { error })
            | (LoadTestStage::BuildingRunner { .. }, LoadEvent::Failed { error }) => {
                LoadTestStage::Aborted { error }
            },
            (LoadTestStage::InPhases { phases }, event) => match phases.next(event).stage {
                PhaseStage::Completed { summary } => after_phases(options, Ok(summary)),
                PhaseStage::Failed { error } => after_phases(options, Err(error)),
                _ => LoadTestStage::InPhases { phases: phases.next(event) },
            },
            (LoadTestStage::CleaningUp { outcome, cleanup }, event) => {
                let cleanup = cleanup.next(event);
                if cleanup.stage is Over {
                    LoadTestStage::Finished { outcome, cleaned: cleanup.summary }
                } else {
                    LoadTestStage::CleaningUp { outcome, cleanup }
                }
            },
            (stage, _) => stage,
        };
        LoadTestRun { stage, ..self }
    }

    /// The load test after all of `events`.
    pub open spec fn after(self, events: Seq<LoadEvent>) -> LoadTestRun
        decreases events.len(),
    {
        if events.len() == 0 {
            self
        } else {
            self.after(events.drop_last()).next(events.last())
        }
    }

    /// `action` is what the load test needs done.
    pub open spec fn is_pending(self, action: LoadAction) -> bool {
        match self.stage {
            LoadTestStage::Connecting { url, configured_chain_id } => {
                action == (LoadAction::ConnectQuery { url })
            },
            LoadTestStage::FetchingChainId => action is FetchChainId,
            LoadTestStage::BuildingConfig { rpc_chain_id } => action == (LoadAction::BuildConfig {
                rpc_chain_id,
                continuous: self.options.continuous,
            }),
            LoadTestStage::LoadingKey { chain_id } => action is LoadFunderKey,
            LoadTestStage::BuildingRunner { chain_id, funder } => action is BuildRunner,
            LoadTestStage::Configuring { chain_id, funder } => {
                &&& action is ConfigureRunner
                &&& action->config_summary == self.config_summary
                &&& action->funder_address@ == outside::address_display(funder@)
                &&& action->display == self.display
                &&& action->install_signal_handler == self.options.install_signal_handler
            },
            LoadTestStage::InPhases { phases } => action == phases.pending(),
            LoadTestStage::CleaningUp { outcome, cleanup } => action == cleanup.pending(),
            LoadTestStage::Finished { outcome, cleaned } => action is Finish,
            LoadTestStage::Aborted { error } => action is Finish,
        }
    }

    /// `r` is what the load test came to; there is nothing yet while it goes
    /// on. A test that could not be set up is an error. One that failed later
    /// has an output, which names the failure.
    pub open spec fn is_result(self, r: Option<Result<LoadTestRunOutput, String>>) -> bool {
        match self.stage {
            LoadTestStage::Finished { outcome, cleaned } => {
                &&& r is Some
                &&& r->0 is Ok
                &&& r->0->Ok_0.cleanup == cleaned
                &&& match outcome {
                    Ok(summary) => r->0->Ok_0.summary == summary,
                    Err(error) => r->0->Ok_0.summary.is_failure(self.config_summary, error),
                }
            },
            LoadTestStage::Aborted { error } => r == Some(Err::<LoadTestRunOutput, _>(error)),
            _ => r is None,
        }
    }

    /// Moves the load test on. An event that does not answer the pending action
    /// changes nothing.
    pub fn on(self, event: LoadEvent) -> (r: LoadTestRun)
        ensures
            r == self.next(event),
    {
        let options = self.options;
        let stage = match (self.stage, event) {
            (LoadTestStage::Connecting { configured_chain_id, .. }, LoadEvent::Done) => {
                match configured_chain_id {
                    None => LoadTestStage::FetchingChainId,
                    Some(_) => LoadTestStage::BuildingConfig { rpc_chain_id: None },
                }
            },
            (LoadTestStage::FetchingChainId, LoadEvent::ChainId { id }) => {
                LoadTestStage::BuildingConfig { rpc_chain_id: Some(id) }
            },
            (LoadTestStage::BuildingConfig { .. }, LoadEvent::Configured { chain_id }) => {
                LoadTestStage::LoadingKey { chain_id }
            },
            (LoadTestStage::LoadingKey { chain_id }, LoadEvent::FunderKey { address }) => {
                LoadTestStage::BuildingRunner { chain_id, funder: address }
            },
            (LoadTestStage::BuildingRunner { chain_id, funder }, LoadEvent::Done) => {
                LoadTestStage::Configuring { chain_id, funder }
            },
            (LoadTestStage::Configuring { chain_id, .. }, LoadEvent::Done) => {
                LoadTestStage::InPhases { phases: LoadTestExecutor::run_phases(options, chain_id) }
            },
            (LoadTestStage::Connecting { .. }, LoadEvent::Failed { error })
            | (LoadTestStage::FetchingChainId, LoadEvent::Failed { error })
            | (LoadTestStage::BuildingConfig { .. }, LoadEvent::Failed { error })
            | (LoadTestStage::LoadingKey { .. }, LoadEvent::Failed { error })
            | (LoadTestStage::BuildingRunner { .. }, LoadEvent::Failed { error }) => {
                LoadTestStage::Aborted { error }
            },
            (LoadTestStage::InPhases { phases }, event) => {
                let phases = phases.on(event);
                match phases.stage {
                    PhaseStage::Completed { summary } => Self::leave_phases(options, Ok(summary)),
                    PhaseStage::Failed { error } => Self::leave_phases(options, Err(error)),
                    stage => LoadTestStage::InPhases {
                        phases: LoadPhases { chain_id: phases.chain_id, stage },
                    },
                }
            },
            (LoadTestStage::CleaningUp { outcome, cleanup }, event) => {
                let cleanup = cleanup.on(event);
                match cleanup.stage {
                    CleanupStage::Over => LoadTestStage::Finished {
                        outcome,
                        cleaned: cleanup.summary,
                    },
                    _ => LoadTestStage::CleaningUp { outcome, cleanup },
                }
            },
            (stage, _) => stage,
        };
        LoadTestRun {
            options,
            display: self.display,
            config_summary: self.config_summary,
            stage,
        }
    }

    /// Turns to cleanup, if that is wanted, once the phases are over.
    fn leave_phases(
        options: LoadTestRunOptions,
        outcome: Result<MetricsSummary, String>,
    ) -> (r: LoadTestStage)
        ensures
            r == after_phases(options, outcome),
    {
        if options.cleanup {
            LoadTestStage::CleaningUp { outcome, cleanup: LoadTestExecutor::cleanup() }
        } else {
            LoadTestStage::Finished { outcome, cleaned: LoadTestCleanupSummary::default() }
        }
    }

    /// What the load test needs done.
    pub fn action(&self) -> (r: LoadAction)
        ensures
            self.is_pending(r),
    {
        match &self.stage {
            LoadTestStage::Connecting { url, .. } => LoadAction::ConnectQuery { url: url.clone() },
            LoadTestStage::FetchingChainId => LoadAction::FetchChainId,
            LoadTestStage::BuildingConfig { rpc_chain_id } => LoadAction::BuildConfig {
                rpc_chain_id: *rpc_chain_id,
                continuous: self.options.continuous,
            },
            LoadTestStage::LoadingKey { .. } => LoadAction::LoadFunderKey,
            LoadTestStage::BuildingRunner { .. } => LoadAction::BuildRunner,
            LoadTestStage::Configuring { funder, .. } => LoadAction::ConfigureRunner {
                config_summary: self.config_summary.clone(),
                funder_address: outside::address_text(funder),
                display: self.display,
                install_signal_handler: self.options.install_signal_handler,
            },
            LoadTestStage::InPhases { phases } => phases.action(),
            LoadTestStage::CleaningUp { cleanup, .. } => cleanup.action(),
            LoadTestStage::Finished { .. } | LoadTestStage::Aborted { .. } => LoadAction::Finish,
        }
    }

    /// The load test has its result.
    pub open spec fn over(self) -> bool {
        self.stage is Finished || self.stage is Aborted
    }

    /// Whether the load test has its result.
    pub fn is_over(&self) -> (r: bool)
        ensures
            r == self.over(),
    {
        match &self.stage {
            LoadTestStage::Finished { .. } | LoadTestStage::Aborted { .. } => true,
            _ => false,
        }
    }

    /// What the load test came to, once it is over.
    pub fn into_result(self) -> (r: Option<Result<LoadTestRunOutput, String>>)
        ensures
            self.is_result(r),
    {
        match self.stage {
            LoadTestStage::Finished { outcome, cleaned } => {
                let summary = match outcome {
                    Ok(summary) => summary,
                    Err(error) => MetricsSummary::failure(self.config_summary, error),
                };
                Some(Ok(LoadTestRunOutput { summary, cleanup: cleaned }))
            },
            LoadTestStage::Aborted { error } => Some(Err(error)),
            _ => None,
        }
    }
}

/// Executes configured load tests.
#[derive(Debug)]
pub struct LoadTestExecutor;

/// The RPC that a load test queries: the configured one, else the first that
/// transactions are submitted to.
pub open spec fn queried_rpc(test_config: TestConfig) -> RpcUrl {
    match test_config.query_rpc {
        Some(url) => url,
        None => test_config.primary_submission_rpc->0,
    }
}

/// A load test before anything is done.
pub open spec fn load_test_start(
    test_config: TestConfig,
    options: LoadTestRunOptions,
    display: bool,
) -> LoadTestRun {
    LoadTestRun {
        options,
        display,
        config_summary: test_config.summary,
        stage: LoadTestStage::Connecting {
            url: queried_rpc(test_config),
            configured_chain_id: test_config.chain_id,
        },
    }
}

impl TestConfig {
    /// The configuration names an RPC to query or one to submit to.
    pub open spec fn well_formed(self) -> bool {
        self.query_rpc is Some || self.primary_submission_rpc is Some
    }
}

impl LoadTestExecutor {
    /// Starts a load test from a parsed configuration.
    pub fn run(test_config: TestConfig, options: LoadTestRunOptions) -> (r: LoadTestRun)
        requires
            test_config.well_formed(),
        ensures
            r == load_test_start(test_config, options, false),
    {
        Self::run_with_display(test_config, options, false)
    }

    /// Starts a load test from a parsed configuration, with or without a live
    /// display.
    pub fn run_with_display(
        test_config: TestConfig,
        options: LoadTestRunOptions,
        display: bool,
    ) -> (r: LoadTestRun)
        requires
            test_config.well_formed(),
        ensures
            r == load_test_start(test_config, options, display),
    {
        let url = match test_config.query_rpc {
            Some(url) => url,
            None => test_config.primary_submission_rpc.unwrap(),
        };
        LoadTestRun {
            options,
            display,
            config_summary: test_config.summary,
            stage: LoadTestStage::Connecting { url, configured_chain_id: test_config.chain_id },
        }
    }

    /// Starts txpool clearing, account funding, token setup, and the load loop,
    /// for the chain of the load configuration.
    pub fn run_phases(options: LoadTestRunOptions, chain_id: u64) -> (r: LoadPhases)
        ensures
            r == LoadPhases::start(options, chain_id),
    {
        let stage = if options.clear_txpools {
            PhaseStage::CountingTxpools
        } else {
            PhaseStage::Funding
        };
        LoadPhases { chain_id, stage }
    }

    /// Starts to prepare real-token balances, where real tokens are configured,
    /// else swap-token balances, and then B-20 balances.
    pub fn setup_tokens(real_tokens: bool) -> (r: TokenSetup)
        ensures
            r == TokenSetup::start(real_tokens),
    {
        if real_tokens {
            TokenSetup::SettingReal
        } else {
            TokenSetup::CountingSwap
        }
    }

    /// Starts to burn B-20 balances when needed and to drain native ETH back to
    /// the funder.
    pub fn cleanup() -> (r: CleanupRun)
        ensures
            r == CleanupRun::start(),
    {
        CleanupRun { summary: LoadTestCleanupSummary::default(), stage: CleanupStage::Settling }
    }
}

} // verus!
