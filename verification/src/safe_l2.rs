//! Waiting for a workload block to become safe.

use crate::error::ZkBenchError;
use crate::service::{BenchAction, BenchEvent};
use crate::target::ZkBenchRunner;
use vstd::prelude::*;

verus! {

/// Where the wait for a safe block stands.
#[derive(Debug, PartialEq, Eq)]
pub enum SafeL2Stage {
    /// The sync status is asked for.
    Syncing,
    /// The block was not safe; the next question waits.
    Pausing,
    /// The block is safe under the L1 head; its output is asked for.
    CheckingOutput { l1_head: [u8; 32] },
    /// The block is safe and its output is there.
    Safe { l1_head: [u8; 32] },
    /// The wait ended without the block becoming safe.
    Failed { error: ZkBenchError },
}

/// Waits for a workload block to become safe.
#[derive(Debug, PartialEq, Eq)]
pub struct SafeL2Wait {
    /// Block to wait for.
    pub block_number: u64,
    /// Nanoseconds that the wait may take.
    pub wait_timeout_nanos: u128,
    /// Nanoseconds between two questions.
    pub poll_interval_nanos: u128,
    /// Where the wait stands.
    pub stage: SafeL2Stage,
}

impl SafeL2Stage {
    /// The wait goes on.
    pub open spec fn waiting(self) -> bool {
        self is Syncing || self is Pausing || self is CheckingOutput
    }

    /// Where a wait for `block_number` stands after `event`. An event that does
    /// not answer the pending action changes nothing.
    pub open spec fn next(self, block_number: u64, event: BenchEvent) -> SafeL2Stage {
        match (self, event) {
            (SafeL2Stage::Syncing, BenchEvent::Synced { safe_l2, head_l1 }) => {
                if safe_l2 >= block_number {
                    SafeL2Stage::CheckingOutput { l1_head: head_l1 }
                } else {
                    SafeL2Stage::Pausing
                }
            },
            (SafeL2Stage::Pausing, BenchEvent::PauseOver) => SafeL2Stage::Syncing,
            (SafeL2Stage::CheckingOutput { l1_head }, BenchEvent::OutputFound) => {
                SafeL2Stage::Safe { l1_head }
            },
            (SafeL2Stage::Syncing, BenchEvent::Failed { cause })
            | (SafeL2Stage::CheckingOutput { .. }, BenchEvent::Failed { cause }) => {
                SafeL2Stage::Failed { error: ZkBenchError::Rollup { cause } }
            },
            (stage, BenchEvent::TimedOut { cause }) => if stage.waiting() {
                SafeL2Stage::Failed { error: ZkBenchError::SafeL2Timeout { cause } }
            } else {
                stage
            },
            (stage, _) => stage,
        }
    }
}

impl SafeL2Wait {
    /// The wait after `event`.
    pub open spec fn next(self, event: BenchEvent) -> SafeL2Wait {
        SafeL2Wait { stage: self.stage.next(self.block_number, event), ..self }
    }

    /// The wait after all of `events`.
    pub open spec fn after(self, events: Seq<BenchEvent>) -> SafeL2Wait
        decreases events.len(),
    {
        if events.len() == 0 {
            self
        } else {
            self.after(events.drop_last()).next(events.last())
        }
    }

    /// What the wait needs done.
    pub open spec fn pending(self) -> BenchAction {
        match self.stage {
            SafeL2Stage::Syncing => BenchAction::QuerySyncStatus,
            SafeL2Stage::Pausing => BenchAction::Pause { nanos: self.poll_interval_nanos },
            SafeL2Stage::CheckingOutput { .. } => {
                BenchAction::QueryOutput { block_number: self.block_number }
            },
            _ => BenchAction::Finish,
        }
    }

    /// Moves the wait on. An event that does not answer the pending action
    /// changes nothing.
    pub fn on(self, event: BenchEvent) -> (r: SafeL2Wait)
        ensures
            r == self.next(event),
    {
        let block_number = self.block_number;
        let stage = match (self.stage, event) {
            (SafeL2Stage::Syncing, BenchEvent::Synced { safe_l2, head_l1 }) => {
                if safe_l2 >= block_number {
                    SafeL2Stage::CheckingOutput { l1_head: head_l1 }
                } else {
                    SafeL2Stage::Pausing
                }
            },
            (SafeL2Stage::Pausing, BenchEvent::PauseOver) => SafeL2Stage::Syncing,
            (SafeL2Stage::CheckingOutput { l1_head }, BenchEvent::OutputFound) => {
                SafeL2Stage::Safe { l1_head }
            },
            (SafeL2Stage::Syncing, BenchEvent::Failed { cause })
            | (SafeL2Stage::CheckingOutput { .. }, BenchEvent::Failed { cause }) => {
                SafeL2Stage::Failed { error: ZkBenchError::Rollup { cause } }
            },
            (SafeL2Stage::Syncing, BenchEvent::TimedOut { cause })
            | (SafeL2Stage::Pausing, BenchEvent::TimedOut { cause })
            | (SafeL2Stage::CheckingOutput { .. }, BenchEvent::TimedOut { cause }) => {
                SafeL2Stage::Failed { error: ZkBenchError::SafeL2Timeout { cause } }
            },
            (stage, _) => stage,
        };
        SafeL2Wait {
            block_number,
            wait_timeout_nanos: self.wait_timeout_nanos,
            poll_interval_nanos: self.poll_interval_nanos,
            stage,
        }
    }

    /// What the wait needs done.
    pub fn action(&self) -> (r: BenchAction)
        ensures
            r == self.pending(),
    {
        match &self.stage {
            SafeL2Stage::Syncing => BenchAction::QuerySyncStatus,
            SafeL2Stage::Pausing => BenchAction::Pause { nanos: self.poll_interval_nanos },
            SafeL2Stage::CheckingOutput { .. } => {
                BenchAction::QueryOutput { block_number: self.block_number }
            },
            _ => BenchAction::Finish,
        }
    }

    /// Nanoseconds that the wait may take in all, while it goes on.
    pub open spec fn limit(self) -> Option<u128> {
        if self.stage.waiting() {
            Some(self.wait_timeout_nanos)
        } else {
            None
        }
    }

    /// Nanoseconds that the wait may take in all, while it goes on.
    pub fn budget(&self) -> (r: Option<u128>)
        ensures
            r == self.limit(),
    {
        match &self.stage {
            SafeL2Stage::Safe { .. } | SafeL2Stage::Failed { .. } => None,
            _ => Some(self.wait_timeout_nanos),
        }
    }
}

/// The wait for a block before anything is asked.
pub open spec fn wait_start(
    block_number: u64,
    wait_timeout_nanos: u128,
    poll_interval_nanos: u128,
) -> SafeL2Wait {
    SafeL2Wait {
        block_number,
        wait_timeout_nanos,
        poll_interval_nanos,
        stage: SafeL2Stage::Syncing,
    }
}

impl ZkBenchRunner {
    /// Starts to wait for a workload block to become safe. The wait ends with
    /// the L1 head.
    pub fn wait_for_safe_l2(
        block_number: u64,
        wait_timeout_nanos: u128,
        poll_interval_nanos: u128,
    ) -> (r: SafeL2Wait)
        ensures
            r == wait_start(block_number, wait_timeout_nanos, poll_interval_nanos),
    {
        SafeL2Wait {
            block_number,
            wait_timeout_nanos,
            poll_interval_nanos,
            stage: SafeL2Stage::Syncing,
        }
    }
}

} // verus!
