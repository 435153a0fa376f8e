//! What the benchmark reads of a completed load test.

use vstd::prelude::*;

verus! {

/// Blocks that a load test touched.
#[derive(Clone, Copy, Debug, PartialEq, Eq, Structural)]
pub struct BlockRange {
    /// First block with a confirmed transaction.
    pub first_block: Option<u64>,
    /// Last block with a confirmed transaction.
    pub last_block: Option<u64>,
    /// Number of blocks in the range.
    pub block_count: u64,
}

/// Load that a load test put on one block.
#[derive(Clone, Copy, Debug, PartialEq, Eq, Structural)]
pub struct BlockLoadMetrics {
    /// Number of the block.
    pub block_number: u64,
    /// Transactions confirmed in the block.
    pub confirmed_count: u64,
    /// Transactions of the block that reverted.
    pub reverted_count: u64,
    /// Gas that the transactions used.
    pub total_gas: u64,
}

/// Summary of a load-test run.
#[derive(Clone, Debug, PartialEq, Eq)]
pub struct MetricsSummary {
    /// Configuration of the run, as the load test renders it.
    pub config: Option<String>,
    /// Why the run failed, if it did.
    pub error: Option<String>,
    /// Blocks that the run touched.
    pub block_range: BlockRange,
    /// Load of each block.
    pub block_load: Vec<BlockLoadMetrics>,
}

impl BlockRange {
    /// The range of a run that touched no block.
    pub open spec fn empty() -> Self {
        BlockRange { first_block: None, last_block: None, block_count: 0 }
    }
}

impl Default for BlockRange {
    fn default() -> (r: Self)
        ensures
            r == BlockRange::empty(),
    {
        BlockRange { first_block: None, last_block: None, block_count: 0 }
    }
}

impl MetricsSummary {
    /// The summary of a run that failed with `error` before it reported
    /// anything: no block was touched.
    pub open spec fn is_failure(self, config: String, error: String) -> bool {
        &&& self.config == Some(config)
        &&& self.error == Some(error)
        &&& self.block_range == BlockRange::empty()
        &&& self.block_load@ == Seq::<BlockLoadMetrics>::empty()
    }

    /// Builds the summary of a run that failed with `error` before it reported
    /// anything.
    pub fn failure(config: String, error: String) -> (r: Self)
        ensures
            r.is_failure(config, error),
    {
        MetricsSummary {
            config: Some(config),
            error: Some(error),
            block_range: BlockRange::default(),
            block_load: Vec::new(),
        }
    }
}

impl MetricsSummary {
    /// The summary says nothing.
    pub open spec fn is_blank(self) -> bool {
        &&& self.config is None
        &&& self.error is None
        &&& self.block_range == BlockRange::empty()
        &&& self.block_load@ == Seq::<BlockLoadMetrics>::empty()
    }
}

impl Default for MetricsSummary {
    fn default() -> (r: Self)
        ensures
            r.is_blank(),
    {
        MetricsSummary {
            config: None,
            error: None,
            block_range: BlockRange::default(),
            block_load: Vec::new(),
        }
    }
}

} // verus!
