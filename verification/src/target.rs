//! Selection of the blocks to prove.

use crate::config::ZkBenchMode;
use crate::error::ZkBenchError;
use crate::metrics::{BlockLoadMetrics, BlockRange, MetricsSummary};
use crate::text;
use vstd::prelude::*;

verus! {

/// Inclusive L2 block range selected for proof.
#[derive(Clone, Debug, PartialEq, Eq)]
pub struct ZkBenchTargetRange {
    /// First L2 block selected for proof.
    pub first_block: u64,
    /// Last L2 block selected for proof.
    pub last_block: u64,
    /// Human-readable selection reason.
    pub reason: String,
}

impl ZkBenchTargetRange {
    /// The range holds at least one block.
    pub open spec fn well_formed(self) -> bool {
        self.first_block <= self.last_block
    }

    /// The proof target range, or why there is none.
    pub open spec fn made(first_block: u64, last_block: u64, reason: String) -> Result<
        Self,
        ZkBenchError,
    > {
        if first_block <= last_block {
            Ok(ZkBenchTargetRange { first_block, last_block, reason })
        } else {
            Err(ZkBenchError::InvalidTargetRange { first_block, last_block })
        }
    }

    /// Builds a proof target range.
    pub fn new(first_block: u64, last_block: u64, reason: String) -> (r: Result<
        Self,
        ZkBenchError,
    >)
        ensures
            r == Self::made(first_block, last_block, reason),
    {
        if last_block >= first_block {
            Ok(ZkBenchTargetRange { first_block, last_block, reason })
        } else {
            Err(ZkBenchError::InvalidTargetRange { first_block, last_block })
        }
    }
}

/// `a` is fuller than `b`: it used more gas, or as much gas with more
/// transactions, or as much of both under a lower block number.
pub open spec fn fuller(a: BlockLoadMetrics, b: BlockLoadMetrics) -> bool {
    ||| a.total_gas > b.total_gas
    ||| a.total_gas == b.total_gas && a.confirmed_count > b.confirmed_count
    ||| a.total_gas == b.total_gas && a.confirmed_count == b.confirmed_count && a.block_number
        < b.block_number
}

/// `blocks[i]` is the fullest block: none is fuller, and of equally full ones
/// it is the last.
pub open spec fn is_fullest(blocks: Seq<BlockLoadMetrics>, i: int) -> bool {
    &&& 0 <= i < blocks.len()
    &&& forall|j: int| 0 <= j < i ==> !fuller(#[trigger] blocks[j], blocks[i])
    &&& forall|j: int| i < j < blocks.len() ==> fuller(blocks[i], #[trigger] blocks[j])
}

/// The proof target that a block range makes, or why it makes none.
pub open spec fn target_of_range(range: BlockRange, reason: String) -> Result<
    ZkBenchTargetRange,
    ZkBenchError,
> {
    match (range.first_block, range.last_block) {
        (None, _) => Err(ZkBenchError::NoFirstBlock),
        (Some(_), None) => Err(ZkBenchError::NoLastBlock),
        (Some(first_block), Some(last_block)) => {
            ZkBenchTargetRange::made(first_block, last_block, reason)
        },
    }
}

/// Runs ZK proof benchmarks for completed load-test summaries.
#[derive(Debug)]
pub struct ZkBenchRunner;

impl ZkBenchRunner {
    /// Selects the proof target from a completed load-test summary.
    pub fn select_proof_target(summary: &MetricsSummary, mode: ZkBenchMode) -> (r: Result<
        ZkBenchTargetRange,
        ZkBenchError,
    >)
        ensures
            is_selected(*summary, mode, r),
    {
        match mode {
            ZkBenchMode::DryRun => {
                Self::target_from_block_range(
                    &summary.block_range,
                    "full load-test range".to_string(),
                )
            },
            ZkBenchMode::Cluster => {
                match Self::select_fullest_block(summary.block_load.as_slice()) {
                    Ok(block) => {
                        let mut reason = "fullest block by gas: gas=".to_string();
                        text::push_u64(&mut reason, block.total_gas);
                        reason.append(", txs=");
                        text::push_u64(&mut reason, block.confirmed_count);
                        ZkBenchTargetRange::new(block.block_number, block.block_number, reason)
                    },
                    Err(error) => Err(error),
                }
            },
        }
    }

    /// Converts a load-test block range into a proof target.
    pub fn target_from_block_range(range: &BlockRange, reason: String) -> (r: Result<
        ZkBenchTargetRange,
        ZkBenchError,
    >)
        ensures
            r == target_of_range(*range, reason),
    {
        let first_block = match range.first_block {
            Some(first_block) => first_block,
            None => return Err(ZkBenchError::NoFirstBlock),
        };
        let last_block = match range.last_block {
            Some(last_block) => last_block,
            None => return Err(ZkBenchError::NoLastBlock),
        };
        ZkBenchTargetRange::new(first_block, last_block, reason)
    }

    /// Selects the fullest block by gas, then transaction count, then lowest
    /// block number.
    pub fn select_fullest_block(blocks: &[BlockLoadMetrics]) -> (r: Result<
        BlockLoadMetrics,
        ZkBenchError,
    >)
        ensures
            match r {
                Ok(block) => exists|i: int| #[trigger]
                    is_fullest(blocks@, i) && block == blocks@[i],
                Err(error) => error == ZkBenchError::EmptyLoadTest && blocks@.len() == 0,
            },
    {
        if blocks.len() == 0 {
            return Err(ZkBenchError::EmptyLoadTest);
        }
        let mut best: usize = 0;
        let mut next: usize = 1;
        while next < blocks.len()
            invariant
                best < next <= blocks@.len(),
                is_fullest(blocks@.take(next as int), best as int),
            decreases blocks@.len() - next,
        {
            let ghost seen = blocks@.take(next as int);
            let ghost more = blocks@.take(next as int + 1);
            let keep = is_fuller(&blocks[best], &blocks[next]);
            assert(forall|j: int| 0 <= j < next ==> #[trigger] more[j] == seen[j]);
            assert(more[next as int] == blocks@[next as int]);
            if !keep {
                best = next;
            }
            next = next + 1;
        }
        assert(blocks@.take(next as int) =~= blocks@);
        Ok(blocks[best])
    }
}

/// Compares two blocks: see `fuller`.
fn is_fuller(a: &BlockLoadMetrics, b: &BlockLoadMetrics) -> (r: bool)
    ensures
        r == fuller(*a, *b),
{
    if a.total_gas != b.total_gas {
        a.total_gas > b.total_gas
    } else if a.confirmed_count != b.confirmed_count {
        a.confirmed_count > b.confirmed_count
    } else {
        a.block_number < b.block_number
    }
}

/// `r` is the proof target that `mode` selects from `summary`. A dry run takes
/// the whole range of the load test; the cluster takes the fullest block.
pub open spec fn is_selected(
    summary: MetricsSummary,
    mode: ZkBenchMode,
    r: Result<ZkBenchTargetRange, ZkBenchError>,
) -> bool {
    match mode {
        ZkBenchMode::DryRun => match (
            summary.block_range.first_block,
            summary.block_range.last_block,
        ) {
            (None, _) => r == Err::<ZkBenchTargetRange, _>(ZkBenchError::NoFirstBlock),
            (Some(_), None) => r == Err::<ZkBenchTargetRange, _>(ZkBenchError::NoLastBlock),
            (Some(first_block), Some(last_block)) => if first_block <= last_block {
                &&& r is Ok
                &&& r->Ok_0.first_block == first_block
                &&& r->Ok_0.last_block == last_block
                &&& r->Ok_0.reason@ == "full load-test range"@
            } else {
                r == Err::<ZkBenchTargetRange, _>(
                    ZkBenchError::InvalidTargetRange { first_block, last_block },
                )
            },
        },
        ZkBenchMode::Cluster => if summary.block_load@.len() == 0 {
            r == Err::<ZkBenchTargetRange, _>(ZkBenchError::EmptyLoadTest)
        } else {
            exists|i: int| #[trigger]
                is_fullest(summary.block_load@, i) && is_single_block(summary.block_load@[i], r)
        },
    }
}

/// `r` is the target that consists of `block` alone.
pub open spec fn is_single_block(
    block: BlockLoadMetrics,
    r: Result<ZkBenchTargetRange, ZkBenchError>,
) -> bool {
    &&& r is Ok
    &&& r->Ok_0.first_block == block.block_number
    &&& r->Ok_0.last_block == block.block_number
    &&& r->Ok_0.reason@ == "fullest block by gas: gas="@ + text::decimal(block.total_gas as nat)
        + ", txs="@ + text::decimal(block.confirmed_count as nat)
}

} // verus!
