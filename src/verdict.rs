//! The health verdict and the rule that decides it.

use vstd::prelude::*;

verus! {

/// Largest lag, in blocks, at which an indexer without errors is healthy.
pub const MAX_BLOCKS_BEHIND: i64 = 20;

/// What the indexer reports about itself.
#[derive(Clone, Copy, Debug, PartialEq, Eq, Structural)]
pub struct IndexingStatus {
    pub synced_block: i64,
    pub has_indexing_errors: bool,
}

/// The newest block that the chain's RPC endpoint knows of.
#[derive(Clone, Copy, Debug, PartialEq, Eq, Structural)]
pub struct ChainHead {
    pub block_height: i64,
}

/// Why an upstream query gave no usable answer.
#[derive(Clone, Copy, Debug, PartialEq, Eq, Structural)]
pub enum FetchError {
    /// The request could not be sent or no response came back.
    Transport,
    /// The response had a failure status or an unexpected shape.
    Protocol,
    /// The chain head was not a well-formed hexadecimal number.
    Decode,
}

/// The published outcome of one poll cycle.
#[derive(Debug)]
pub struct HealthVerdict {
    pub healthy: bool,
    pub synced_block_height: i64,
    pub chain_head_block_height: i64,
    pub blocks_behind: i64,
    pub last_checked: String,
}

/// The mathematical value of a [`HealthVerdict`].
pub struct VerdictView {
    pub healthy: bool,
    pub synced_block_height: int,
    pub chain_head_block_height: int,
    pub blocks_behind: int,
    pub last_checked: Seq<char>,
}

impl View for HealthVerdict {
    type V = VerdictView;

    open spec fn view(&self) -> VerdictView {
        VerdictView {
            healthy: self.healthy,
            synced_block_height: self.synced_block_height as int,
            chain_head_block_height: self.chain_head_block_height as int,
            blocks_behind: self.blocks_behind as int,
            last_checked: self.last_checked@,
        }
    }
}

impl Clone for HealthVerdict {
    fn clone(&self) -> (r: Self)
        ensures
            r@ == self@,
    {
        HealthVerdict {
            healthy: self.healthy,
            synced_block_height: self.synced_block_height,
            chain_head_block_height: self.chain_head_block_height,
            blocks_behind: self.blocks_behind,
            last_checked: self.last_checked.clone(),
        }
    }
}

/// The verdict held before any cycle has run.
pub open spec fn initial_verdict() -> VerdictView {
    VerdictView {
        healthy: false,
        synced_block_height: 0,
        chain_head_block_height: 0,
        blocks_behind: 0,
        last_checked: Seq::empty(),
    }
}

/// A lag that the indexer may have and still be healthy.
pub open spec fn within_threshold(blocks_behind: int) -> bool {
    blocks_behind <= MAX_BLOCKS_BEHIND
}

/// The verdict of a cycle whose indexing-status query failed: unhealthy,
/// with every block number left at zero.
pub open spec fn unreachable_verdict(last_checked: Seq<char>) -> VerdictView {
    VerdictView {
        healthy: false,
        synced_block_height: 0,
        chain_head_block_height: 0,
        blocks_behind: 0,
        last_checked,
    }
}

/// A lag clamped to the range of `i64`.
pub open spec fn saturated(lag: int) -> int {
    if lag > i64::MAX {
        i64::MAX as int
    } else if lag < i64::MIN {
        i64::MIN as int
    } else {
        lag
    }
}

/// The verdict of a cycle, from what its two queries returned. The chain head
/// matters only where the indexing status was obtained.
pub open spec fn verdict_of(
    indexing: Result<IndexingStatus, FetchError>,
    chain_head: Result<ChainHead, FetchError>,
    last_checked: Seq<char>,
) -> VerdictView {
    match indexing {
        Err(_) => unreachable_verdict(last_checked),
        Ok(status) => match chain_head {
            Ok(head) => {
                let lag = head.block_height - status.synced_block;
                VerdictView {
                    healthy: !status.has_indexing_errors && within_threshold(lag),
                    synced_block_height: status.synced_block as int,
                    chain_head_block_height: head.block_height as int,
                    blocks_behind: saturated(lag),
                    last_checked,
                }
            },
            Err(_) => VerdictView {
                healthy: !status.has_indexing_errors,
                synced_block_height: status.synced_block as int,
                chain_head_block_height: 0,
                blocks_behind: 0,
                last_checked,
            },
        },
    }
}

/// An indexer that reports indexing errors is unhealthy, whatever the chain
/// head and however small the lag.
pub proof fn lemma_indexing_errors_are_unhealthy(
    status: IndexingStatus,
    chain_head: Result<ChainHead, FetchError>,
    last_checked: Seq<char>,
)
    requires
        status.has_indexing_errors,
    ensures
        !verdict_of(Ok(status), chain_head, last_checked).healthy,
{
}

/// Both queries succeeded and the lag between them is an `i64`.
pub open spec fn lag_fits(
    indexing: Result<IndexingStatus, FetchError>,
    chain_head: Result<ChainHead, FetchError>,
) -> bool {
    match (indexing, chain_head) {
        (Ok(status), Ok(head)) => i64::MIN <= head.block_height - status.synced_block
            <= i64::MAX,
        _ => true,
    }
}

/// Folds the results of one cycle's two queries into a verdict. Health is
/// judged on the exact lag; a lag beyond the range of `i64` is published
/// clamped to it.
pub fn evaluate(
    indexing: &Result<IndexingStatus, FetchError>,
    chain_head: &Result<ChainHead, FetchError>,
    last_checked: String,
) -> (r: HealthVerdict)
    ensures
        r@ == verdict_of(*indexing, *chain_head, last_checked@),
        indexing is Err ==> !r.healthy && r.synced_block_height == 0
            && r.chain_head_block_height == 0 && r.blocks_behind == 0,
        (*indexing matches Ok(s) && s.has_indexing_errors) ==> !r.healthy,
        (*indexing matches Ok(s) && !s.has_indexing_errors && chain_head is Ok) ==> {
            &&& lag_fits(*indexing, *chain_head) ==> r.blocks_behind
                == r.chain_head_block_height - r.synced_block_height
            &&& r.healthy == (r.blocks_behind <= MAX_BLOCKS_BEHIND)
        },
        (*indexing matches Ok(s) && !s.has_indexing_errors && chain_head is Err) ==> r.healthy,
{
    match indexing {
        Err(_) => HealthVerdict {
            healthy: false,
            synced_block_height: 0,
            chain_head_block_height: 0,
            blocks_behind: 0,
            last_checked,
        },
        Ok(status) => match chain_head {
            Ok(head) => {
                let lag: i128 = head.block_height as i128 - status.synced_block as i128;
                let behind: i64 = if lag > i64::MAX as i128 {
                    i64::MAX
                } else if lag < i64::MIN as i128 {
                    i64::MIN
                } else {
                    lag as i64
                };
                HealthVerdict {
                    healthy: !status.has_indexing_errors && lag <= MAX_BLOCKS_BEHIND as i128,
                    synced_block_height: status.synced_block,
                    chain_head_block_height: head.block_height,
                    blocks_behind: behind,
                    last_checked,
                }
            },
            Err(_) => HealthVerdict {
                healthy: !status.has_indexing_errors,
                synced_block_height: status.synced_block,
                chain_head_block_height: 0,
                blocks_behind: 0,
                last_checked,
            },
        },
    }
}

} // verus!
