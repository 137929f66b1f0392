//! The steps of one poll cycle.
//!
//! A cycle captures its timestamp first, then asks for the indexing status.
//! Only if that query succeeds does it ask for the chain head; then it
//! settles the verdict. The caller performs each query and hands back what it
//! returned, so no step waits on the network.

use vstd::prelude::*;
use crate::clock::{now_rfc3339, utc_rfc3339_shaped};
use crate::verdict::{
    evaluate, unreachable_verdict, verdict_of, ChainHead, FetchError, HealthVerdict,
    IndexingStatus,
};

verus! {

/// A cycle waiting for the indexing status.
pub struct PollCycle {
    pub last_checked: String,
}

/// A cycle whose indexing status arrived, waiting for the chain head.
pub struct ChainHeadPending {
    pub last_checked: String,
    pub status: IndexingStatus,
}

/// What a cycle asks for after its indexing status is known.
pub enum CycleStep {
    /// Query the chain head, then call [`ChainHeadPending::on_chain_head`].
    FetchChainHead(ChainHeadPending),
    /// The cycle is over: publish this verdict.
    Publish(HealthVerdict),
}

impl PollCycle {
    /// Starts a cycle stamped with the current UTC time; `None` when the
    /// system clock cannot be read as such.
    pub fn begin() -> (r: Option<PollCycle>)
        ensures
            r matches Some(c) ==> utc_rfc3339_shaped(c.last_checked@),
    {
        match now_rfc3339() {
            Some(last_checked) => Some(PollCycle { last_checked }),
            None => None,
        }
    }

    /// Starts a cycle stamped with the given time.
    pub fn starting_at(last_checked: String) -> (r: PollCycle)
        ensures
            r.last_checked@ == last_checked@,
    {
        PollCycle { last_checked }
    }

    /// Takes the result of the indexing-status query. A failure ends the
    /// cycle at once, without a chain-head query.
    pub fn on_indexing_status(self, result: Result<IndexingStatus, FetchError>) -> (r: CycleStep)
        ensures
            result matches Ok(status) ==> (r matches CycleStep::FetchChainHead(p)
                && p.status == status && p.last_checked@ == self.last_checked@),
            result is Err ==> (r matches CycleStep::Publish(v)
                && v@ == unreachable_verdict(self.last_checked@)),
    {
        match result {
            Ok(status) => CycleStep::FetchChainHead(
                ChainHeadPending { last_checked: self.last_checked, status },
            ),
            Err(_) => CycleStep::Publish(
                HealthVerdict {
                    healthy: false,
                    synced_block_height: 0,
                    chain_head_block_height: 0,
                    blocks_behind: 0,
                    last_checked: self.last_checked,
                },
            ),
        }
    }
}

impl ChainHeadPending {
    /// Takes the result of the chain-head query and settles the verdict.
    pub fn on_chain_head(self, result: Result<ChainHead, FetchError>) -> (r: HealthVerdict)
        ensures
            r@ == verdict_of(Ok(self.status), result, self.last_checked@),
            self.status.has_indexing_errors ==> !r.healthy,
    {
        evaluate(&Ok(self.status), &result, self.last_checked)
    }
}

} // verus!
