//! The single slot that holds the latest verdict.

use vstd::prelude::*;
use crate::verdict::{initial_verdict, HealthVerdict, VerdictView};

verus! {

/// Holds the most recent verdict. A publish replaces the whole verdict, and a
/// read hands out a copy, so a reader sees one cycle's verdict entire.
pub struct StatusStore {
    current: HealthVerdict,
}

impl View for StatusStore {
    type V = VerdictView;

    closed spec fn view(&self) -> VerdictView {
        self.current@
    }
}

impl StatusStore {
    /// A store holding the unhealthy, all-zero verdict with no timestamp.
    pub fn new() -> (r: StatusStore)
        ensures
            r@ == initial_verdict(),
    {
        StatusStore {
            current: HealthVerdict {
                healthy: false,
                synced_block_height: 0,
                chain_head_block_height: 0,
                blocks_behind: 0,
                last_checked: String::new(),
            },
        }
    }

    /// Replaces the held verdict.
    pub fn publish(&mut self, verdict: HealthVerdict)
        ensures
            final(self)@ == verdict@,
    {
        self.current = verdict;
    }

    /// A copy of the held verdict.
    pub fn snapshot(&self) -> (r: HealthVerdict)
        ensures
            r@ == self@,
    {
        self.current.clone()
    }
}

} // verus!
