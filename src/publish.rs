//! What the HTTP surfaces derive from a verdict.

use vstd::prelude::*;
use crate::store::StatusStore;
use crate::verdict::{HealthVerdict, VerdictView};

verus! {

pub const HTTP_OK: u16 = 200;

pub const HTTP_SERVICE_UNAVAILABLE: u16 = 503;

/// The HTTP status of the health endpoint for a verdict.
pub open spec fn status_code_of(v: VerdictView) -> u16 {
    if v.healthy {
        HTTP_OK
    } else {
        HTTP_SERVICE_UNAVAILABLE
    }
}

/// The HTTP status that the health endpoint answers with.
pub fn health_status_code(verdict: &HealthVerdict) -> (r: u16)
    ensures
        r == status_code_of(verdict@),
        r == 200 || r == 503,
{
    if verdict.healthy {
        HTTP_OK
    } else {
        HTTP_SERVICE_UNAVAILABLE
    }
}

/// Reading the store twice with no publish between gives the same verdict
/// and the same health status: reads change nothing.
pub proof fn lemma_rereading_is_stable(store: StatusStore, first: HealthVerdict, second: HealthVerdict)
    requires
        first@ == store@,
        second@ == store@,
    ensures
        first@ == second@,
        status_code_of(first@) == status_code_of(second@),
{
}

/// The values of the four gauges that mirror a verdict.
#[derive(Clone, Copy, Debug, PartialEq, Eq, Structural)]
pub struct GaugeValues {
    pub healthy: i64,
    pub synced_block: i64,
    pub chain_head: i64,
    pub blocks_behind: i64,
}

/// The gauge values for a verdict; health is 1 or 0.
pub fn gauge_values(verdict: &HealthVerdict) -> (r: GaugeValues)
    ensures
        r.healthy == (if verdict.healthy { 1i64 } else { 0i64 }),
        r.synced_block == verdict.synced_block_height,
        r.chain_head == verdict.chain_head_block_height,
        r.blocks_behind == verdict.blocks_behind,
{
    GaugeValues {
        healthy: if verdict.healthy { 1 } else { 0 },
        synced_block: verdict.synced_block_height,
        chain_head: verdict.chain_head_block_height,
        blocks_behind: verdict.blocks_behind,
    }
}

/// How the dashboard shows the health state: background colour, text colour
/// and label.
#[derive(Clone, Copy, Debug)]
pub struct DashboardBadge {
    pub background: &'static str,
    pub text_color: &'static str,
    pub label: &'static str,
}

/// The badge for a health state: gold with black text when healthy, red
/// with white text when not.
pub fn dashboard_badge(healthy: bool) -> (r: DashboardBadge)
    ensures
        healthy ==> r.background@ == "#c9b16d"@ && r.text_color@ == "#000000"@
            && r.label@ == "Healthy"@,
        !healthy ==> r.background@ == "#c92d2d"@ && r.text_color@ == "#ffffff"@
            && r.label@ == "Unhealthy"@,
{
    if healthy {
        DashboardBadge { background: "#c9b16d", text_color: "#000000", label: "Healthy" }
    } else {
        DashboardBadge { background: "#c92d2d", text_color: "#ffffff", label: "Unhealthy" }
    }
}

} // verus!
