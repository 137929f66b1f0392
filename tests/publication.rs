use subgraph_monitor::publish::{dashboard_badge, gauge_values, health_status_code, GaugeValues};
use subgraph_monitor::store::StatusStore;
use subgraph_monitor::verdict::HealthVerdict;

fn verdict(healthy: bool, synced: i64, head: i64) -> HealthVerdict {
    HealthVerdict {
        healthy,
        synced_block_height: synced,
        chain_head_block_height: head,
        blocks_behind: head - synced,
        last_checked: "2024-06-01T12:00:00+00:00".to_string(),
    }
}

#[test]
fn new_store_holds_unhealthy_zero_verdict() {
    let store = StatusStore::new();
    let v = store.snapshot();
    assert!(!v.healthy);
    assert_eq!(v.synced_block_height, 0);
    assert_eq!(v.chain_head_block_height, 0);
    assert_eq!(v.blocks_behind, 0);
    assert_eq!(v.last_checked, "");
    assert_eq!(health_status_code(&v), 503);
}

#[test]
fn publish_replaces_the_whole_verdict() {
    let mut store = StatusStore::new();
    store.publish(verdict(true, 100, 104));
    let v = store.snapshot();
    assert!(v.healthy);
    assert_eq!(v.synced_block_height, 100);
    assert_eq!(v.chain_head_block_height, 104);
    assert_eq!(v.blocks_behind, 4);
    assert_eq!(v.last_checked, "2024-06-01T12:00:00+00:00");
    store.publish(verdict(false, 5, 50));
    let w = store.snapshot();
    assert!(!w.healthy);
    assert_eq!(w.synced_block_height, 5);
    assert_eq!(w.blocks_behind, 45);
}

#[test]
fn rereading_without_a_cycle_is_identical() {
    let mut store = StatusStore::new();
    store.publish(verdict(true, 100, 100));
    let a = store.snapshot();
    let b = store.snapshot();
    assert_eq!(format!("{:?}", a), format!("{:?}", b));
    assert_eq!(health_status_code(&a), health_status_code(&b));
    assert_eq!(health_status_code(&a), 200);
}

#[test]
fn gauges_mirror_the_verdict() {
    let g = gauge_values(&verdict(true, 10, 25));
    assert_eq!(g, GaugeValues { healthy: 1, synced_block: 10, chain_head: 25, blocks_behind: 15 });
    let h = gauge_values(&verdict(false, 10, 100));
    assert_eq!(h, GaugeValues { healthy: 0, synced_block: 10, chain_head: 100, blocks_behind: 90 });
}

#[test]
fn badge_follows_health() {
    let up = dashboard_badge(true);
    assert_eq!((up.background, up.text_color, up.label), ("#c9b16d", "#000000", "Healthy"));
    let down = dashboard_badge(false);
    assert_eq!((down.background, down.text_color, down.label), ("#c92d2d", "#ffffff", "Unhealthy"));
}

#[test]
fn clone_copies_every_field() {
    let v = verdict(true, 3, 9);
    let c = v.clone();
    assert_eq!(format!("{:?}", v), format!("{:?}", c));
}
