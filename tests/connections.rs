use walreceiver::{Action, ActiveSource, ConnectionManager, SafekeeperInfo, SelectionPolicy, TimelineSnapshot};

fn snap(reports: &[(u64, u64)]) -> TimelineSnapshot {
    let mut s = TimelineSnapshot::new();
    for &(node_id, lsn) in reports {
        s.record(SafekeeperInfo { node_id, confirmed_flush_lsn: lsn, reported_at: 0 });
    }
    s
}

const A: u64 = 1;
const B: u64 = 2;
const TENANT: u128 = 0xabcd;
const TL: u128 = 0x1234;

fn manager(margin: u64, cooldown: u64) -> ConnectionManager {
    ConnectionManager::new(SelectionPolicy { hysteresis_margin: margin, cooldown })
}

#[test]
fn attach_starts_watcher_once() {
    let mut m = manager(10, 0);
    assert_eq!(m.attach(TENANT, TL), vec![Action::StartWatcher { tenant: TENANT, timeline: TL }]);
    assert!(m.is_attached(TL));
    assert_eq!(m.attach(TENANT, TL), vec![]);
    assert_eq!(m.active_source(TL), None);
}

#[test]
fn new_timeline_streams_from_most_advanced() {
    let mut m = manager(10, 0);
    m.attach(TENANT, TL);
    let acts = m.on_broker_update(TL, &snap(&[(A, 100), (B, 90)]), 7);
    assert_eq!(acts, vec![Action::StartStream { tenant: TENANT, timeline: TL, node_id: A }]);
    assert_eq!(m.active_source(TL), Some(ActiveSource { node_id: A, connected_since: 7 }));
}

#[test]
fn small_lead_keeps_stream() {
    let mut m = manager(10, 0);
    m.attach(TENANT, TL);
    m.on_broker_update(TL, &snap(&[(A, 100)]), 0);
    let acts = m.on_broker_update(TL, &snap(&[(A, 105), (B, 108)]), 10);
    assert_eq!(acts, vec![]);
    assert_eq!(m.active_source(TL).map(|s| s.node_id), Some(A));
}

#[test]
fn large_lead_stops_old_before_new() {
    let mut m = manager(10, 0);
    m.attach(TENANT, TL);
    m.on_broker_update(TL, &snap(&[(A, 100)]), 0);
    let acts = m.on_broker_update(TL, &snap(&[(A, 100), (B, 200)]), 10);
    assert_eq!(
        acts,
        vec![
            Action::StopStream { timeline: TL, node_id: A },
            Action::StartStream { tenant: TENANT, timeline: TL, node_id: B },
        ]
    );
    assert_eq!(m.active_source(TL), Some(ActiveSource { node_id: B, connected_since: 10 }));
}

#[test]
fn detach_after_switch_stops_new_stream_and_watcher() {
    let mut m = manager(10, 0);
    m.attach(TENANT, TL);
    m.on_broker_update(TL, &snap(&[(A, 100)]), 0);
    m.on_broker_update(TL, &snap(&[(A, 100), (B, 200)]), 10);
    let acts = m.detach(TL);
    assert_eq!(
        acts,
        vec![Action::StopStream { timeline: TL, node_id: B }, Action::StopWatcher { timeline: TL }]
    );
    assert!(!m.is_attached(TL));
    assert_eq!(m.detach(TL), vec![]);
    assert_eq!(m.on_broker_update(TL, &snap(&[(A, 300)]), 20), vec![]);
}

#[test]
fn detach_without_stream_stops_watcher() {
    let mut m = manager(10, 0);
    m.attach(TENANT, TL);
    assert_eq!(m.detach(TL), vec![Action::StopWatcher { timeline: TL }]);
}

#[test]
fn empty_snapshot_stops_stream_but_stays_attached() {
    let mut m = manager(10, 0);
    m.attach(TENANT, TL);
    m.on_broker_update(TL, &snap(&[(A, 100)]), 0);
    let acts = m.on_broker_update(TL, &snap(&[]), 5);
    assert_eq!(acts, vec![Action::StopStream { timeline: TL, node_id: A }]);
    assert!(m.is_attached(TL));
    assert_eq!(m.active_source(TL), None);
    let acts = m.on_broker_update(TL, &snap(&[(B, 50)]), 6);
    assert_eq!(acts, vec![Action::StartStream { tenant: TENANT, timeline: TL, node_id: B }]);
}

#[test]
fn ended_stream_is_reselected_on_next_report() {
    let mut m = manager(10, 0);
    m.attach(TENANT, TL);
    m.on_broker_update(TL, &snap(&[(A, 100)]), 0);
    assert_eq!(m.on_stream_ended(TL, B), vec![]);
    assert_eq!(m.active_source(TL).map(|s| s.node_id), Some(A));
    assert_eq!(m.on_stream_ended(TL, A), vec![Action::StopStream { timeline: TL, node_id: A }]);
    assert_eq!(m.active_source(TL), None);
    let acts = m.on_broker_update(TL, &snap(&[(A, 100)]), 3);
    assert_eq!(acts, vec![Action::StartStream { tenant: TENANT, timeline: TL, node_id: A }]);
}

#[test]
fn timelines_are_independent() {
    let mut m = manager(10, 0);
    m.attach(TENANT, 1);
    m.attach(TENANT, 2);
    m.on_broker_update(1, &snap(&[(A, 100)]), 0);
    m.on_broker_update(2, &snap(&[(B, 100)]), 0);
    m.detach(1);
    assert_eq!(m.active_source(2).map(|s| s.node_id), Some(B));
    assert_eq!(m.active_source(1), None);
}
