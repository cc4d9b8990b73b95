use walreceiver::{ActiveSource, Decision, SafekeeperInfo, SelectionPolicy, TimelineSnapshot, select};

fn snap(reports: &[(u64, u64)]) -> TimelineSnapshot {
    let mut s = TimelineSnapshot::new();
    for &(node_id, lsn) in reports {
        s.record(SafekeeperInfo { node_id, confirmed_flush_lsn: lsn, reported_at: 0 });
    }
    s
}

const A: u64 = 1;
const B: u64 = 2;

fn policy(margin: u64, cooldown: u64) -> SelectionPolicy {
    SelectionPolicy { hysteresis_margin: margin, cooldown }
}

fn at(node_id: u64, since: u64) -> Option<ActiveSource> {
    Some(ActiveSource { node_id, connected_since: since })
}

#[test]
fn no_current_picks_most_advanced() {
    let d = select(None, &snap(&[(A, 100), (B, 90)]), &policy(10, 0), 0);
    assert_eq!(d, Decision::SwitchTo(A));
}

#[test]
fn equal_progress_picks_smallest_id() {
    let d = select(None, &snap(&[(5, 100), (3, 100), (9, 100)]), &policy(0, 0), 0);
    assert_eq!(d, Decision::SwitchTo(3));
}

#[test]
fn small_lead_keeps_current() {
    let d = select(at(A, 0), &snap(&[(A, 105), (B, 108)]), &policy(10, 0), 1000);
    assert_eq!(d, Decision::Keep);
}

#[test]
fn large_lead_switches() {
    let d = select(at(A, 0), &snap(&[(A, 100), (B, 200)]), &policy(10, 0), 1000);
    assert_eq!(d, Decision::SwitchTo(B));
}

#[test]
fn lead_equal_to_margin_keeps_current() {
    let p = policy(10, 0);
    assert_eq!(select(at(A, 0), &snap(&[(A, 100), (B, 110)]), &p, 5), Decision::Keep);
    assert_eq!(select(at(A, 0), &snap(&[(A, 100), (B, 111)]), &p, 5), Decision::SwitchTo(B));
}

#[test]
fn cooldown_delays_switch() {
    let p = policy(10, 100);
    let s = snap(&[(A, 100), (B, 200)]);
    assert_eq!(select(at(A, 50), &s, &p, 100), Decision::Keep);
    assert_eq!(select(at(A, 50), &s, &p, 149), Decision::Keep);
    assert_eq!(select(at(A, 50), &s, &p, 150), Decision::SwitchTo(B));
}

#[test]
fn current_is_best_keeps() {
    let d = select(at(B, 0), &snap(&[(A, 100), (B, 200)]), &policy(0, 0), 0);
    assert_eq!(d, Decision::Keep);
}

#[test]
fn current_gone_from_snapshot_switches() {
    let d = select(at(7, 0), &snap(&[(A, 100), (B, 200)]), &policy(1000, 1000), 0);
    assert_eq!(d, Decision::SwitchTo(B));
}

#[test]
fn empty_snapshot_has_none_available() {
    let s = snap(&[]);
    assert_eq!(select(None, &s, &policy(10, 0), 0), Decision::NoneAvailable);
    assert_eq!(select(at(A, 0), &s, &policy(10, 0), 0), Decision::NoneAvailable);
}

#[test]
fn newer_report_replaces_older() {
    let s = snap(&[(A, 100), (B, 150), (A, 180)]);
    assert_eq!(s.len(), 2);
    assert_eq!(s.get(A).map(|i| i.confirmed_flush_lsn), Some(180));
    assert_eq!(s.get(B).map(|i| i.confirmed_flush_lsn), Some(150));
    assert_eq!(s.get(3), None);
    assert_eq!(select(None, &s, &policy(0, 0), 0), Decision::SwitchTo(A));
}

#[test]
fn selected_source_is_in_snapshot() {
    let s = snap(&[(4, 10), (8, 30), (6, 30)]);
    for current in [None, at(1, 0), at(4, 0), at(6, 0), at(8, 0)] {
        let chosen = match select(current, &s, &policy(5, 0), 10) {
            Decision::Keep => current.map(|c| c.node_id),
            Decision::SwitchTo(n) => Some(n),
            Decision::NoneAvailable => None,
        };
        let n = chosen.unwrap();
        assert!(s.get(n).is_some());
    }
}
