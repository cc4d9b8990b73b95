use walreceiver::watcher::backoff_delay;
use walreceiver::{BrokerWatcher, PollPolicy, SafekeeperInfo, StreamProgress, TimelineSnapshot, WatchStep};

#[test]
fn backoff_doubles_up_to_cap() {
    assert_eq!(backoff_delay(100, 1000, 1), 100);
    assert_eq!(backoff_delay(100, 1000, 2), 200);
    assert_eq!(backoff_delay(100, 1000, 3), 400);
    assert_eq!(backoff_delay(100, 1000, 4), 800);
    assert_eq!(backoff_delay(100, 1000, 5), 1000);
    assert_eq!(backoff_delay(100, 1000, 60), 1000);
    assert_eq!(backoff_delay(5000, 1000, 1), 1000);
    assert_eq!(backoff_delay(u64::MAX, u64::MAX, 3), u64::MAX);
}

#[test]
fn watcher_publishes_and_backs_off() {
    let mut w = BrokerWatcher::new(PollPolicy { interval_ms: 500, retry_base_ms: 100, retry_max_ms: 1000 });
    assert!(matches!(w.on_poll(Err("down".to_string())), WatchStep::Retry { delay_ms: 100 }));
    assert!(matches!(w.on_poll(Err("down".to_string())), WatchStep::Retry { delay_ms: 200 }));
    assert_eq!(w.failures(), 2);
    let mut s = TimelineSnapshot::new();
    s.record(SafekeeperInfo { node_id: 1, confirmed_flush_lsn: 10, reported_at: 3 });
    match w.on_poll(Ok(s)) {
        WatchStep::Publish { snapshot, delay_ms } => {
            assert_eq!(delay_ms, 500);
            assert_eq!(snapshot.len(), 1);
        }
        WatchStep::Retry { .. } => panic!("expected a snapshot"),
    }
    assert_eq!(w.failures(), 0);
    assert!(matches!(w.on_poll(Err("down".to_string())), WatchStep::Retry { delay_ms: 100 }));
}

#[test]
fn stream_progress_counts_bytes() {
    let mut p = StreamProgress::new();
    p.record_chunk(100, 1000);
    p.record_chunk(50, 1050);
    assert_eq!(p, StreamProgress { bytes_received: 150, last_lsn: 1050 });
    p.record_chunk(u64::MAX, 2000);
    assert_eq!(p.bytes_received, u64::MAX);
    assert_eq!(p.last_lsn, 2000);
}
