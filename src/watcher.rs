//! Decisions of the broker watcher and of the WAL streaming task; the
//! polling, the waiting and the network I/O are done by their caller.
use vstd::prelude::*;
use crate::snapshot::TimelineSnapshot;

verus! {

/// How often a broker watcher polls, and how it backs off while the broker
/// cannot be reached.
#[derive(Clone, Copy, Debug, PartialEq, Eq, Structural)]
pub struct PollPolicy {
    pub interval_ms: u64,
    pub retry_base_ms: u64,
    pub retry_max_ms: u64,
}

/// Delay before the next poll after `failures` failed polls in a row
/// (at least one): the base delay doubled per further failure, capped.
pub open spec fn backoff_spec(base: u64, max: u64, failures: nat) -> u64
    decreases failures,
{
    if failures <= 1 {
        if base <= max {
            base
        } else {
            max
        }
    } else {
        let prev = backoff_spec(base, max, (failures - 1) as nat);
        if prev as int * 2 <= max as int {
            (prev * 2) as u64
        } else {
            max
        }
    }
}

pub fn backoff_delay(base: u64, max: u64, failures: u32) -> (r: u64)
    requires
        failures >= 1,
    ensures
        r == backoff_spec(base, max, failures as nat),
        r <= max,
{
    let mut d: u64 = if base <= max {
        base
    } else {
        max
    };
    let mut i: u32 = 1;
    while i < failures
        invariant
            1 <= i <= failures,
            d == backoff_spec(base, max, i as nat),
            d <= max,
        decreases failures - i,
    {
        if d <= max / 2 {
            d = d * 2;
        } else {
            d = max;
        }
        i = i + 1;
    }
    d
}

/// What a broker watcher does after a poll.
pub enum WatchStep {
    /// Publish the snapshot as the watcher's progress, then poll again after
    /// the delay.
    Publish { snapshot: TimelineSnapshot, delay_ms: u64 },
    /// The broker could not be reached: publish nothing, retry after the delay.
    Retry { delay_ms: u64 },
}

/// The broker watcher of one timeline: counts failed polls in a row.
pub struct BrokerWatcher {
    policy: PollPolicy,
    failures: u32,
}

impl BrokerWatcher {
    pub closed spec fn policy_spec(&self) -> PollPolicy {
        self.policy
    }

    pub closed spec fn failures_spec(&self) -> nat {
        self.failures as nat
    }

    pub fn new(policy: PollPolicy) -> (r: BrokerWatcher)
        ensures
            r.policy_spec() == policy,
            r.failures_spec() == 0,
    {
        BrokerWatcher { policy, failures: 0 }
    }

    pub fn failures(&self) -> (r: u32)
        ensures
            r as nat == self.failures_spec(),
    {
        self.failures
    }

    /// Handles the outcome of a poll. A snapshot is published as it came and
    /// resets the failure count; a failure is never turned into a snapshot,
    /// and backs off further with each failure in a row.
    pub fn on_poll(&mut self, polled: Result<TimelineSnapshot, String>) -> (r: WatchStep)
        ensures
            final(self).policy_spec() == old(self).policy_spec(),
            match polled {
                Ok(s) => {
                    &&& final(self).failures_spec() == 0
                    &&& r matches WatchStep::Publish { snapshot, delay_ms } && snapshot@ == s@
                        && delay_ms == old(self).policy_spec().interval_ms
                },
                Err(_) => {
                    let f = if old(self).failures_spec() < u32::MAX {
                        old(self).failures_spec() + 1
                    } else {
                        old(self).failures_spec()
                    };
                    &&& final(self).failures_spec() == f
                    &&& r matches WatchStep::Retry { delay_ms } && delay_ms == backoff_spec(
                        old(self).policy_spec().retry_base_ms,
                        old(self).policy_spec().retry_max_ms,
                        f,
                    )
                },
            },
    {
        match polled {
            Ok(snapshot) => {
                self.failures = 0;
                WatchStep::Publish { snapshot, delay_ms: self.policy.interval_ms }
            },
            Err(_) => {
                if self.failures < u32::MAX {
                    self.failures = self.failures + 1;
                }
                let delay_ms = backoff_delay(
                    self.policy.retry_base_ms,
                    self.policy.retry_max_ms,
                    self.failures,
                );
                WatchStep::Retry { delay_ms }
            },
        }
    }
}

/// Transport-level progress of a WAL streaming task.
#[derive(Clone, Copy, Debug, PartialEq, Eq, Structural)]
pub struct StreamProgress {
    pub bytes_received: u64,
    pub last_lsn: u64,
}

impl StreamProgress {
    pub fn new() -> (r: StreamProgress)
        ensures
            r == (StreamProgress { bytes_received: 0, last_lsn: 0 }),
    {
        StreamProgress { bytes_received: 0, last_lsn: 0 }
    }

    /// Accounts for a chunk of `len` bytes ending at `lsn`; the byte count
    /// saturates at its maximum.
    pub fn record_chunk(&mut self, len: u64, lsn: u64)
        ensures
            final(self).last_lsn == lsn,
            final(self).bytes_received == if old(self).bytes_received as int + len as int
                <= u64::MAX as int {
                (old(self).bytes_received + len) as u64
            } else {
                u64::MAX
            },
    {
        self.bytes_received = self.bytes_received.saturating_add(len);
        self.last_lsn = lsn;
    }
}

} // verus!
