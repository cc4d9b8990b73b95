//! The source selector: which safekeeper a timeline should stream from.
use vstd::prelude::*;
use crate::snapshot::{SafekeeperInfo, TimelineSnapshot, has_node, nodes_unique, position_of, lemma_position_of};

verus! {

/// The timeline's current streaming source.
#[derive(Clone, Copy, Debug, PartialEq, Eq, Structural)]
pub struct ActiveSource {
    pub node_id: u64,
    pub connected_since: u64,
}

/// When a connected timeline may move to a better safekeeper: only when the
/// best one leads by more than `hysteresis_margin`, and no sooner than
/// `cooldown` time units after the current connection was made.
#[derive(Clone, Copy, Debug, PartialEq, Eq, Structural)]
pub struct SelectionPolicy {
    pub hysteresis_margin: u64,
    pub cooldown: u64,
}

#[derive(Clone, Copy, Debug, PartialEq, Eq, Structural)]
pub enum Decision {
    Keep,
    SwitchTo(u64),
    NoneAvailable,
}

/// `a` ranks at least as high as `b`: more progress, or as much and a smaller id.
pub open spec fn ranks_over(a: SafekeeperInfo, b: SafekeeperInfo) -> bool {
    a.confirmed_flush_lsn > b.confirmed_flush_lsn || (a.confirmed_flush_lsn
        == b.confirmed_flush_lsn && a.node_id <= b.node_id)
}

pub open spec fn better(a: SafekeeperInfo, b: SafekeeperInfo) -> SafekeeperInfo {
    if ranks_over(a, b) {
        a
    } else {
        b
    }
}

/// The highest ranked report of a non-empty sequence.
pub open spec fn best_of(s: Seq<SafekeeperInfo>) -> SafekeeperInfo
    decreases s.len(),
{
    if s.len() <= 1 {
        s[0]
    } else {
        better(best_of(s.drop_last()), s.last())
    }
}

pub open spec fn lsn_of(s: Seq<SafekeeperInfo>, node: u64) -> u64 {
    s[position_of(s, node)].confirmed_flush_lsn
}

pub open spec fn cooldown_elapsed(since: u64, now: u64, cooldown: u64) -> bool {
    now >= since + cooldown
}

pub open spec fn lead_exceeds(best: u64, current: u64, margin: u64) -> bool {
    best > current + margin
}

pub open spec fn select_spec(
    current: Option<ActiveSource>,
    s: Seq<SafekeeperInfo>,
    policy: SelectionPolicy,
    now: u64,
) -> Decision {
    if s.len() == 0 {
        Decision::NoneAvailable
    } else {
        let b = best_of(s);
        match current {
            None => Decision::SwitchTo(b.node_id),
            Some(c) => if c.node_id == b.node_id {
                Decision::Keep
            } else if !has_node(s, c.node_id) {
                Decision::SwitchTo(b.node_id)
            } else if lead_exceeds(b.confirmed_flush_lsn, lsn_of(s, c.node_id), policy.hysteresis_margin)
                && cooldown_elapsed(c.connected_since, now, policy.cooldown) {
                Decision::SwitchTo(b.node_id)
            } else {
                Decision::Keep
            },
        }
    }
}

/// The source a timeline has once `d` is enacted at time `now`.
pub open spec fn apply_decision(current: Option<ActiveSource>, d: Decision, now: u64) -> Option<
    ActiveSource,
> {
    match d {
        Decision::Keep => current,
        Decision::SwitchTo(n) => Some(ActiveSource { node_id: n, connected_since: now }),
        Decision::NoneAvailable => None,
    }
}

/// The best report is one of the snapshot's and ranks over every other.
pub proof fn lemma_best_of(s: Seq<SafekeeperInfo>)
    requires
        s.len() > 0,
    ensures
        exists|k: int| 0 <= k < s.len() && s[k] == best_of(s),
        forall|j: int| 0 <= j < s.len() ==> ranks_over(best_of(s), #[trigger] s[j]),
    decreases s.len(),
{
    if s.len() > 1 {
        let t = s.drop_last();
        lemma_best_of(t);
        let k = choose|k: int| 0 <= k < t.len() && t[k] == best_of(t);
        assert(s[k] == t[k]);
        assert(s[s.len() - 1] == s.last());
        assert forall|j: int| 0 <= j < s.len() implies ranks_over(best_of(s), #[trigger] s[j]) by {
            if j < s.len() - 1 {
                assert(s[j] == t[j]);
            }
        }
    } else {
        assert(s[0] == best_of(s));
    }
}

/// With no safekeeper reported nothing is available, whatever the current
/// source; with any reported, something is chosen or kept.
pub proof fn lemma_none_available_iff_empty(
    current: Option<ActiveSource>,
    s: Seq<SafekeeperInfo>,
    policy: SelectionPolicy,
    now: u64,
)
    ensures
        (select_spec(current, s, policy, now) is NoneAvailable) <==> s.len() == 0,
{
}

/// After a non-empty snapshot is acted on, the timeline has exactly one
/// source, and it is a safekeeper of that snapshot.
pub proof fn lemma_selected_source_in_snapshot(
    current: Option<ActiveSource>,
    s: Seq<SafekeeperInfo>,
    policy: SelectionPolicy,
    now: u64,
)
    requires
        s.len() > 0,
    ensures
        apply_decision(current, select_spec(current, s, policy, now), now) matches Some(a)
            && has_node(s, a.node_id),
{
    lemma_best_of(s);
    let k = choose|k: int| 0 <= k < s.len() && s[k] == best_of(s);
    assert(s[k].node_id == best_of(s).node_id);
}

/// A connected timeline moves to another safekeeper exactly when the best one
/// leads the current source by more than the margin and the cooldown since the
/// current connection has elapsed; otherwise it keeps its source.
pub proof fn lemma_switch_iff_lead_and_cooldown(
    c: ActiveSource,
    s: Seq<SafekeeperInfo>,
    policy: SelectionPolicy,
    now: u64,
)
    requires
        nodes_unique(s),
        has_node(s, c.node_id),
    ensures
        select_spec(Some(c), s, policy, now) is SwitchTo <==> (lead_exceeds(
            best_of(s).confirmed_flush_lsn,
            lsn_of(s, c.node_id),
            policy.hysteresis_margin,
        ) && cooldown_elapsed(c.connected_since, now, policy.cooldown)),
        !(select_spec(Some(c), s, policy, now) is SwitchTo) ==> select_spec(Some(c), s, policy, now)
            is Keep,
{
    lemma_best_of(s);
    lemma_position_of(s, c.node_id);
    let k = choose|k: int| 0 <= k < s.len() && s[k] == best_of(s);
    let p = position_of(s, c.node_id);
    if c.node_id == best_of(s).node_id {
        assert(s[p].node_id == s[k].node_id);
        assert(p == k);
    }
}

/// Index of the best report of `v`, which must not be empty.
fn best_index(v: &Vec<SafekeeperInfo>) -> (r: usize)
    requires
        v@.len() > 0,
    ensures
        r < v@.len(),
        v@[r as int] == best_of(v@),
{
    let mut best: usize = 0;
    let mut i: usize = 1;
    assert(v@.take(1).len() == 1);
    while i < v.len()
        invariant
            1 <= i <= v@.len(),
            best < i,
            v@[best as int] == best_of(v@.take(i as int)),
        decreases v@.len() - i,
    {
        let ghost t = v@.take(i + 1);
        assert(t.drop_last() =~= v@.take(i as int));
        assert(t.last() == v@[i as int]);
        let b = v[best];
        let c = v[i];
        if !(b.confirmed_flush_lsn > c.confirmed_flush_lsn || (b.confirmed_flush_lsn
            == c.confirmed_flush_lsn && b.node_id <= c.node_id)) {
            best = i;
        }
        i = i + 1;
    }
    assert(v@.take(v@.len() as int) =~= v@);
    best
}

/// Decides whether the timeline keeps its current source, switches to the
/// best safekeeper of `snapshot`, or has none to stream from.
pub fn select(
    current: Option<ActiveSource>,
    snapshot: &TimelineSnapshot,
    policy: &SelectionPolicy,
    now: u64,
) -> (d: Decision)
    ensures
        d == select_spec(current, snapshot@, *policy, now),
{
    if snapshot.is_empty() {
        return Decision::NoneAvailable;
    }
    let entries = snapshot.entries();
    let b = entries[best_index(entries)];
    match current {
        None => Decision::SwitchTo(b.node_id),
        Some(c) => {
            if c.node_id == b.node_id {
                return Decision::Keep;
            }
            proof {
                lemma_position_of(snapshot@, c.node_id);
            }
            match snapshot.get(c.node_id) {
                None => Decision::SwitchTo(b.node_id),
                Some(cur) => {
                    let lead = b.confirmed_flush_lsn > cur.confirmed_flush_lsn && b.confirmed_flush_lsn
                        - cur.confirmed_flush_lsn > policy.hysteresis_margin;
                    let elapsed = now >= c.connected_since && now - c.connected_since
                        >= policy.cooldown;
                    if lead && elapsed {
                        Decision::SwitchTo(b.node_id)
                    } else {
                        Decision::Keep
                    }
                },
            }
        },
    }
}

} // verus!
