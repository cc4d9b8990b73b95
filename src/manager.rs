//! The connection manager: per-timeline decisions on which background tasks
//! run. Each call takes one event and returns, in order, the task actions the
//! caller must perform; a stop action must be carried out (the task joined)
//! before the next action is started.
use vstd::prelude::*;
use crate::selector::{
    ActiveSource, Decision, SelectionPolicy, apply_decision, lemma_selected_source_in_snapshot, select,
    select_spec,
};
use crate::snapshot::{TimelineSnapshot, has_node};

verus! {

/// A task operation that the manager asks its caller to perform.
#[derive(Clone, Copy, Debug, PartialEq, Eq, Structural)]
pub enum Action {
    StartWatcher { tenant: u128, timeline: u128 },
    StopWatcher { timeline: u128 },
    StartStream { tenant: u128, timeline: u128, node_id: u64 },
    StopStream { timeline: u128, node_id: u64 },
}

/// An attached timeline, its tenant and its current streaming source.
#[derive(Clone, Copy, Debug, PartialEq, Eq, Structural)]
pub struct TimelineEntry {
    pub tenant: u128,
    pub timeline: u128,
    pub active: Option<ActiveSource>,
}

/// Index of the entry of `timeline`, or -1 when it is not attached.
pub open spec fn timeline_pos(s: Seq<TimelineEntry>, timeline: u128) -> int
    decreases s.len(),
{
    if s.len() == 0 {
        -1
    } else if s.last().timeline == timeline {
        s.len() - 1
    } else {
        timeline_pos(s.drop_last(), timeline)
    }
}

pub open spec fn timelines_unique(s: Seq<TimelineEntry>) -> bool {
    forall|i: int, j: int|
        0 <= i < s.len() && 0 <= j < s.len() && i != j ==> (#[trigger] s[i]).timeline
            != (#[trigger] s[j]).timeline
}

pub open spec fn source_node(a: Option<ActiveSource>) -> Option<u64> {
    match a {
        Some(s) => Some(s.node_id),
        None => None,
    }
}

/// The streaming source left running after `acts` are performed in order
/// on a timeline that streams from `running`; `None` when an action would
/// start a second stream or stop one that is not running.
pub open spec fn replay(running: Option<u64>, acts: Seq<Action>) -> Option<Option<u64>>
    decreases acts.len(),
{
    if acts.len() == 0 {
        Some(running)
    } else {
        let next = match acts[0] {
            Action::StartStream { node_id, .. } => if running is None {
                Some(Some(node_id))
            } else {
                None
            },
            Action::StopStream { node_id, .. } => if running == Some(node_id) {
                Some(None)
            } else {
                None
            },
            _ => Some(running),
        };
        match next {
            Some(r) => replay(r, acts.drop_first()),
            None => None,
        }
    }
}

/// The actions that move a timeline's stream from `from` to `to`: the old
/// stream is stopped before the new one starts.
pub open spec fn transition_actions(
    tenant: u128,
    timeline: u128,
    from: Option<ActiveSource>,
    to: Option<ActiveSource>,
) -> Seq<Action> {
    if from == to {
        seq![]
    } else {
        let stop = match from {
            Some(a) => seq![Action::StopStream { timeline, node_id: a.node_id }],
            None => seq![],
        };
        let start = match to {
            Some(a) => seq![Action::StartStream { tenant, timeline, node_id: a.node_id }],
            None => seq![],
        };
        stop + start
    }
}

pub open spec fn detach_actions(timeline: u128, active: Option<ActiveSource>) -> Seq<Action> {
    match active {
        Some(a) => seq![
            Action::StopStream { timeline, node_id: a.node_id },
            Action::StopWatcher { timeline },
        ],
        None => seq![Action::StopWatcher { timeline }],
    }
}

pub proof fn lemma_timeline_pos(s: Seq<TimelineEntry>, timeline: u128)
    ensures
        -1 <= timeline_pos(s, timeline) < s.len(),
        timeline_pos(s, timeline) >= 0 ==> s[timeline_pos(s, timeline)].timeline == timeline,
        timeline_pos(s, timeline) == -1 ==> forall|i: int|
            0 <= i < s.len() ==> (#[trigger] s[i]).timeline != timeline,
    decreases s.len(),
{
    if s.len() > 0 {
        lemma_timeline_pos(s.drop_last(), timeline);
        if s.last().timeline != timeline && timeline_pos(s, timeline) == -1 {
            assert forall|i: int| 0 <= i < s.len() implies (#[trigger] s[i]).timeline != timeline by {
                if i < s.len() - 1 {
                    assert(s.drop_last()[i] == s[i]);
                }
            }
        }
        if timeline_pos(s.drop_last(), timeline) >= 0 {
            let p = timeline_pos(s.drop_last(), timeline);
            assert(s[p] == s.drop_last()[p]);
        }
    }
}

/// Moving a stream from one source to another never leaves two streams
/// running: the actions end with exactly the new source streaming.
pub proof fn lemma_transition_replays(
    tenant: u128,
    timeline: u128,
    from: Option<ActiveSource>,
    to: Option<ActiveSource>,
)
    requires
        from == to || source_node(from) != source_node(to),
    ensures
        replay(source_node(from), transition_actions(tenant, timeline, from, to)) == Some(
            source_node(to),
        ),
{
    reveal_with_fuel(replay, 3);
    let acts = transition_actions(tenant, timeline, from, to);
    if from != to {
        if from is Some && to is Some {
            assert(acts.drop_first() =~= seq![acts[1]]);
            assert(acts.drop_first().drop_first() =~= Seq::<Action>::empty());
        } else if from is Some || to is Some {
            assert(acts.drop_first() =~= Seq::<Action>::empty());
        }
    }
}

/// Detaching stops the timeline's stream, if any, and leaves none running.
pub proof fn lemma_detach_replays(timeline: u128, active: Option<ActiveSource>)
    ensures
        replay(source_node(active), detach_actions(timeline, active)) == Some(None::<u64>),
{
    reveal_with_fuel(replay, 3);
    let acts = detach_actions(timeline, active);
    if active is Some {
        assert(acts.drop_first() =~= seq![acts[1]]);
        assert(acts.drop_first().drop_first() =~= Seq::<Action>::empty());
    } else {
        assert(acts.drop_first() =~= Seq::<Action>::empty());
    }
}

/// Position of the entry of `timeline` in `v`.
fn find_timeline(v: &Vec<TimelineEntry>, timeline: u128) -> (r: Option<usize>)
    ensures
        r.is_none() <==> timeline_pos(v@, timeline) < 0,
        r matches Some(p) ==> p as int == timeline_pos(v@, timeline),
{
    let mut found: Option<usize> = None;
    let mut i: usize = 0;
    while i < v.len()
        invariant
            i <= v@.len(),
            found.is_none() <==> timeline_pos(v@.take(i as int), timeline) < 0,
            found matches Some(p) ==> p as int == timeline_pos(v@.take(i as int), timeline),
        decreases v@.len() - i,
    {
        assert(v@.take(i + 1).drop_last() =~= v@.take(i as int));
        if v[i].timeline == timeline {
            found = Some(i);
        }
        i = i + 1;
    }
    assert(v@.take(v@.len() as int) =~= v@);
    found
}

fn transition(tenant: u128, timeline: u128, from: Option<ActiveSource>, to: Option<ActiveSource>) -> (r:
    Vec<Action>)
    ensures
        r@ == transition_actions(tenant, timeline, from, to),
{
    let mut acts: Vec<Action> = Vec::new();
    if from == to {
        return acts;
    }
    if let Some(a) = from {
        acts.push(Action::StopStream { timeline, node_id: a.node_id });
    }
    if let Some(a) = to {
        acts.push(Action::StartStream { tenant, timeline, node_id: a.node_id });
    }
    assert(acts@ =~= transition_actions(tenant, timeline, from, to));
    acts
}

/// The registry of attached timelines and their streaming sources.
pub struct ConnectionManager {
    entries: Vec<TimelineEntry>,
    policy: SelectionPolicy,
}

impl View for ConnectionManager {
    type V = Seq<TimelineEntry>;

    closed spec fn view(&self) -> Seq<TimelineEntry> {
        self.entries@
    }
}

impl ConnectionManager {
    pub closed spec fn policy_spec(&self) -> SelectionPolicy {
        self.policy
    }

    /// Every timeline is registered once.
    pub open spec fn wf(&self) -> bool {
        timelines_unique(self@)
    }

    pub fn new(policy: SelectionPolicy) -> (r: ConnectionManager)
        ensures
            r.wf(),
            r@.len() == 0,
            r.policy_spec() == policy,
    {
        ConnectionManager { entries: Vec::new(), policy }
    }

    pub fn policy(&self) -> (r: SelectionPolicy)
        ensures
            r == self.policy_spec(),
    {
        self.policy
    }

    pub fn is_attached(&self, timeline: u128) -> (r: bool)
        ensures
            r == (timeline_pos(self@, timeline) >= 0),
    {
        find_timeline(&self.entries, timeline).is_some()
    }

    /// The timeline's current source; `None` when it is not attached or
    /// streams from nowhere.
    pub fn active_source(&self, timeline: u128) -> (r: Option<ActiveSource>)
        ensures
            timeline_pos(self@, timeline) < 0 ==> r.is_none(),
            timeline_pos(self@, timeline) >= 0 ==> r == self@[timeline_pos(self@, timeline)].active,
    {
        proof {
            lemma_timeline_pos(self@, timeline);
        }
        match find_timeline(&self.entries, timeline) {
            Some(p) => self.entries[p].active,
            None => None,
        }
    }

    /// A timeline was attached: its broker watcher starts. Attaching an
    /// attached timeline changes nothing.
    pub fn attach(&mut self, tenant: u128, timeline: u128) -> (acts: Vec<Action>)
        requires
            old(self).wf(),
        ensures
            final(self).wf(),
            final(self).policy_spec() == old(self).policy_spec(),
            timeline_pos(old(self)@, timeline) >= 0 ==> final(self)@ == old(self)@ && acts@.len()
                == 0,
            timeline_pos(old(self)@, timeline) < 0 ==> final(self)@ == old(self)@.push(
                TimelineEntry { tenant, timeline, active: None },
            ) && acts@ == seq![Action::StartWatcher { tenant, timeline }],
    {
        let mut acts: Vec<Action> = Vec::new();
        proof {
            lemma_timeline_pos(self@, timeline);
        }
        if find_timeline(&self.entries, timeline).is_some() {
            return acts;
        }
        self.entries.push(TimelineEntry { tenant, timeline, active: None });
        acts.push(Action::StartWatcher { tenant, timeline });
        assert(acts@ =~= seq![Action::StartWatcher { tenant, timeline }]);
        acts
    }

    /// A timeline was detached: its stream, if any, stops, then its broker
    /// watcher, and the timeline leaves the registry.
    pub fn detach(&mut self, timeline: u128) -> (acts: Vec<Action>)
        requires
            old(self).wf(),
        ensures
            final(self).wf(),
            final(self).policy_spec() == old(self).policy_spec(),
            timeline_pos(final(self)@, timeline) < 0,
            timeline_pos(old(self)@, timeline) < 0 ==> final(self)@ == old(self)@ && acts@.len()
                == 0,
            timeline_pos(old(self)@, timeline) >= 0 ==> final(self)@ == old(self)@.remove(
                timeline_pos(old(self)@, timeline),
            ) && acts@ == detach_actions(
                timeline,
                old(self)@[timeline_pos(old(self)@, timeline)].active,
            ) && replay(
                source_node(old(self)@[timeline_pos(old(self)@, timeline)].active),
                acts@,
            ) == Some(None::<u64>),
    {
        let mut acts: Vec<Action> = Vec::new();
        proof {
            lemma_timeline_pos(self@, timeline);
        }
        let p = match find_timeline(&self.entries, timeline) {
            Some(p) => p,
            None => {
                return acts;
            },
        };
        let e = self.entries.remove(p);
        if let Some(a) = e.active {
            acts.push(Action::StopStream { timeline, node_id: a.node_id });
        }
        acts.push(Action::StopWatcher { timeline });
        assert(acts@ =~= detach_actions(timeline, e.active));
        proof {
            lemma_detach_replays(timeline, e.active);
            let o = old(self)@;
            let s = self@;
            assert forall|i: int, j: int|
                0 <= i < s.len() && 0 <= j < s.len() && i != j implies (#[trigger] s[i]).timeline
                != (#[trigger] s[j]).timeline by {
                let oi = if i < p { i } else { i + 1 };
                let oj = if j < p { j } else { j + 1 };
                assert(s[i] == o[oi]);
                assert(s[j] == o[oj]);
            }
            assert forall|i: int| 0 <= i < s.len() implies (#[trigger] s[i]).timeline != timeline by {
                let oi = if i < p { i } else { i + 1 };
                assert(s[i] == o[oi]);
            }
            lemma_timeline_pos(s, timeline);
        }
        acts
    }

    /// The timeline's broker watcher reported `snapshot` at time `now`: the
    /// source selector decides, and the timeline's stream is kept, moved to
    /// the chosen safekeeper, or stopped when none is available. Reports for
    /// a timeline that is not attached are ignored.
    pub fn on_broker_update(&mut self, timeline: u128, snapshot: &TimelineSnapshot, now: u64) -> (acts:
        Vec<Action>)
        requires
            old(self).wf(),
        ensures
            final(self).wf(),
            final(self).policy_spec() == old(self).policy_spec(),
            timeline_pos(old(self)@, timeline) < 0 ==> final(self)@ == old(self)@ && acts@.len()
                == 0,
            timeline_pos(old(self)@, timeline) >= 0 ==> {
                let p = timeline_pos(old(self)@, timeline);
                let e = old(self)@[p];
                let next = apply_decision(
                    e.active,
                    select_spec(e.active, snapshot@, old(self).policy_spec(), now),
                    now,
                );
                &&& final(self)@ == old(self)@.update(p, TimelineEntry { active: next, ..e })
                &&& acts@ == transition_actions(e.tenant, timeline, e.active, next)
                &&& replay(source_node(e.active), acts@) == Some(source_node(next))
                &&& snapshot@.len() > 0 ==> (next matches Some(a) && has_node(snapshot@, a.node_id))
            },
    {
        proof {
            lemma_timeline_pos(self@, timeline);
        }
        let p = match find_timeline(&self.entries, timeline) {
            Some(p) => p,
            None => {
                return Vec::new();
            },
        };
        let e = self.entries[p];
        let d = select(e.active, snapshot, &self.policy, now);
        let next = match d {
            Decision::Keep => e.active,
            Decision::SwitchTo(n) => Some(ActiveSource { node_id: n, connected_since: now }),
            Decision::NoneAvailable => None,
        };
        proof {
            if let Some(c) = e.active {
                if d is SwitchTo {
                    assert(d->SwitchTo_0 != c.node_id);
                }
            }
            lemma_transition_replays(e.tenant, timeline, e.active, next);
            if snapshot@.len() > 0 {
                lemma_selected_source_in_snapshot(e.active, snapshot@, self.policy, now);
            }
        }
        self.entries.set(p, TimelineEntry { active: next, ..e });
        proof {
            let o = old(self)@;
            let s = self@;
            assert forall|i: int, j: int|
                0 <= i < s.len() && 0 <= j < s.len() && i != j implies (#[trigger] s[i]).timeline
                != (#[trigger] s[j]).timeline by {
                assert(s[i].timeline == o[i].timeline);
                assert(s[j].timeline == o[j].timeline);
            }
        }
        transition(e.tenant, timeline, e.active, next)
    }

    /// The timeline's stream from `node_id` ended by itself: its task is
    /// released and the timeline is left without a source until the next
    /// broker report. An end reported for any other stream is ignored.
    pub fn on_stream_ended(&mut self, timeline: u128, node_id: u64) -> (acts: Vec<Action>)
        requires
            old(self).wf(),
        ensures
            final(self).wf(),
            final(self).policy_spec() == old(self).policy_spec(),
            ({
                let p = timeline_pos(old(self)@, timeline);
                if p >= 0 && source_node(old(self)@[p].active) == Some(node_id) {
                    &&& final(self)@ == old(self)@.update(
                        p,
                        TimelineEntry { active: None, ..old(self)@[p] },
                    )
                    &&& acts@ == seq![Action::StopStream { timeline, node_id }]
                    &&& replay(Some(node_id), acts@) == Some(None::<u64>)
                } else {
                    final(self)@ == old(self)@ && acts@.len() == 0
                }
            }),
    {
        let mut acts: Vec<Action> = Vec::new();
        proof {
            lemma_timeline_pos(self@, timeline);
        }
        let p = match find_timeline(&self.entries, timeline) {
            Some(p) => p,
            None => {
                return acts;
            },
        };
        let e = self.entries[p];
        match e.active {
            Some(a) => {
                if a.node_id != node_id {
                    return acts;
                }
            },
            None => {
                return acts;
            },
        }
        self.entries.set(p, TimelineEntry { active: None, ..e });
        acts.push(Action::StopStream { timeline, node_id });
        proof {
            let o = old(self)@;
            let s = self@;
            assert forall|i: int, j: int|
                0 <= i < s.len() && 0 <= j < s.len() && i != j implies (#[trigger] s[i]).timeline
                != (#[trigger] s[j]).timeline by {
                assert(s[i].timeline == o[i].timeline);
                assert(s[j].timeline == o[j].timeline);
            }
            assert(acts@ =~= seq![Action::StopStream { timeline, node_id }]);
            reveal_with_fuel(replay, 2);
            assert(acts@.drop_first() =~= Seq::<Action>::empty());
        }
        acts
    }
}

} // verus!
