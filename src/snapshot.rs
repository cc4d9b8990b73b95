//! Broker-published safekeeper progress and the per-timeline snapshot of it.
use vstd::prelude::*;

verus! {

/// One broker-published fact about a safekeeper's progress on a timeline.
#[derive(Clone, Copy, Debug, PartialEq, Eq, Structural)]
pub struct SafekeeperInfo {
    pub node_id: u64,
    pub confirmed_flush_lsn: u64,
    pub reported_at: u64,
}

/// Index of the last entry reported by `node`, or -1 when there is none.
pub open spec fn position_of(s: Seq<SafekeeperInfo>, node: u64) -> int
    decreases s.len(),
{
    if s.len() == 0 {
        -1
    } else if s.last().node_id == node {
        s.len() - 1
    } else {
        position_of(s.drop_last(), node)
    }
}

pub open spec fn has_node(s: Seq<SafekeeperInfo>, node: u64) -> bool {
    exists|i: int| 0 <= i < s.len() && (#[trigger] s[i]).node_id == node
}

/// No safekeeper is reported twice.
pub open spec fn nodes_unique(s: Seq<SafekeeperInfo>) -> bool {
    forall|i: int, j: int|
        0 <= i < s.len() && 0 <= j < s.len() && i != j ==> (#[trigger] s[i]).node_id
            != (#[trigger] s[j]).node_id
}

pub proof fn lemma_position_of(s: Seq<SafekeeperInfo>, node: u64)
    ensures
        -1 <= position_of(s, node) < s.len(),
        position_of(s, node) >= 0 ==> s[position_of(s, node)].node_id == node,
        position_of(s, node) == -1 <==> !has_node(s, node),
    decreases s.len(),
{
    if s.len() > 0 {
        lemma_position_of(s.drop_last(), node);
        if s.last().node_id != node && position_of(s, node) == -1 {
            assert forall|i: int| 0 <= i < s.len() implies (#[trigger] s[i]).node_id != node by {
                if i < s.len() - 1 {
                    assert(s.drop_last()[i] == s[i]);
                }
            }
        }
        if position_of(s.drop_last(), node) >= 0 {
            let p = position_of(s.drop_last(), node);
            assert(s[p] == s.drop_last()[p]);
        }
    }
}

/// The latest progress of every safekeeper known to serve one timeline.
/// Each new report of a safekeeper replaces its previous one.
#[derive(Clone, Debug)]
pub struct TimelineSnapshot {
    entries: Vec<SafekeeperInfo>,
}

impl View for TimelineSnapshot {
    type V = Seq<SafekeeperInfo>;

    closed spec fn view(&self) -> Seq<SafekeeperInfo> {
        self.entries@
    }
}

impl TimelineSnapshot {
    pub open spec fn wf(&self) -> bool {
        nodes_unique(self@)
    }

    pub fn new() -> (r: TimelineSnapshot)
        ensures
            r@.len() == 0,
            r.wf(),
    {
        TimelineSnapshot { entries: Vec::new() }
    }

    /// Records `info`, replacing the earlier report of the same safekeeper.
    pub fn record(&mut self, info: SafekeeperInfo)
        requires
            old(self).wf(),
        ensures
            final(self).wf(),
            position_of(old(self)@, info.node_id) >= 0 ==> final(self)@ == old(self)@.update(
                position_of(old(self)@, info.node_id),
                info,
            ),
            position_of(old(self)@, info.node_id) < 0 ==> final(self)@ == old(self)@.push(info),
    {
        let pos = find_node(&self.entries, info.node_id);
        proof {
            lemma_position_of(self@, info.node_id);
        }
        match pos {
            Some(p) => {
                self.entries.set(p, info);
            },
            None => {
                self.entries.push(info);
            },
        }
        proof {
            let s = self@;
            assert forall|i: int, j: int|
                0 <= i < s.len() && 0 <= j < s.len() && i != j implies (#[trigger] s[i]).node_id
                != (#[trigger] s[j]).node_id by {
                let o = old(self)@;
                if i < o.len() && j < o.len() {
                    assert(s[i].node_id == o[i].node_id);
                    assert(s[j].node_id == o[j].node_id);
                }
            }
        }
    }

    pub fn len(&self) -> (r: usize)
        ensures
            r == self@.len(),
    {
        self.entries.len()
    }

    pub fn is_empty(&self) -> (r: bool)
        ensures
            r == (self@.len() == 0),
    {
        self.entries.len() == 0
    }

    /// The reports, in the order in which their safekeepers were first seen.
    pub fn entries(&self) -> (r: &Vec<SafekeeperInfo>)
        ensures
            r@ == self@,
    {
        &self.entries
    }

    /// The report of `node`, if there is one.
    pub fn get(&self, node: u64) -> (r: Option<SafekeeperInfo>)
        ensures
            position_of(self@, node) < 0 ==> r.is_none(),
            position_of(self@, node) >= 0 ==> r == Some(self@[position_of(self@, node)]),
    {
        proof {
            lemma_position_of(self@, node);
        }
        match find_node(&self.entries, node) {
            Some(p) => {
                let info = self.entries[p];
                Some(info)
            },
            None => None,
        }
    }
}

/// Position of the last report of `node` in `v`.
pub fn find_node(v: &Vec<SafekeeperInfo>, node: u64) -> (r: Option<usize>)
    ensures
        r.is_none() <==> position_of(v@, node) < 0,
        r matches Some(p) ==> p as int == position_of(v@, node),
{
    let mut found: Option<usize> = None;
    let mut i: usize = 0;
    while i < v.len()
        invariant
            i <= v@.len(),
            found.is_none() <==> position_of(v@.take(i as int), node) < 0,
            found matches Some(p) ==> p as int == position_of(v@.take(i as int), node),
        decreases v@.len() - i,
    {
        assert(v@.take(i + 1).drop_last() =~= v@.take(i as int));
        if v[i].node_id == node {
            found = Some(i);
        }
        i = i + 1;
    }
    assert(v@.take(v@.len() as int) =~= v@);
    found
}

} // verus!
