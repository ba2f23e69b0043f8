//! The membership table: what a node has recorded about each peer it knows.

use vstd::prelude::*;
use crate::addr::PeerAddr;
use crate::addr_map::AddrMap;
use crate::seqs::{lemma_prefix_grows, lemma_whole_prefix};
use crate::state::{
    next_state, recent_window, AliveState, DeadState, NodeState, State, StateContext, SuspectState,
};
use crate::time::{Duration, Instant};

verus! {

/// One entry of the membership table: a peer's state and what is recorded
/// beside it.
#[derive(Clone, Copy, Debug, PartialEq, Eq, Structural)]
pub struct ManagedNode {
    pub state: NodeState,
    pub context: StateContext,
}

/// `count` and one more, as far as the counter's width allows.
pub open spec fn one_more(count: u32) -> u32 {
    if count < u32::MAX {
        (count + 1) as u32
    } else {
        count
    }
}

/// The heartbeat counter that follows `count`: one more, as far as the
/// counter's width allows.
pub open spec fn next_heartbeat(count: u64) -> u64 {
    if count < u64::MAX {
        (count + 1) as u64
    } else {
        count
    }
}

impl ManagedNode {
    /// The entry of a peer first heard of at `now`: suspect, with no
    /// heartbeat yet.
    pub open spec fn fresh(
        suspect_duration: Duration,
        gossip_threshold: u64,
        now: Instant,
    ) -> ManagedNode {
        ManagedNode {
            state: NodeState::Suspect,
            context: StateContext {
                gossip: 0,
                gossip_ts: now,
                failover: false,
                is_starting: true,
                last_state_change: now,
                num_failures: 0,
                suspect_duration,
                gossip_threshold,
            },
        }
    }

    /// The entry after the counter `observed` was heard at `now`: a larger
    /// counter is taken over and stamped, any other changes nothing.
    pub open spec fn merged(self, observed: u64, now: Instant) -> ManagedNode {
        if observed > self.context.gossip {
            ManagedNode {
                context: StateContext { gossip: observed, gossip_ts: now, ..self.context },
                ..self
            }
        } else {
            self
        }
    }

    /// The time at `now` for which the peer has been in its present state.
    pub open spec fn held(self, now: Instant) -> Duration {
        now.since(self.context.last_state_change)
    }

    /// The state that follows at `now`, if any.
    pub open spec fn decision(self, now: Instant) -> Option<NodeState> {
        next_state(
            self.state,
            self.context.gap(now),
            self.held(now),
            self.context.suspect_duration,
            self.context.gossip_threshold,
        )
    }

    /// The failure count after a move from `from` to `to`: one more on the
    /// way down (alive to suspect, suspect to dead), zero on the way from
    /// suspect to alive, unchanged otherwise.
    pub open spec fn failures_after(count: u32, from: NodeState, to: NodeState) -> u32 {
        match (from, to) {
            (NodeState::Alive, NodeState::Suspect) => one_more(count),
            (NodeState::Suspect, NodeState::Dead) => one_more(count),
            (NodeState::Suspect, NodeState::Alive) => 0,
            _ => count,
        }
    }

    /// The entry after the peer was moved to `new_state` at `now`.
    pub open spec fn entered(self, new_state: NodeState, now: Instant) -> ManagedNode {
        ManagedNode {
            state: new_state,
            context: StateContext {
                last_state_change: now,
                num_failures: Self::failures_after(self.context.num_failures, self.state, new_state),
                ..self.context
            },
        }
    }

    /// The entry after its state machine ran at `now`.
    pub open spec fn evaluated(self, now: Instant) -> ManagedNode {
        match self.decision(now) {
            Some(next) => self.entered(next, now),
            None => self,
        }
    }

    /// The entry after the counter `observed` was heard at `now`.  Where the
    /// counter advanced and the peer is one to `classify`, its state machine
    /// ran as well.
    pub open spec fn heard(self, observed: u64, now: Instant, classify: bool) -> ManagedNode {
        if observed > self.context.gossip && classify {
            self.merged(observed, now).evaluated(now)
        } else {
            self.merged(observed, now)
        }
    }

    /// The entry of the node itself after it has beaten once more at `now`:
    /// its counter is the next one, stamped `now`.
    pub open spec fn beat(self, now: Instant) -> ManagedNode {
        self.merged(next_heartbeat(self.context.gossip), now)
    }

    /// The entry of a peer first heard of at `now`.
    pub fn new(suspect_duration: Duration, gossip_threshold: u64, now: Instant) -> (node: Self)
        ensures
            node == Self::fresh(suspect_duration, gossip_threshold, now),
    {
        ManagedNode {
            state: NodeState::Suspect,
            context: StateContext {
                gossip: 0,
                gossip_ts: now,
                failover: false,
                is_starting: true,
                last_state_change: now,
                num_failures: 0,
                suspect_duration,
                gossip_threshold,
            },
        }
    }

    /// Takes over the counter `observed`, heard at `now`, if it is larger
    /// than the recorded one, and says whether it was.
    pub fn merge_counter(&mut self, observed: u64, now: Instant) -> (advanced: bool)
        ensures
            advanced == (observed > old(self).context.gossip),
            *final(self) == old(self).merged(observed, now),
            final(self).context.gossip >= old(self).context.gossip,
    {
        if observed > self.context.gossip {
            self.context.gossip = observed;
            self.context.gossip_ts = now;
            true
        } else {
            false
        }
    }

    /// Runs the rule of the peer's state at `now`.
    pub fn decide(&self, now: Instant) -> (next: Option<NodeState>)
        ensures
            next == self.decision(now),
    {
        match self.state {
            NodeState::Alive => AliveState.update(&self.context, now),
            NodeState::Suspect => SuspectState::new(self.context.last_state_change).update(
                &self.context,
                now,
            ),
            NodeState::Dead => DeadState.update(&self.context, now),
        }
    }

    /// Records that the peer moved to `new_state` at `now`.
    pub fn set_state(&mut self, new_state: NodeState, now: Instant)
        ensures
            *final(self) == old(self).entered(new_state, now),
    {
        let failures: u32 = match (self.state, new_state) {
            (NodeState::Alive, NodeState::Suspect) | (NodeState::Suspect, NodeState::Dead) => {
                if self.context.num_failures < u32::MAX {
                    self.context.num_failures + 1
                } else {
                    self.context.num_failures
                }
            },
            (NodeState::Suspect, NodeState::Alive) => 0,
            _ => self.context.num_failures,
        };
        self.state = new_state;
        self.context.last_state_change = now;
        self.context.num_failures = failures;
    }

    /// Runs the peer's state machine at `now` and records the move, if there
    /// is one.
    pub fn evaluate(&mut self, now: Instant) -> (next: Option<NodeState>)
        ensures
            next == old(self).decision(now),
            *final(self) == old(self).evaluated(now),
    {
        let next = self.decide(now);
        if let Some(state) = next {
            self.set_state(state, now);
        }
        next
    }
}

/// Hearing a counter never lowers the recorded one: afterwards it is the
/// larger of the two, whether or not the state machine ran.
pub proof fn lemma_heard_counter(node: ManagedNode, observed: u64, now: Instant, classify: bool)
    ensures
        node.heard(observed, now, classify).context.gossip == (if observed
            > node.context.gossip {
            observed
        } else {
            node.context.gossip
        }),
        node.heard(observed, now, classify).context.gossip >= node.context.gossip,
        node.heard(observed, now, classify).context.gossip_ts == (if observed
            > node.context.gossip {
            now
        } else {
            node.context.gossip_ts
        }),
{
}

/// Running the state machine changes the state, the time it was entered and
/// the failure count, and nothing else.
pub proof fn lemma_evaluated_keeps_counter(node: ManagedNode, now: Instant)
    ensures
        node.evaluated(now).context.gossip == node.context.gossip,
        node.evaluated(now).context.gossip_ts == node.context.gossip_ts,
        node.evaluated(now).context.suspect_duration == node.context.suspect_duration,
        node.evaluated(now).context.gossip_threshold == node.context.gossip_threshold,
{
}

/// An alive peer whose heartbeat has not advanced for more than
/// `gossip_threshold` seconds becomes suspect, with one failure more.
pub proof fn lemma_alive_becomes_suspect(node: ManagedNode, now: Instant)
    requires
        node.state == NodeState::Alive,
        node.context.gap(now).nanos > Duration::from_secs(node.context.gossip_threshold).nanos,
    ensures
        node.evaluated(now).state == NodeState::Suspect,
        node.evaluated(now).context.num_failures == one_more(node.context.num_failures),
        node.evaluated(now).context.last_state_change == now,
{
}

/// A suspect peer whose heartbeat has not advanced for more than
/// `suspect_duration` becomes dead, with one failure more.
pub proof fn lemma_suspect_becomes_dead(node: ManagedNode, now: Instant)
    requires
        node.state == NodeState::Suspect,
        node.context.gap(now).nanos > node.context.suspect_duration.nanos,
    ensures
        node.evaluated(now).state == NodeState::Dead,
        node.evaluated(now).context.num_failures == one_more(node.context.num_failures),
        node.evaluated(now).context.last_state_change == now,
{
}

/// A suspect peer whose heartbeat advanced within the last second, and
/// within `suspect_duration`, and who has been suspect for at least
/// `suspect_duration`, becomes alive, with no failure to its name.
pub proof fn lemma_suspect_becomes_alive(node: ManagedNode, now: Instant)
    requires
        node.state == NodeState::Suspect,
        node.context.gap(now).nanos <= recent_window().nanos,
        node.context.gap(now).nanos <= node.context.suspect_duration.nanos,
        node.held(now).nanos >= node.context.suspect_duration.nanos,
    ensures
        node.evaluated(now).state == NodeState::Alive,
        node.evaluated(now).context.num_failures == 0,
        node.evaluated(now).context.last_state_change == now,
{
}

/// A dead peer whose heartbeat advanced within the last second becomes
/// suspect, from `now` on.
pub proof fn lemma_dead_becomes_suspect(node: ManagedNode, now: Instant)
    requires
        node.state == NodeState::Dead,
        node.context.gap(now).nanos <= recent_window().nanos,
    ensures
        node.evaluated(now).state == NodeState::Suspect,
        node.evaluated(now).context.num_failures == node.context.num_failures,
        node.evaluated(now).context.last_state_change == now,
{
}

/// In every other case a peer stays as it is.
pub proof fn lemma_otherwise_unchanged(node: ManagedNode, now: Instant)
    requires
        match node.state {
            NodeState::Alive => node.context.gap(now).nanos <= Duration::from_secs(
                node.context.gossip_threshold,
            ).nanos,
            NodeState::Suspect => node.context.gap(now).nanos <= node.context.suspect_duration.nanos
                && (node.context.gap(now).nanos > recent_window().nanos || node.held(now).nanos
                < node.context.suspect_duration.nanos),
            NodeState::Dead => node.context.gap(now).nanos > recent_window().nanos,
        },
    ensures
        node.evaluated(now) == node,
{
}

/// A peer first heard of with the counter `observed` is suspect afterwards,
/// unless one to classify came with a counter above zero into a table whose
/// suspect duration is zero: such a peer has served its time at once and is
/// alive.
pub proof fn lemma_fresh_heard(
    suspect_duration: Duration,
    gossip_threshold: u64,
    observed: u64,
    now: Instant,
    classify: bool,
)
    ensures
        ({
            let node = ManagedNode::fresh(suspect_duration, gossip_threshold, now).heard(
                observed,
                now,
                classify,
            );
            &&& node.context.gossip == observed
            &&& node.context.gossip_ts == now
            &&& node.context.num_failures == 0
            &&& node.state == (if classify && observed > 0 && suspect_duration.nanos == 0 {
                NodeState::Alive
            } else {
                NodeState::Suspect
            })
        }),
{
}

/// No peer of `before` is missing in `after`, and no heartbeat counter is
/// lower there.
pub open spec fn heartbeats_kept(
    before: Map<PeerAddr, ManagedNode>,
    after: Map<PeerAddr, ManagedNode>,
) -> bool {
    forall|peer: PeerAddr| #[trigger]
        before.contains_key(peer) ==> after.contains_key(peer) && after[peer].context.gossip
            >= before[peer].context.gossip
}

/// The heartbeat counter of every peer in `nodes`.
pub open spec fn counts_of(nodes: Map<PeerAddr, ManagedNode>) -> Map<PeerAddr, u64> {
    Map::new(|a: PeerAddr| nodes.contains_key(a), |a: PeerAddr| nodes[a].context.gossip)
}

/// The membership table of one node.
///
/// Its view is the map from each known peer to that peer's entry.  Entries
/// are added and changed, never removed.
pub struct MembershipTable {
    nodes: AddrMap<ManagedNode>,
    suspect_duration: Duration,
    gossip_threshold: u64,
}

impl View for MembershipTable {
    type V = Map<PeerAddr, ManagedNode>;

    closed spec fn view(&self) -> Map<PeerAddr, ManagedNode> {
        self.nodes@
    }
}

impl MembershipTable {
    /// The table's internal invariant.
    pub closed spec fn wf(&self) -> bool {
        self.nodes.wf()
    }

    /// The suspect duration that new entries are given.
    pub closed spec fn spec_suspect_duration(&self) -> Duration {
        self.suspect_duration
    }

    /// The gossip threshold that new entries are given.
    pub closed spec fn spec_gossip_threshold(&self) -> u64 {
        self.gossip_threshold
    }

    /// The entry that a peer first heard of at `now` is given.
    pub open spec fn fresh(&self, now: Instant) -> ManagedNode {
        ManagedNode::fresh(self.spec_suspect_duration(), self.spec_gossip_threshold(), now)
    }

    /// The entry of `addr`, and a fresh one where `addr` is not known.
    pub open spec fn entry_or_fresh(&self, addr: PeerAddr, now: Instant) -> ManagedNode {
        if self@.contains_key(addr) {
            self@[addr]
        } else {
            self.fresh(now)
        }
    }

    /// The empty table whose entries will carry the given settings.
    pub fn new(suspect_duration: Duration, gossip_threshold: u64) -> (table: Self)
        ensures
            table.wf(),
            table@ == Map::<PeerAddr, ManagedNode>::empty(),
            table.spec_suspect_duration() == suspect_duration,
            table.spec_gossip_threshold() == gossip_threshold,
    {
        MembershipTable { nodes: AddrMap::new(), suspect_duration, gossip_threshold }
    }

    /// The suspect duration that new entries are given.
    #[verifier::when_used_as_spec(spec_suspect_duration)]
    pub fn suspect_duration(&self) -> (d: Duration)
        ensures
            d == self.spec_suspect_duration(),
    {
        self.suspect_duration
    }

    /// The gossip threshold, in seconds, that new entries are given.
    #[verifier::when_used_as_spec(spec_gossip_threshold)]
    pub fn gossip_threshold(&self) -> (secs: u64)
        ensures
            secs == self.spec_gossip_threshold(),
    {
        self.gossip_threshold
    }

    /// The number of known peers.
    pub fn len(&self) -> (n: usize)
        requires
            self.wf(),
        ensures
            self@.dom().finite(),
            n == self@.dom().len(),
    {
        self.nodes.len()
    }

    /// Whether `addr` is known.
    pub fn contains(&self, addr: &PeerAddr) -> (known: bool)
        requires
            self.wf(),
        ensures
            known == self@.contains_key(*addr),
    {
        self.nodes.contains_key(addr)
    }

    /// The entry of `addr`, if `addr` is known.
    pub fn get(&self, addr: &PeerAddr) -> (node: Option<ManagedNode>)
        requires
            self.wf(),
        ensures
            node == (if self@.contains_key(*addr) {
                Some(self@[*addr])
            } else {
                None
            }),
    {
        match self.nodes.get(addr) {
            Some(node) => Some(*node),
            None => None,
        }
    }

    /// The known peers, each once.
    pub fn addrs(&self) -> (addrs: Vec<PeerAddr>)
        requires
            self.wf(),
        ensures
            addrs@.no_duplicates(),
            addrs@.to_set() == self@.dom(),
    {
        self.nodes.keys()
    }

    /// Makes `addr` known: a peer not yet in the table gets a fresh entry
    /// stamped `now`, a known peer is left as it is.
    pub fn upsert(&mut self, addr: PeerAddr, now: Instant)
        requires
            old(self).wf(),
        ensures
            final(self).wf(),
            final(self)@ == old(self)@.insert(addr, old(self).entry_or_fresh(addr, now)),
            final(self).spec_suspect_duration() == old(self).spec_suspect_duration(),
            final(self).spec_gossip_threshold() == old(self).spec_gossip_threshold(),
    {
        if !self.nodes.contains_key(&addr) {
            let node = ManagedNode::new(self.suspect_duration, self.gossip_threshold, now);
            self.nodes.insert(addr, node);
        }
    }

    /// Hears the counter `observed` for `addr` at `now`: the entry of a known
    /// peer takes it over if it is larger than the recorded one.  Says
    /// whether the recorded counter advanced.
    pub fn merge_counter(
        &mut self,
        addr: PeerAddr,
        observed: u64,
        now: Instant,
    ) -> (advanced: bool)
        requires
            old(self).wf(),
        ensures
            final(self).wf(),
            advanced == (old(self)@.contains_key(addr)
                && observed > old(self)@[addr].context.gossip),
            final(self)@ == (if old(self)@.contains_key(addr) {
                old(self)@.insert(addr, old(self)@[addr].merged(observed, now))
            } else {
                old(self)@
            }),
            heartbeats_kept(old(self)@, final(self)@),
            final(self).spec_suspect_duration() == old(self).spec_suspect_duration(),
            final(self).spec_gossip_threshold() == old(self).spec_gossip_threshold(),
    {
        match self.get(&addr) {
            Some(node) => {
                let mut node = node;
                let advanced = node.merge_counter(observed, now);
                self.nodes.insert(addr, node);
                advanced
            },
            None => false,
        }
    }

    /// Records that `addr` moved to `new_state` at `now`.  An unknown peer
    /// is not added.
    pub fn set_state(&mut self, addr: PeerAddr, new_state: NodeState, now: Instant)
        requires
            old(self).wf(),
        ensures
            final(self).wf(),
            final(self)@ == (if old(self)@.contains_key(addr) {
                old(self)@.insert(addr, old(self)@[addr].entered(new_state, now))
            } else {
                old(self)@
            }),
            final(self).spec_suspect_duration() == old(self).spec_suspect_duration(),
            final(self).spec_gossip_threshold() == old(self).spec_gossip_threshold(),
    {
        match self.get(&addr) {
            Some(node) => {
                let mut node = node;
                node.set_state(new_state, now);
                self.nodes.insert(addr, node);
            },
            None => {},
        }
    }

    /// Runs the state machine of `addr` at `now` and records the move, if
    /// there is one.  Returns the state moved to.
    pub fn evaluate(&mut self, addr: PeerAddr, now: Instant) -> (next: Option<NodeState>)
        requires
            old(self).wf(),
        ensures
            final(self).wf(),
            next == (if old(self)@.contains_key(addr) {
                old(self)@[addr].decision(now)
            } else {
                None
            }),
            final(self)@ == (if old(self)@.contains_key(addr) {
                old(self)@.insert(addr, old(self)@[addr].evaluated(now))
            } else {
                old(self)@
            }),
            final(self).spec_suspect_duration() == old(self).spec_suspect_duration(),
            final(self).spec_gossip_threshold() == old(self).spec_gossip_threshold(),
    {
        match self.get(&addr) {
            Some(node) => {
                let next = node.decide(now);
                if let Some(state) = next {
                    self.set_state(addr, state, now);
                }
                next
            },
            None => None,
        }
    }

    /// Hears the counter `observed` for `addr` at `now`: makes the peer
    /// known, merges the counter and, where the counter advanced and the
    /// peer is one to `classify`, runs the peer's state machine.
    pub fn hear(&mut self, addr: PeerAddr, observed: u64, now: Instant, classify: bool)
        requires
            old(self).wf(),
        ensures
            final(self).wf(),
            final(self)@ == old(self)@.insert(
                addr,
                old(self).entry_or_fresh(addr, now).heard(observed, now, classify),
            ),
            heartbeats_kept(old(self)@, final(self)@),
            final(self).spec_suspect_duration() == old(self).spec_suspect_duration(),
            final(self).spec_gossip_threshold() == old(self).spec_gossip_threshold(),
    {
        self.upsert(addr, now);
        let advanced = self.merge_counter(addr, observed, now);
        if advanced && classify {
            self.evaluate(addr, now);
        }
    }

    /// A copy of every peer's heartbeat counter as it stands.
    pub fn snapshot_counts(&self) -> (counts: AddrMap<u64>)
        requires
            self.wf(),
        ensures
            counts.wf(),
            counts@ == counts_of(self@),
    {
        let addrs = self.nodes.keys();
        let mut counts: AddrMap<u64> = AddrMap::new();
        let mut i: usize = 0;
        while i < addrs.len()
            invariant
                self.wf(),
                counts.wf(),
                i <= addrs@.len(),
                addrs@.to_set() == self@.dom(),
                forall|a: PeerAddr|
                    counts@.contains_key(a) <==> addrs@.subrange(0, i as int).contains(a),
                forall|a: PeerAddr| #[trigger]
                    counts@.contains_key(a) ==> counts@[a] == self@[a].context.gossip,
            decreases addrs@.len() - i,
        {
            let addr = addrs[i];
            proof {
                lemma_prefix_grows(addrs@, i as int);
            }
            match self.nodes.get(&addr) {
                Some(node) => {
                    counts.insert(addr, node.context.gossip);
                },
                None => {},
            }
            i = i + 1;
        }
        proof {
            lemma_whole_prefix(addrs@);
        }
        counts
    }
}

} // verus!
