//! The gossip engine: it merges the views it hears, advances its own
//! heartbeat on every tick, and picks the peers to gossip with.
//!
//! The engine decides and the caller acts.  The caller receives messages and
//! reads the clock, hands both to the engine, and sends what
//! [`FailureDetector::tick`] returns.

use rand::seq::IteratorRandom;
use vstd::prelude::*;
use crate::addr::PeerAddr;
use crate::events::{GossipMessage, GossipMessageView};
use crate::membership::{
    counts_of, heartbeats_kept, next_heartbeat, ManagedNode, MembershipTable,
};
use crate::state::NodeState;
use crate::seqs::{lemma_prefix_grows, lemma_push_contains, lemma_whole_prefix};
use crate::time::{Duration, Instant};

verus! {

/// The settings of a detector.  They are fixed when it is built.
pub struct Settings {
    /// The node's own address.  It is never a gossip target.
    pub self_addr: PeerAddr,
    /// The peers to start from.
    pub seed_nodes: Seq<PeerAddr>,
    /// The time between two gossip rounds.
    pub gossip_interval: Duration,
    /// How long a peer stays suspect before it is condemned or cleared.
    pub suspect_duration: Duration,
    /// The number of peers to gossip with in one round.
    pub fanout: usize,
    /// The seconds of silence after which an alive peer becomes suspect.
    pub gossip_threshold: u64,
}

/// A gossip-style failure detector for one node.
///
/// Its view is the membership table: the map from each known peer to that
/// peer's entry.
pub struct FailureDetector {
    self_addr: PeerAddr,
    nodes: MembershipTable,
    seed_nodes: Vec<PeerAddr>,
    gossip_interval: Duration,
    suspect_duration: Duration,
    fanout: usize,
    gossip_threshold: u64,
}

impl View for FailureDetector {
    type V = Map<PeerAddr, ManagedNode>;

    closed spec fn view(&self) -> Map<PeerAddr, ManagedNode> {
        self.nodes@
    }
}

/// The table after a message with the counters `counts` was handled at
/// `now`.
///
/// Every address in `counts` is known afterwards.  Its entry, fresh if the
/// address was new, has heard the counter; the state machine ran for it if
/// the counter advanced and the address is not the node's own.  All other
/// entries are as they were.
pub open spec fn after_gossip(
    nodes: Map<PeerAddr, ManagedNode>,
    counts: Map<PeerAddr, u64>,
    settings: Settings,
    now: Instant,
) -> Map<PeerAddr, ManagedNode> {
    Map::new(
        |a: PeerAddr| nodes.contains_key(a) || counts.contains_key(a),
        |a: PeerAddr|
            if counts.contains_key(a) {
                let before = if nodes.contains_key(a) {
                    nodes[a]
                } else {
                    ManagedNode::fresh(settings.suspect_duration, settings.gossip_threshold, now)
                };
                before.heard(counts[a], now, a != settings.self_addr)
            } else {
                nodes[a]
            },
    )
}

/// Every peer that is new to `before` and among `counts` is known in
/// `after`, with the counter that `counts` gives it.  It is suspect, unless
/// it is a peer other than the node itself that came with a counter above
/// zero while the suspect duration is zero: such a peer has no time to serve
/// and is alive.
pub open spec fn newcomers_suspect(
    before: Map<PeerAddr, ManagedNode>,
    counts: Map<PeerAddr, u64>,
    settings: Settings,
    after: Map<PeerAddr, ManagedNode>,
) -> bool {
    forall|peer: PeerAddr|
        !before.contains_key(peer) && #[trigger] counts.contains_key(peer) ==> {
            &&& after.contains_key(peer)
            &&& after[peer].context.gossip == counts[peer]
            &&& after[peer].state == (if peer != settings.self_addr && counts[peer] > 0
                && settings.suspect_duration.nanos == 0 {
                NodeState::Alive
            } else {
                NodeState::Suspect
            })
        }
}

/// The message `sent` carries for the node the heartbeat counter that
/// follows the one in `before`, if the node is in its own table.
pub open spec fn own_heartbeat_sent(
    before: Map<PeerAddr, ManagedNode>,
    self_addr: PeerAddr,
    sent: GossipMessageView,
) -> bool {
    before.contains_key(self_addr) ==> sent.gossip_counts.contains_key(self_addr)
        && sent.gossip_counts[self_addr] == next_heartbeat(before[self_addr].context.gossip)
}

/// The table after `addr` was made known at `now`: a new peer has a fresh
/// entry, a known peer the entry it had.
pub open spec fn after_add(
    nodes: Map<PeerAddr, ManagedNode>,
    addr: PeerAddr,
    settings: Settings,
    now: Instant,
) -> Map<PeerAddr, ManagedNode> {
    if nodes.contains_key(addr) {
        nodes
    } else {
        nodes.insert(
            addr,
            ManagedNode::fresh(settings.suspect_duration, settings.gossip_threshold, now),
        )
    }
}

/// The table after the node's own heartbeat advanced at `now`: the node's
/// own entry, if there is one, has beaten once more.
pub open spec fn after_beat(
    nodes: Map<PeerAddr, ManagedNode>,
    self_addr: PeerAddr,
    now: Instant,
) -> Map<PeerAddr, ManagedNode> {
    if nodes.contains_key(self_addr) {
        nodes.insert(self_addr, nodes[self_addr].beat(now))
    } else {
        nodes
    }
}

/// The table after the state machine of every peer ran at `now`.  The node's
/// own entry is not classified.
pub open spec fn after_sweep(
    nodes: Map<PeerAddr, ManagedNode>,
    self_addr: PeerAddr,
    now: Instant,
) -> Map<PeerAddr, ManagedNode> {
    Map::new(
        |a: PeerAddr| nodes.contains_key(a),
        |a: PeerAddr|
            if a == self_addr {
                nodes[a]
            } else {
                nodes[a].evaluated(now)
            },
    )
}

/// The table after a tick at `now`: the node's own heartbeat advanced, then
/// every peer's state machine ran.
pub open spec fn after_tick(
    nodes: Map<PeerAddr, ManagedNode>,
    self_addr: PeerAddr,
    now: Instant,
) -> Map<PeerAddr, ManagedNode> {
    after_sweep(after_beat(nodes, self_addr, now), self_addr, now)
}

/// The table after the node started at `now`: the node itself and its seed
/// nodes are known.
pub open spec fn after_start(
    nodes: Map<PeerAddr, ManagedNode>,
    settings: Settings,
    now: Instant,
) -> Map<PeerAddr, ManagedNode> {
    after_seeding(
        after_add(nodes, settings.self_addr, settings, now),
        settings.seed_nodes,
        settings,
        now,
    )
}

/// The table after the peers in `seeds` were made known at `now`.
pub open spec fn after_seeding(
    nodes: Map<PeerAddr, ManagedNode>,
    seeds: Seq<PeerAddr>,
    settings: Settings,
    now: Instant,
) -> Map<PeerAddr, ManagedNode> {
    Map::new(
        |a: PeerAddr| nodes.contains_key(a) || seeds.contains(a),
        |a: PeerAddr|
            if nodes.contains_key(a) {
                nodes[a]
            } else {
                ManagedNode::fresh(settings.suspect_duration, settings.gossip_threshold, now)
            },
    )
}

/// The message that a node with the table `nodes` gossips.
pub open spec fn gossip_of(nodes: Map<PeerAddr, ManagedNode>, self_addr: PeerAddr) -> GossipMessageView {
    GossipMessageView {
        from: self_addr,
        gossip_counts: counts_of(nodes),
        failover_list: Seq::empty(),
        starting_nodes: Seq::empty(),
    }
}

/// What a node does in one gossip round: it sends `message` to each of
/// `targets`.
pub struct GossipRound {
    pub message: GossipMessage,
    pub targets: Vec<PeerAddr>,
}

/// The peers that a node with the table `nodes` may gossip with: every known
/// address but its own.
pub open spec fn gossip_candidates(nodes: Map<PeerAddr, ManagedNode>, self_addr: PeerAddr) -> Set<
    PeerAddr,
> {
    nodes.dom().remove(self_addr)
}

/// Whether `targets` are the targets of one gossip round of a node with the
/// table `nodes`: peers that the node knows, none of them the node itself,
/// none of them twice, and as many as the fanout asks for, or all there are
/// where there are fewer.
pub open spec fn well_chosen(
    targets: Seq<PeerAddr>,
    nodes: Map<PeerAddr, ManagedNode>,
    self_addr: PeerAddr,
    fanout: usize,
) -> bool {
    &&& targets.no_duplicates()
    &&& !targets.contains(self_addr)
    &&& targets.to_set().subset_of(gossip_candidates(nodes, self_addr))
    &&& gossip_candidates(nodes, self_addr).finite()
    &&& targets.len() == vstd::math::min(
        fanout as int,
        gossip_candidates(nodes, self_addr).len() as int,
    )
}

/// Picks `amount` of the `candidates` at random.
///
/// This is `rand::seq::IteratorRandom::choose_multiple` on the candidates in
/// their order, with the generator that `rand::thread_rng` hands out.  It
/// fills a reservoir with the first `amount` items and lets each later item
/// replace a random slot or none, so what comes back is `amount` items taken
/// from distinct places of `candidates`, in no particular order.  The
/// contract claims that much and nothing about which items are taken.
/// `amount` may not exceed the number of candidates: the reservoir is
/// allocated for `amount` items before the first one is read.
#[verifier::external_body]
fn choose_multiple(candidates: &Vec<PeerAddr>, amount: usize) -> (chosen: Vec<PeerAddr>)
    requires
        amount <= candidates@.len(),
    ensures
        chosen@.len() == amount,
        chosen@.to_multiset().subset_of(candidates@.to_multiset()),
{
    let mut rng = rand::thread_rng();
    candidates.iter().copied().choose_multiple(&mut rng, amount)
}

/// Items taken from distinct places of a sequence without duplicates are
/// distinct, and each of them is in the sequence.
proof fn lemma_chosen_distinct(chosen: Seq<PeerAddr>, candidates: Seq<PeerAddr>)
    requires
        candidates.no_duplicates(),
        chosen.to_multiset().subset_of(candidates.to_multiset()),
    ensures
        chosen.no_duplicates(),
        forall|i: int| 0 <= i < chosen.len() ==> candidates.contains(#[trigger] chosen[i]),
{
    chosen.to_multiset_ensures();
    candidates.to_multiset_ensures();
    candidates.lemma_multiset_has_no_duplicates();
    chosen.lemma_multiset_has_no_duplicates_conv();
    assert forall|i: int| 0 <= i < chosen.len() implies candidates.contains(
        #[trigger] chosen[i],
    ) by {
        let x = chosen[i];
        assert(chosen.to_multiset().count(x) > 0);
    }
}

impl FailureDetector {
    /// The detector's internal invariant.
    pub closed spec fn wf(&self) -> bool {
        &&& self.nodes.wf()
        &&& self.nodes.spec_suspect_duration() == self.suspect_duration
        &&& self.nodes.spec_gossip_threshold() == self.gossip_threshold
    }

    /// The detector's settings.
    pub closed spec fn settings(&self) -> Settings {
        Settings {
            self_addr: self.self_addr,
            seed_nodes: self.seed_nodes@,
            gossip_interval: self.gossip_interval,
            suspect_duration: self.suspect_duration,
            fanout: self.fanout,
            gossip_threshold: self.gossip_threshold,
        }
    }

    /// Makes `addr` known at `now`: a new peer starts suspect with no
    /// heartbeat, a known peer is left as it is.
    pub fn add_node(&mut self, addr: PeerAddr, now: Instant)
        requires
            old(self).wf(),
        ensures
            final(self).wf(),
            final(self).settings() == old(self).settings(),
            final(self)@ == after_add(old(self)@, addr, old(self).settings(), now),
    {
        self.nodes.upsert(addr, now);
    }

    /// Handles the gossip message `msg`, received at `now`.
    ///
    /// Every address among the message's counters becomes known, each
    /// counter is merged, and the state machine of every peer whose counter
    /// advanced is run.
    pub fn handle_gossip(&mut self, msg: &GossipMessage, now: Instant)
        requires
            old(self).wf(),
            msg.wf(),
        ensures
            final(self).wf(),
            final(self).settings() == old(self).settings(),
            final(self)@ == after_gossip(
                old(self)@,
                msg@.gossip_counts,
                old(self).settings(),
                now,
            ),
            heartbeats_kept(old(self)@, final(self)@),
            newcomers_suspect(
                old(self)@,
                msg@.gossip_counts,
                old(self).settings(),
                final(self)@,
            ),
    {
        let addrs = msg.gossip_counts.keys();
        let ghost counts = msg@.gossip_counts;
        let ghost settings = self.settings();
        let mut i: usize = 0;
        while i < addrs.len()
            invariant
                self.wf(),
                msg.wf(),
                self.settings() == settings,
                counts == msg.gossip_counts@,
                i <= addrs@.len(),
                addrs@.no_duplicates(),
                addrs@.to_set() == counts.dom(),
                self@ == after_gossip(
                    old(self)@,
                    counts.restrict(addrs@.subrange(0, i as int).to_set()),
                    settings,
                    now,
                ),
            decreases addrs@.len() - i,
        {
            let addr = addrs[i];
            proof {
                lemma_prefix_grows(addrs@, i as int);
            }
            let observed: u64 = match msg.gossip_counts.get(&addr) {
                Some(count) => *count,
                None => 0,
            };
            self.nodes.hear(addr, observed, now, addr != self.self_addr);
            i = i + 1;
        }
        proof {
            lemma_whole_prefix(addrs@);
        }
    }

    /// The known peers other than the node itself, each once.
    fn candidates(&self) -> (candidates: Vec<PeerAddr>)
        requires
            self.wf(),
        ensures
            candidates@.no_duplicates(),
            candidates@.to_set() == gossip_candidates(self@, self.settings().self_addr),
            gossip_candidates(self@, self.settings().self_addr).finite(),
            candidates@.len() == gossip_candidates(self@, self.settings().self_addr).len(),
    {
        let addrs = self.nodes.addrs();
        let mut candidates: Vec<PeerAddr> = Vec::new();
        let mut i: usize = 0;
        while i < addrs.len()
            invariant
                i <= addrs@.len(),
                addrs@.no_duplicates(),
                candidates@.no_duplicates(),
                forall|a: PeerAddr|
                    candidates@.contains(a) <==> (a != self.self_addr && addrs@.subrange(
                        0,
                        i as int,
                    ).contains(a)),
            decreases addrs@.len() - i,
        {
            let addr = addrs[i];
            proof {
                lemma_prefix_grows(addrs@, i as int);
                lemma_push_contains(candidates@, addr);
            }
            if addr != self.self_addr {
                candidates.push(addr);
            }
            i = i + 1;
        }
        proof {
            lemma_whole_prefix(addrs@);
            assert(candidates@.to_set() =~= gossip_candidates(self@, self.settings().self_addr));
            candidates@.unique_seq_to_set();
        }
        candidates
    }

    /// Picks the peers to gossip with in one round: `fanout` known peers
    /// chosen at random, or all of them where fewer are known.  The node's
    /// own address is never among them and no peer is picked twice.
    pub fn select_gossip_targets(&self) -> (targets: Vec<PeerAddr>)
        requires
            self.wf(),
        ensures
            well_chosen(targets@, self@, self.settings().self_addr, self.settings().fanout),
    {
        let candidates = self.candidates();
        let amount: usize = if self.fanout <= candidates.len() {
            self.fanout
        } else {
            candidates.len()
        };
        let targets = choose_multiple(&candidates, amount);
        proof {
            lemma_chosen_distinct(targets@, candidates@);
            if targets@.contains(self.self_addr) {
                let at = targets@.index_of(self.self_addr);
                assert(candidates@.to_set().contains(targets@[at]));
            }
        }
        targets
    }

    /// Starts the node at `now`: makes the node itself and every seed node
    /// known, as [`Self::add_node`] does.
    ///
    /// The node's own entry is what [`Self::tick`] advances and what the
    /// node's messages carry of the node.
    pub fn start(&mut self, now: Instant)
        requires
            old(self).wf(),
        ensures
            final(self).wf(),
            final(self).settings() == old(self).settings(),
            final(self)@ == after_start(old(self)@, old(self).settings(), now),
    {
        self.add_node(self.self_addr, now);
        let ghost settings = self.settings();
        let ghost seeds = self.seed_nodes@;
        let ghost started = self@;
        let mut i: usize = 0;
        while i < self.seed_nodes.len()
            invariant
                self.wf(),
                self.settings() == settings,
                seeds == settings.seed_nodes,
                i <= seeds.len(),
                self@ == after_seeding(started, seeds.subrange(0, i as int), settings, now),
            decreases seeds.len() - i,
        {
            let addr = self.seed_nodes[i];
            proof {
                lemma_prefix_grows(seeds, i as int);
            }
            self.nodes.upsert(addr, now);
            i = i + 1;
        }
        proof {
            lemma_whole_prefix(seeds);
        }
    }

    /// Advances the node's own heartbeat at `now`: if the node's own address
    /// is in the table, its counter grows by one and is stamped `now`.
    pub fn beat(&mut self, now: Instant)
        requires
            old(self).wf(),
        ensures
            final(self).wf(),
            final(self).settings() == old(self).settings(),
            final(self)@ == after_beat(old(self)@, old(self).settings().self_addr, now),
    {
        match self.nodes.get(&self.self_addr) {
            Some(node) => {
                let next: u64 = if node.context.gossip < u64::MAX {
                    node.context.gossip + 1
                } else {
                    node.context.gossip
                };
                self.nodes.merge_counter(self.self_addr, next, now);
            },
            None => {},
        }
    }

    /// Runs the state machine of every known peer at `now`, the node's own
    /// entry left out, and records the moves.
    pub fn sweep(&mut self, now: Instant)
        requires
            old(self).wf(),
        ensures
            final(self).wf(),
            final(self).settings() == old(self).settings(),
            final(self)@ == after_sweep(old(self)@, old(self).settings().self_addr, now),
    {
        let addrs = self.nodes.addrs();
        let ghost settings = self.settings();
        let mut i: usize = 0;
        while i < addrs.len()
            invariant
                self.wf(),
                self.settings() == settings,
                settings == old(self).settings(),
                i <= addrs@.len(),
                addrs@.no_duplicates(),
                addrs@.to_set() == old(self)@.dom(),
                self@.dom() == old(self)@.dom(),
                forall|a: PeerAddr| #[trigger]
                    self@.contains_key(a) ==> self@[a] == (if a != settings.self_addr
                        && addrs@.subrange(0, i as int).contains(a) {
                        old(self)@[a].evaluated(now)
                    } else {
                        old(self)@[a]
                    }),
            decreases addrs@.len() - i,
        {
            let addr = addrs[i];
            proof {
                lemma_prefix_grows(addrs@, i as int);
            }
            if addr != self.self_addr {
                self.nodes.evaluate(addr, now);
            }
            i = i + 1;
        }
        proof {
            lemma_whole_prefix(addrs@);
        }
    }

    /// The message that the node gossips: its own address and a copy of
    /// every known peer's heartbeat counter.
    pub fn snapshot(&self) -> (message: GossipMessage)
        requires
            self.wf(),
        ensures
            message.wf(),
            message@ == gossip_of(self@, self.settings().self_addr),
    {
        GossipMessage::new(self.self_addr, self.nodes.snapshot_counts())
    }

    /// Handles the periodic tick at `now` and says what to send.
    ///
    /// The node's own heartbeat advances, every peer's state machine runs,
    /// and the round's message is a snapshot of the table after both.  The
    /// targets are picked as [`Self::select_gossip_targets`] does.
    pub fn tick(&mut self, now: Instant) -> (round: GossipRound)
        requires
            old(self).wf(),
        ensures
            final(self).wf(),
            final(self).settings() == old(self).settings(),
            final(self)@ == after_tick(old(self)@, old(self).settings().self_addr, now),
            round.message.wf(),
            round.message@ == gossip_of(final(self)@, old(self).settings().self_addr),
            heartbeats_kept(old(self)@, final(self)@),
            own_heartbeat_sent(old(self)@, old(self).settings().self_addr, round.message@),
            well_chosen(
                round.targets@,
                final(self)@,
                old(self).settings().self_addr,
                old(self).settings().fanout,
            ),
    {
        self.beat(now);
        self.sweep(now);
        let message = self.snapshot();
        let targets = self.select_gossip_targets();
        GossipRound { message, targets }
    }

    /// A builder for the detector of the node at `bind_addr`, with the
    /// default settings.
    pub fn builder(bind_addr: PeerAddr) -> (builder: FailureDetectorBuilder)
        ensures
            builder@ == BuilderView::defaults(bind_addr),
    {
        FailureDetectorBuilder::new(bind_addr)
    }

    /// The node's own address.
    pub fn self_addr(&self) -> (addr: PeerAddr)
        ensures
            addr == self.settings().self_addr,
    {
        self.self_addr
    }

    /// The peers to start from.
    pub fn seed_nodes(&self) -> (seeds: &Vec<PeerAddr>)
        ensures
            seeds@ == self.settings().seed_nodes,
    {
        &self.seed_nodes
    }

    /// The time between two gossip rounds.
    pub fn gossip_interval(&self) -> (interval: Duration)
        ensures
            interval == self.settings().gossip_interval,
    {
        self.gossip_interval
    }

    /// How long a peer stays suspect before it is condemned or cleared.
    pub fn suspect_duration(&self) -> (duration: Duration)
        ensures
            duration == self.settings().suspect_duration,
    {
        self.suspect_duration
    }

    /// The number of peers to gossip with in one round.
    pub fn fanout(&self) -> (fanout: usize)
        ensures
            fanout == self.settings().fanout,
    {
        self.fanout
    }

    /// The seconds of silence after which an alive peer becomes suspect.
    pub fn gossip_threshold(&self) -> (secs: u64)
        ensures
            secs == self.settings().gossip_threshold,
    {
        self.gossip_threshold
    }

    /// The number of known peers, the node itself counted if it is in the
    /// table.
    pub fn len(&self) -> (n: usize)
        requires
            self.wf(),
        ensures
            self@.dom().finite(),
            n == self@.dom().len(),
    {
        self.nodes.len()
    }

    /// The entry of `addr`, if `addr` is known.
    pub fn node(&self, addr: &PeerAddr) -> (node: Option<ManagedNode>)
        requires
            self.wf(),
        ensures
            node == (if self@.contains_key(*addr) {
                Some(self@[*addr])
            } else {
                None
            }),
    {
        self.nodes.get(addr)
    }

    /// The known addresses, each once.
    pub fn peers(&self) -> (peers: Vec<PeerAddr>)
        requires
            self.wf(),
        ensures
            peers@.no_duplicates(),
            peers@.to_set() == self@.dom(),
    {
        self.nodes.addrs()
    }
}

/// Collects the settings of a [`FailureDetector`].
pub struct FailureDetectorBuilder {
    bind_addr: PeerAddr,
    seed_nodes: Vec<PeerAddr>,
    gossip_interval: Duration,
    suspect_timeout: Duration,
    fanout: usize,
    gossip_threshold: Option<u64>,
}

/// What a builder has collected.
pub struct BuilderView {
    pub bind_addr: PeerAddr,
    pub seed_nodes: Seq<PeerAddr>,
    pub gossip_interval: Duration,
    pub suspect_timeout: Duration,
    pub fanout: usize,
    /// The gossip threshold in seconds, where one was given.
    pub gossip_threshold: Option<u64>,
}

impl BuilderView {
    /// The defaults: no seed nodes, a round every second, five seconds of
    /// suspicion, three targets a round, and no gossip threshold of its own.
    pub open spec fn defaults(bind_addr: PeerAddr) -> BuilderView {
        BuilderView {
            bind_addr,
            seed_nodes: Seq::empty(),
            gossip_interval: Duration::from_secs(1),
            suspect_timeout: Duration::from_secs(5),
            fanout: 3,
            gossip_threshold: None,
        }
    }

    /// The settings of the detector that is built from this.  Where no
    /// gossip threshold was given, it is as many seconds as the fanout.
    pub open spec fn settings(self) -> Settings {
        Settings {
            self_addr: self.bind_addr,
            seed_nodes: self.seed_nodes,
            gossip_interval: self.gossip_interval,
            suspect_duration: self.suspect_timeout,
            fanout: self.fanout,
            gossip_threshold: match self.gossip_threshold {
                Some(secs) => secs,
                None => self.fanout as u64,
            },
        }
    }
}

impl View for FailureDetectorBuilder {
    type V = BuilderView;

    closed spec fn view(&self) -> BuilderView {
        BuilderView {
            bind_addr: self.bind_addr,
            seed_nodes: self.seed_nodes@,
            gossip_interval: self.gossip_interval,
            suspect_timeout: self.suspect_timeout,
            fanout: self.fanout,
            gossip_threshold: self.gossip_threshold,
        }
    }
}

impl FailureDetectorBuilder {
    /// A builder for the detector of the node at `bind_addr`, with the
    /// default settings.
    pub fn new(bind_addr: PeerAddr) -> (builder: Self)
        ensures
            builder@ == BuilderView::defaults(bind_addr),
    {
        Self {
            bind_addr,
            seed_nodes: Vec::new(),
            gossip_interval: Duration::from_secs(1),
            suspect_timeout: Duration::from_secs(5),
            fanout: 3,
            gossip_threshold: None,
        }
    }

    /// Sets the peers to start from.
    pub fn with_seed_nodes(self, nodes: Vec<PeerAddr>) -> (builder: Self)
        ensures
            builder@ == (BuilderView { seed_nodes: nodes@, ..self@ }),
    {
        let mut builder = self;
        builder.seed_nodes = nodes;
        builder
    }

    /// Sets the time between two gossip rounds.
    pub fn with_gossip_interval(self, interval: Duration) -> (builder: Self)
        ensures
            builder@ == (BuilderView { gossip_interval: interval, ..self@ }),
    {
        let mut builder = self;
        builder.gossip_interval = interval;
        builder
    }

    /// Sets how long a peer stays suspect before it is condemned or
    /// cleared.
    pub fn with_suspect_timeout(self, timeout: Duration) -> (builder: Self)
        ensures
            builder@ == (BuilderView { suspect_timeout: timeout, ..self@ }),
    {
        let mut builder = self;
        builder.suspect_timeout = timeout;
        builder
    }

    /// Sets the number of peers to gossip with in one round.
    pub fn with_fanout(self, fanout: usize) -> (builder: Self)
        ensures
            builder@ == (BuilderView { fanout, ..self@ }),
    {
        let mut builder = self;
        builder.fanout = fanout;
        builder
    }

    /// Sets the seconds of silence after which an alive peer becomes
    /// suspect.  Without this the threshold is as many seconds as the
    /// fanout.
    pub fn with_gossip_threshold(self, secs: u64) -> (builder: Self)
        ensures
            builder@ == (BuilderView { gossip_threshold: Some(secs), ..self@ }),
    {
        let mut builder = self;
        builder.gossip_threshold = Some(secs);
        builder
    }

    /// The detector with the collected settings.  It knows no peer yet.
    pub fn build(self) -> (detector: FailureDetector)
        ensures
            detector.wf(),
            detector.settings() == self@.settings(),
            detector@ == Map::<PeerAddr, ManagedNode>::empty(),
    {
        let gossip_threshold: u64 = match self.gossip_threshold {
            Some(secs) => secs,
            None => self.fanout as u64,
        };
        FailureDetector {
            self_addr: self.bind_addr,
            nodes: MembershipTable::new(self.suspect_timeout, gossip_threshold),
            seed_nodes: self.seed_nodes,
            gossip_interval: self.gossip_interval,
            suspect_duration: self.suspect_timeout,
            fanout: self.fanout,
            gossip_threshold,
        }
    }
}

} // verus!
