//! What holds over the whole life of a detector.
//!
//! A detector's table changes in steps: a peer is added, the node starts, a
//! gossip message is handled, the timer ticks.  This module writes a course
//! of such steps down as a sequence and proves what every course has in
//! common.

use vstd::prelude::*;
use crate::addr::PeerAddr;
use crate::failure_detector::{
    after_add, after_gossip, after_start, after_tick, gossip_of, newcomers_suspect, Settings,
};
use crate::membership::{heartbeats_kept, ManagedNode};
use crate::time::Instant;

verus! {

/// One thing that happens to a detector.
pub enum Step {
    /// A peer is made known.
    AddNode { addr: PeerAddr, now: Instant },
    /// The node starts.
    Start { now: Instant },
    /// A gossip message with the given counters is handled.
    Gossip { counts: Map<PeerAddr, u64>, now: Instant },
    /// The periodic tick is handled.
    Tick { now: Instant },
}

/// The table after one step.
pub open spec fn after_step(
    nodes: Map<PeerAddr, ManagedNode>,
    settings: Settings,
    step: Step,
) -> Map<PeerAddr, ManagedNode> {
    match step {
        Step::AddNode { addr, now } => after_add(nodes, addr, settings, now),
        Step::Start { now } => after_start(nodes, settings, now),
        Step::Gossip { counts, now } => after_gossip(nodes, counts, settings, now),
        Step::Tick { now } => after_tick(nodes, settings.self_addr, now),
    }
}

/// The table after the steps in `steps`, taken in their order.
pub open spec fn after_steps(
    nodes: Map<PeerAddr, ManagedNode>,
    settings: Settings,
    steps: Seq<Step>,
) -> Map<PeerAddr, ManagedNode>
    decreases steps.len(),
{
    if steps.len() == 0 {
        nodes
    } else {
        after_step(after_steps(nodes, settings, steps.drop_last()), settings, steps.last())
    }
}

/// The number of ticks among `steps`.
pub open spec fn ticks_in(steps: Seq<Step>) -> nat
    decreases steps.len(),
{
    if steps.len() == 0 {
        0
    } else if steps.last() is Tick {
        ticks_in(steps.drop_last()) + 1
    } else {
        ticks_in(steps.drop_last())
    }
}

/// A counter `count` after `more` increments that stop at the largest
/// value.
pub open spec fn grown(count: u64, more: nat) -> int {
    if count + more <= u64::MAX {
        count + more
    } else {
        u64::MAX as int
    }
}

/// No step removes a peer or lowers a heartbeat counter.
pub proof fn lemma_step_keeps_heartbeats(
    nodes: Map<PeerAddr, ManagedNode>,
    settings: Settings,
    step: Step,
)
    ensures
        heartbeats_kept(nodes, after_step(nodes, settings, step)),
{
}

/// Monotonic heartbeats: over any course of steps, a peer once known stays
/// known and its heartbeat counter never decreases.  `earlier` and `later`
/// are the numbers of steps taken at two moments of the course.
pub proof fn lemma_heartbeats_never_decrease(
    nodes: Map<PeerAddr, ManagedNode>,
    settings: Settings,
    steps: Seq<Step>,
    earlier: int,
    later: int,
)
    requires
        0 <= earlier <= later <= steps.len(),
    ensures
        heartbeats_kept(
            after_steps(nodes, settings, steps.subrange(0, earlier)),
            after_steps(nodes, settings, steps.subrange(0, later)),
        ),
    decreases later - earlier,
{
    if earlier < later {
        lemma_heartbeats_never_decrease(nodes, settings, steps, earlier, later - 1);
        assert(steps.subrange(0, later).drop_last() =~= steps.subrange(0, later - 1));
        lemma_step_keeps_heartbeats(
            after_steps(nodes, settings, steps.subrange(0, later - 1)),
            settings,
            steps[later - 1],
        );
    }
}

/// Making a peer known twice is making it known once: the second time
/// changes nothing, whenever it happens.
pub proof fn lemma_add_is_idempotent(
    nodes: Map<PeerAddr, ManagedNode>,
    addr: PeerAddr,
    settings: Settings,
    first: Instant,
    second: Instant,
)
    ensures
        after_add(after_add(nodes, addr, settings, first), addr, settings, second) == after_add(
            nodes,
            addr,
            settings,
            first,
        ),
{
}

/// Lazy discovery: a peer that a node first meets among the counters of a
/// gossip message is known afterwards, whether or not it is a seed node,
/// and starts as a suspect.
pub proof fn lemma_lazy_discovery(
    nodes: Map<PeerAddr, ManagedNode>,
    counts: Map<PeerAddr, u64>,
    settings: Settings,
    now: Instant,
)
    ensures
        newcomers_suspect(nodes, counts, settings, after_gossip(nodes, counts, settings, now)),
{
}

/// The table after a tick at each of `times`, in their order.
pub open spec fn after_ticks(
    nodes: Map<PeerAddr, ManagedNode>,
    self_addr: PeerAddr,
    times: Seq<Instant>,
) -> Map<PeerAddr, ManagedNode>
    decreases times.len(),
{
    if times.len() == 0 {
        nodes
    } else {
        after_tick(after_ticks(nodes, self_addr, times.drop_last()), self_addr, times.last())
    }
}

/// The node's own heartbeat counts its ticks: after as many ticks as
/// `times` has moments, the counter of a node that is in its own table has
/// grown by that many, and that is the counter which the node's next message
/// carries for it.
pub proof fn lemma_own_heartbeat_counts_ticks(
    nodes: Map<PeerAddr, ManagedNode>,
    self_addr: PeerAddr,
    times: Seq<Instant>,
)
    requires
        nodes.contains_key(self_addr),
    ensures
        after_ticks(nodes, self_addr, times).contains_key(self_addr),
        after_ticks(nodes, self_addr, times)[self_addr].context.gossip == grown(
            nodes[self_addr].context.gossip,
            times.len(),
        ),
        gossip_of(after_ticks(nodes, self_addr, times), self_addr).gossip_counts[self_addr]
            == grown(nodes[self_addr].context.gossip, times.len()),
    decreases times.len(),
{
    if times.len() > 0 {
        lemma_own_heartbeat_counts_ticks(nodes, self_addr, times.drop_last());
    }
}

/// Whatever else happens between the ticks, the node's own heartbeat has
/// grown by at least the number of ticks.
pub proof fn lemma_own_heartbeat_outgrows_ticks(
    nodes: Map<PeerAddr, ManagedNode>,
    settings: Settings,
    steps: Seq<Step>,
)
    requires
        nodes.contains_key(settings.self_addr),
    ensures
        after_steps(nodes, settings, steps).contains_key(settings.self_addr),
        after_steps(nodes, settings, steps)[settings.self_addr].context.gossip >= grown(
            nodes[settings.self_addr].context.gossip,
            ticks_in(steps),
        ),
    decreases steps.len(),
{
    if steps.len() > 0 {
        lemma_own_heartbeat_outgrows_ticks(nodes, settings, steps.drop_last());
    }
}

} // verus!
