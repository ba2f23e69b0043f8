//! The messages that nodes exchange and the events a node can report.

use vstd::prelude::*;
use crate::addr::PeerAddr;
use crate::addr_map::AddrMap;
use crate::state::NodeState;

verus! {

/// One gossip message: the sender's whole view of the cluster.
#[derive(Clone, Debug)]
pub struct GossipMessage {
    /// The sender's own address.
    pub from: PeerAddr,
    /// The heartbeat counter of every peer the sender knows.
    pub gossip_counts: AddrMap<u64>,
    /// Reserved.  Sent empty, and carried unchanged where it is not.
    pub failover_list: Vec<PeerAddr>,
    /// Reserved.  Sent empty, and carried unchanged where it is not.
    pub starting_nodes: Vec<PeerAddr>,
}

/// What a gossip message says.
pub struct GossipMessageView {
    pub from: PeerAddr,
    pub gossip_counts: Map<PeerAddr, u64>,
    pub failover_list: Seq<PeerAddr>,
    pub starting_nodes: Seq<PeerAddr>,
}

impl View for GossipMessage {
    type V = GossipMessageView;

    open spec fn view(&self) -> GossipMessageView {
        GossipMessageView {
            from: self.from,
            gossip_counts: self.gossip_counts@,
            failover_list: self.failover_list@,
            starting_nodes: self.starting_nodes@,
        }
    }
}

impl GossipMessage {
    /// The message's counters form a proper map.
    pub open spec fn wf(&self) -> bool {
        self.gossip_counts.wf()
    }

    /// The message that `from` sends to spread `gossip_counts`, with the
    /// reserved lists empty.
    pub fn new(from: PeerAddr, gossip_counts: AddrMap<u64>) -> (message: Self)
        requires
            gossip_counts.wf(),
        ensures
            message.wf(),
            message@ == (GossipMessageView {
                from,
                gossip_counts: gossip_counts@,
                failover_list: Seq::empty(),
                starting_nodes: Seq::empty(),
            }),
    {
        GossipMessage {
            from,
            gossip_counts,
            failover_list: Vec::new(),
            starting_nodes: Vec::new(),
        }
    }
}

/// Something that happened at a node.
#[derive(Clone, Debug)]
pub enum Event {
    /// A gossip message arrived from the transport address `from`.
    GossipReceived { from: PeerAddr, message: GossipMessage },
    /// The peer `node` was moved to `state`.
    NodeStateChanged { node: PeerAddr, state: NodeState },
    /// The peer `addr` became known.
    NodeAdded { addr: PeerAddr },
    /// The peer `addr` was dropped.
    NodeRemoved { addr: PeerAddr },
}

} // verus!
