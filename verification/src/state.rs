//! The liveness state machine of one peer.
//!
//! A peer is alive, suspect or dead.  Which state follows is decided from
//! two spans: the *gap* since the peer's heartbeat counter last advanced,
//! and the time the peer has been *held* in its present state.  Deciding
//! changes nothing; the membership table records the transition.

use vstd::prelude::*;
use crate::time::{Duration, Instant};

verus! {

/// How a node classifies one of its peers.
#[derive(Clone, Copy, Debug, PartialEq, Eq, Hash, Structural)]
pub enum NodeState {
    Dead,
    Suspect,
    Alive,
}

/// What a node has recorded about one peer, beside the peer's state.
#[derive(Clone, Copy, Debug, PartialEq, Eq, Structural)]
pub struct StateContext {
    /// The largest heartbeat counter heard for the peer.
    pub gossip: u64,
    /// When `gossip` last grew.
    pub gossip_ts: Instant,
    /// Reserved; the detector sets it to `false` and never reads it.
    pub failover: bool,
    /// Reserved; the detector sets it to `true` and never reads it.
    pub is_starting: bool,
    /// When the peer entered its present state.
    pub last_state_change: Instant,
    /// How often the peer went from alive to suspect or from suspect to dead
    /// since it was last found alive.
    pub num_failures: u32,
    /// How long a peer stays suspect before it is condemned or cleared.
    pub suspect_duration: Duration,
    /// The seconds of silence after which an alive peer becomes suspect.
    pub gossip_threshold: u64,
}

/// A heartbeat that advanced no longer ago than this counts as recent.
pub open spec fn recent_window() -> Duration {
    Duration::from_secs(1)
}

/// The state that follows `state`, if any.
///
/// * An alive peer becomes suspect once the gap exceeds `gossip_threshold`
///   seconds.
/// * A suspect peer becomes dead once the gap exceeds `suspect_duration`.
///   Otherwise it becomes alive if its heartbeat is recent and it has been
///   held for at least `suspect_duration`.
/// * A dead peer becomes suspect if its heartbeat is recent.
pub open spec fn next_state(
    state: NodeState,
    gap: Duration,
    held: Duration,
    suspect_duration: Duration,
    gossip_threshold: u64,
) -> Option<NodeState> {
    match state {
        NodeState::Alive => {
            if gap.nanos > Duration::from_secs(gossip_threshold).nanos {
                Some(NodeState::Suspect)
            } else {
                None
            }
        },
        NodeState::Suspect => {
            if gap.nanos > suspect_duration.nanos {
                Some(NodeState::Dead)
            } else if gap.nanos <= recent_window().nanos && held.nanos >= suspect_duration.nanos {
                Some(NodeState::Alive)
            } else {
                None
            }
        },
        NodeState::Dead => {
            if gap.nanos <= recent_window().nanos {
                Some(NodeState::Suspect)
            } else {
                None
            }
        },
    }
}

impl StateContext {
    /// The time at `now` since the heartbeat counter last advanced.
    pub open spec fn gap(&self, now: Instant) -> Duration {
        now.since(self.gossip_ts)
    }
}

/// The rule of one liveness state.
pub trait State {
    /// The state whose rule this is.
    spec fn spec_kind(&self) -> NodeState;

    /// The time at `now` for which the peer has been held in the state, as
    /// far as the state's rule reads it.
    spec fn held(&self, now: Instant) -> Duration;

    /// The state whose rule this is.
    fn kind(&self) -> (kind: NodeState)
        ensures
            kind == self.spec_kind(),
    ;

    /// Decides at `now` which state follows for the peer described by `ctx`;
    /// `None` keeps the peer where it is.
    fn update(&self, ctx: &StateContext, now: Instant) -> (next: Option<NodeState>)
        ensures
            next == next_state(
                self.spec_kind(),
                ctx.gap(now),
                self.held(now),
                ctx.suspect_duration,
                ctx.gossip_threshold,
            ),
    ;
}

/// The rule for a peer that is alive.
pub struct AliveState;

/// The rule for a peer that is suspect since `entered_at`.
pub struct SuspectState {
    entered_at: Instant,
}

/// The rule for a peer that is dead.
pub struct DeadState;

impl State for AliveState {
    open spec fn spec_kind(&self) -> NodeState {
        NodeState::Alive
    }

    open spec fn held(&self, now: Instant) -> Duration {
        Duration { nanos: 0 }
    }

    fn kind(&self) -> (kind: NodeState) {
        NodeState::Alive
    }

    fn update(&self, ctx: &StateContext, now: Instant) -> (next: Option<NodeState>) {
        let gap = now.saturating_duration_since(ctx.gossip_ts);
        if gap.nanos > Duration::from_secs(ctx.gossip_threshold).nanos {
            Some(NodeState::Suspect)
        } else {
            None
        }
    }
}

impl SuspectState {
    /// The rule for a peer that became suspect at `entered_at`.
    pub fn new(entered_at: Instant) -> (state: Self)
        ensures
            state.entered() == entered_at,
    {
        Self { entered_at }
    }

    /// When the peer became suspect.
    pub closed spec fn entered(&self) -> Instant {
        self.entered_at
    }

    /// When the peer became suspect.
    pub fn entered_at(&self) -> (at: Instant)
        ensures
            at == self.entered(),
    {
        self.entered_at
    }
}

impl State for SuspectState {
    open spec fn spec_kind(&self) -> NodeState {
        NodeState::Suspect
    }

    open spec fn held(&self, now: Instant) -> Duration {
        now.since(self.entered())
    }

    fn kind(&self) -> (kind: NodeState) {
        NodeState::Suspect
    }

    fn update(&self, ctx: &StateContext, now: Instant) -> (next: Option<NodeState>) {
        let gap = now.saturating_duration_since(ctx.gossip_ts);
        if gap.nanos > ctx.suspect_duration.nanos {
            Some(NodeState::Dead)
        } else if gap.nanos <= Duration::from_secs(1).nanos
            && now.saturating_duration_since(self.entered_at).nanos >= ctx.suspect_duration.nanos {
            Some(NodeState::Alive)
        } else {
            None
        }
    }
}

impl State for DeadState {
    open spec fn spec_kind(&self) -> NodeState {
        NodeState::Dead
    }

    open spec fn held(&self, now: Instant) -> Duration {
        Duration { nanos: 0 }
    }

    fn kind(&self) -> (kind: NodeState) {
        NodeState::Dead
    }

    fn update(&self, ctx: &StateContext, now: Instant) -> (next: Option<NodeState>) {
        let gap = now.saturating_duration_since(ctx.gossip_ts);
        if gap.nanos <= Duration::from_secs(1).nanos {
            Some(NodeState::Suspect)
        } else {
            None
        }
    }
}

} // verus!
