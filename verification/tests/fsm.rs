use gossip_failure_detector::membership::ManagedNode;
use gossip_failure_detector::state::{
    AliveState, DeadState, NodeState, State, StateContext, SuspectState,
};
use gossip_failure_detector::time::{Duration, Instant};

const SEC: u128 = 1_000_000_000;

fn at(nanos: u128) -> Instant {
    Instant::from_nanos(nanos)
}

/// A context with a five-second threshold and five seconds of suspicion,
/// whose heartbeat last advanced at `gossip_ts`.
fn context(gossip_ts: u128, num_failures: u32) -> StateContext {
    StateContext {
        gossip: 1,
        gossip_ts: at(gossip_ts),
        failover: false,
        is_starting: true,
        last_state_change: at(0),
        num_failures,
        suspect_duration: Duration::from_secs(5),
        gossip_threshold: 5,
    }
}

fn node(state: NodeState, gossip_ts: u128, entered: u128, num_failures: u32) -> ManagedNode {
    let mut context = context(gossip_ts, num_failures);
    context.last_state_change = at(entered);
    ManagedNode { state, context }
}

#[test]
fn states_report_their_kind() {
    assert_eq!(AliveState.kind(), NodeState::Alive);
    assert_eq!(SuspectState::new(at(3)).kind(), NodeState::Suspect);
    assert_eq!(DeadState.kind(), NodeState::Dead);
}

#[test]
fn suspect_state_remembers_when_it_was_entered() {
    assert_eq!(SuspectState::new(at(42)).entered_at(), at(42));
}

#[test]
fn alive_stays_alive_up_to_the_threshold() {
    let ctx = context(0, 0);
    assert_eq!(AliveState.update(&ctx, at(0)), None);
    assert_eq!(AliveState.update(&ctx, at(5 * SEC)), None);
}

#[test]
fn alive_turns_suspect_past_the_threshold() {
    let ctx = context(0, 0);
    assert_eq!(AliveState.update(&ctx, at(5 * SEC + 1)), Some(NodeState::Suspect));
}

#[test]
fn alive_threshold_counts_whole_seconds_of_any_size() {
    let mut ctx = context(0, 0);
    ctx.gossip_threshold = u64::MAX;
    assert_eq!(AliveState.update(&ctx, at(u128::from(u64::MAX) * SEC)), None);
    assert_eq!(
        AliveState.update(&ctx, at(u128::from(u64::MAX) * SEC + 1)),
        Some(NodeState::Suspect)
    );
}

#[test]
fn suspect_turns_dead_past_the_suspect_duration() {
    let ctx = context(0, 0);
    let state = SuspectState::new(at(0));
    assert_eq!(state.update(&ctx, at(5 * SEC)), None);
    assert_eq!(state.update(&ctx, at(5 * SEC + 1)), Some(NodeState::Dead));
}

#[test]
fn suspect_turns_alive_after_its_time_with_a_recent_heartbeat() {
    // the heartbeat advanced at 6 s, the peer is suspect since 1 s
    let ctx = context(6 * SEC, 0);
    let state = SuspectState::new(at(SEC));
    assert_eq!(state.update(&ctx, at(6 * SEC)), Some(NodeState::Alive));
    assert_eq!(state.update(&ctx, at(7 * SEC)), Some(NodeState::Alive));
}

#[test]
fn suspect_stays_suspect_until_its_time_is_served() {
    let ctx = context(5 * SEC, 0);
    let state = SuspectState::new(at(SEC));
    assert_eq!(state.update(&ctx, at(6 * SEC - 1)), None);
    assert_eq!(state.update(&ctx, at(6 * SEC)), Some(NodeState::Alive));
}

#[test]
fn suspect_stays_suspect_when_the_heartbeat_is_not_recent() {
    // held for ten seconds, but the last advance is more than a second ago
    let ctx = context(8 * SEC, 0);
    let state = SuspectState::new(at(0));
    assert_eq!(state.update(&ctx, at(9 * SEC)), Some(NodeState::Alive));
    assert_eq!(state.update(&ctx, at(9 * SEC + 1)), None);
    assert_eq!(state.update(&ctx, at(13 * SEC)), None);
    assert_eq!(state.update(&ctx, at(13 * SEC + 1)), Some(NodeState::Dead));
}

#[test]
fn suspect_is_condemned_first_where_the_suspect_duration_is_short() {
    let mut ctx = context(0, 0);
    ctx.suspect_duration = Duration::from_millis(500);
    let state = SuspectState::new(at(0));
    // gap 800 ms: recent, time served, but longer than the suspect duration
    assert_eq!(state.update(&ctx, at(800_000_000)), Some(NodeState::Dead));
    assert_eq!(state.update(&ctx, at(500_000_000)), Some(NodeState::Alive));
}

#[test]
fn dead_turns_suspect_on_a_recent_heartbeat() {
    let ctx = context(10 * SEC, 2);
    assert_eq!(DeadState.update(&ctx, at(10 * SEC)), Some(NodeState::Suspect));
    assert_eq!(DeadState.update(&ctx, at(11 * SEC)), Some(NodeState::Suspect));
    assert_eq!(DeadState.update(&ctx, at(11 * SEC + 1)), None);
}

#[test]
fn a_clock_reading_before_the_last_advance_counts_as_no_gap() {
    let ctx = context(10 * SEC, 0);
    assert_eq!(AliveState.update(&ctx, at(SEC)), None);
    assert_eq!(DeadState.update(&ctx, at(SEC)), Some(NodeState::Suspect));
}

#[test]
fn alive_to_suspect_counts_one_failure() {
    let mut peer = node(NodeState::Alive, 0, 0, 0);
    assert_eq!(peer.evaluate(at(5 * SEC + 1)), Some(NodeState::Suspect));
    assert_eq!(peer.state, NodeState::Suspect);
    assert_eq!(peer.context.num_failures, 1);
    assert_eq!(peer.context.last_state_change, at(5 * SEC + 1));
    assert_eq!(peer.context.gossip, 1);
    assert_eq!(peer.context.gossip_ts, at(0));
}

#[test]
fn suspect_to_dead_counts_one_failure() {
    let mut peer = node(NodeState::Suspect, 0, SEC, 1);
    assert_eq!(peer.evaluate(at(5 * SEC + 1)), Some(NodeState::Dead));
    assert_eq!(peer.state, NodeState::Dead);
    assert_eq!(peer.context.num_failures, 2);
    assert_eq!(peer.context.last_state_change, at(5 * SEC + 1));
}

#[test]
fn suspect_to_alive_clears_the_failures() {
    let mut peer = node(NodeState::Suspect, 6 * SEC, SEC, 3);
    assert_eq!(peer.evaluate(at(6 * SEC)), Some(NodeState::Alive));
    assert_eq!(peer.state, NodeState::Alive);
    assert_eq!(peer.context.num_failures, 0);
    assert_eq!(peer.context.last_state_change, at(6 * SEC));
}

#[test]
fn dead_to_suspect_restarts_the_time_held() {
    let mut peer = node(NodeState::Dead, 20 * SEC, 6 * SEC, 2);
    assert_eq!(peer.evaluate(at(20 * SEC)), Some(NodeState::Suspect));
    assert_eq!(peer.state, NodeState::Suspect);
    assert_eq!(peer.context.num_failures, 2);
    assert_eq!(peer.context.last_state_change, at(20 * SEC));
    // it has to serve its time again
    assert_eq!(peer.evaluate(at(20 * SEC + 1)), None);
    assert_eq!(peer.state, NodeState::Suspect);
}

#[test]
fn nothing_changes_where_no_rule_applies() {
    let mut peer = node(NodeState::Alive, 0, 0, 0);
    let before = peer;
    assert_eq!(peer.evaluate(at(3 * SEC)), None);
    assert_eq!(peer, before);
}

#[test]
fn the_failure_count_stops_at_its_largest_value() {
    let mut peer = node(NodeState::Alive, 0, 0, u32::MAX);
    assert_eq!(peer.evaluate(at(6 * SEC)), Some(NodeState::Suspect));
    assert_eq!(peer.context.num_failures, u32::MAX);
}

#[test]
fn set_state_counts_only_the_way_down() {
    let mut peer = node(NodeState::Alive, 0, 0, 4);
    peer.set_state(NodeState::Dead, at(9));
    assert_eq!(peer.state, NodeState::Dead);
    assert_eq!(peer.context.num_failures, 4);
    assert_eq!(peer.context.last_state_change, at(9));
    peer.set_state(NodeState::Alive, at(10));
    assert_eq!(peer.context.num_failures, 4);
    peer.set_state(NodeState::Suspect, at(11));
    assert_eq!(peer.context.num_failures, 5);
    peer.set_state(NodeState::Suspect, at(12));
    assert_eq!(peer.context.num_failures, 5);
    assert_eq!(peer.context.last_state_change, at(12));
}

#[test]
fn a_new_entry_is_suspect_without_a_heartbeat() {
    let peer = ManagedNode::new(Duration::from_secs(2), 7, at(99));
    assert_eq!(peer.state, NodeState::Suspect);
    assert_eq!(peer.context.gossip, 0);
    assert_eq!(peer.context.gossip_ts, at(99));
    assert_eq!(peer.context.last_state_change, at(99));
    assert_eq!(peer.context.num_failures, 0);
    assert_eq!(peer.context.suspect_duration, Duration::from_nanos(2 * SEC));
    assert_eq!(peer.context.gossip_threshold, 7);
    assert!(!peer.context.failover);
    assert!(peer.context.is_starting);
}

#[test]
fn durations_count_nanoseconds() {
    assert_eq!(Duration::from_secs(3).as_nanos(), 3 * SEC);
    assert_eq!(Duration::from_millis(250).as_nanos(), 250_000_000);
    assert_eq!(Duration::from_nanos(17).as_nanos(), 17);
    assert_eq!(Duration::from_secs(u64::MAX).as_nanos(), u128::from(u64::MAX) * SEC);
}

#[test]
fn time_between_readings_never_runs_backwards() {
    assert_eq!(at(10).saturating_duration_since(at(4)), Duration::from_nanos(6));
    assert_eq!(at(4).saturating_duration_since(at(10)), Duration::from_nanos(0));
    assert_eq!(at(4).saturating_duration_since(at(4)), Duration::from_nanos(0));
}
