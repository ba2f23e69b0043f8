use gossip_failure_detector::addr::PeerAddr;
use gossip_failure_detector::addr_map::AddrMap;
use gossip_failure_detector::error::Error;
use gossip_failure_detector::events::GossipMessage;
use gossip_failure_detector::wire::{
    addr_from_wire, addr_to_wire, decode, encode, from_wire, to_wire, WirePayload,
};

fn a() -> PeerAddr {
    PeerAddr::v4(127, 0, 0, 1, 8001)
}

fn b() -> PeerAddr {
    PeerAddr::v4(127, 0, 0, 1, 8002)
}

fn c() -> PeerAddr {
    PeerAddr::v6(0x2001_0db8_0000_0000_0000_0000_0000_0001, 8003)
}

fn message(counts: &[(PeerAddr, u64)], failover: Vec<PeerAddr>, starting: Vec<PeerAddr>) -> GossipMessage {
    let mut map: AddrMap<u64> = AddrMap::new();
    for (addr, count) in counts {
        map.insert(*addr, *count);
    }
    GossipMessage { from: a(), gossip_counts: map, failover_list: failover, starting_nodes: starting }
}

fn assert_same(left: &GossipMessage, right: &GossipMessage) {
    assert_eq!(left.from, right.from);
    assert_eq!(left.gossip_counts.keys(), right.gossip_counts.keys());
    for addr in left.gossip_counts.keys() {
        assert_eq!(left.gossip_counts.get(&addr), right.gossip_counts.get(&addr));
    }
    assert_eq!(left.failover_list, right.failover_list);
    assert_eq!(left.starting_nodes, right.starting_nodes);
}

#[test]
fn wire_round_trip() {
    let sent = message(&[(a(), 7), (c(), u64::MAX), (b(), 0)], vec![b(), c()], vec![c()]);
    let bytes = encode(&sent).unwrap();
    let received = decode(&bytes).unwrap();
    assert_same(&sent, &received);
    assert_eq!(received.gossip_counts.len(), 3);
    assert_eq!(received.gossip_counts.get(&a()), Some(&7));
    assert_eq!(received.gossip_counts.get(&c()), Some(&u64::MAX));
    assert_eq!(received.failover_list, vec![b(), c()]);
    assert_eq!(received.starting_nodes, vec![c()]);
}

#[test]
fn wire_round_trip_without_counters() {
    let sent = message(&[], vec![c(), c(), a()], vec![b()]);
    let received = decode(&encode(&sent).unwrap()).unwrap();
    assert_same(&sent, &received);
    assert!(received.gossip_counts.is_empty());
    assert_eq!(received.failover_list, vec![c(), c(), a()]);
}

#[test]
fn wire_round_trip_with_empty_reserved_lists() {
    let sent = message(&[(b(), 3)], vec![], vec![]);
    let received = decode(&encode(&sent).unwrap()).unwrap();
    assert_same(&sent, &received);
    assert!(received.failover_list.is_empty());
    assert!(received.starting_nodes.is_empty());
}

#[test]
fn encoding_is_compact() {
    // an IPv4 address takes 4 + 4 + 2 bytes, a length or a counter 8
    let empty = encode(&message(&[], vec![], vec![])).unwrap();
    assert_eq!(empty.len(), 10 + 8 + 8 + 8);
    let one = encode(&message(&[(b(), 3)], vec![], vec![])).unwrap();
    assert_eq!(one.len(), 10 + 8 + (10 + 8) + 8 + 8);
    // an IPv6 address takes 4 + 16 + 2 bytes
    let six = encode(&message(&[], vec![c()], vec![])).unwrap();
    assert_eq!(six.len(), 10 + 8 + 8 + 22 + 8);
}

#[test]
fn encoding_writes_the_fields_in_their_order() {
    let bytes = encode(&message(&[(b(), 0x0102)], vec![c()], vec![a()])).unwrap();
    let mut expected: Vec<u8> = Vec::new();
    // from: 127.0.0.1:8001
    expected.extend_from_slice(&[0, 0, 0, 0, 127, 0, 0, 1, 0x41, 0x1f]);
    // one counter: 127.0.0.1:8002 at 0x0102
    expected.extend_from_slice(&[1, 0, 0, 0, 0, 0, 0, 0]);
    expected.extend_from_slice(&[0, 0, 0, 0, 127, 0, 0, 1, 0x42, 0x1f]);
    expected.extend_from_slice(&[2, 1, 0, 0, 0, 0, 0, 0]);
    // failover list: [2001:db8::1]:8003
    expected.extend_from_slice(&[1, 0, 0, 0, 0, 0, 0, 0]);
    expected.extend_from_slice(&[1, 0, 0, 0]);
    expected.extend_from_slice(&[0x20, 0x01, 0x0d, 0xb8, 0, 0, 0, 0, 0, 0, 0, 0, 0, 0, 0, 1]);
    expected.extend_from_slice(&[0x43, 0x1f]);
    // starting nodes: 127.0.0.1:8001
    expected.extend_from_slice(&[1, 0, 0, 0, 0, 0, 0, 0]);
    expected.extend_from_slice(&[0, 0, 0, 0, 127, 0, 0, 1, 0x41, 0x1f]);
    assert_eq!(bytes, expected);
}

#[test]
fn decoding_fails_on_bytes_that_are_no_message() {
    assert!(matches!(decode(&[]), Err(Error::Network(_))));
    assert!(matches!(decode(&[1, 2, 3]), Err(Error::Network(_))));
    let bytes = encode(&message(&[(b(), 3)], vec![c()], vec![])).unwrap();
    assert!(matches!(decode(&bytes[..bytes.len() - 1]), Err(Error::Network(_))));
}

#[test]
fn decoding_fails_on_an_unknown_address_family() {
    let mut bytes = encode(&message(&[(b(), 3)], vec![], vec![])).unwrap();
    assert_eq!(bytes[0], 0);
    bytes[0] = 2;
    assert!(matches!(decode(&bytes), Err(Error::Network(_))));
}

#[test]
fn decoding_ignores_what_follows_the_message() {
    let sent = message(&[(b(), 3)], vec![c()], vec![]);
    let mut bytes = encode(&sent).unwrap();
    bytes.extend_from_slice(&[7, 7, 7]);
    assert_same(&sent, &decode(&bytes).unwrap());
}

#[test]
fn addresses_as_plain_values() {
    assert_eq!(addr_to_wire(a()), Ok((u32::from_le_bytes([127, 0, 0, 1]), 8001)));
    assert_eq!(addr_to_wire(PeerAddr::v6(5, 6)), Err((5u128.swap_bytes(), 6)));
    assert_eq!(addr_from_wire(Ok((u32::from_le_bytes([127, 0, 0, 1]), 8001))), a());
    assert_eq!(addr_from_wire(Err((5u128.swap_bytes(), 6))), PeerAddr::v6(5, 6));
    assert_eq!(addr_from_wire(Ok((0x0403_0201, 1))), PeerAddr::v4(1, 2, 3, 4, 1));
    assert_eq!(addr_from_wire(addr_to_wire(c())), c());
}

#[test]
fn to_wire_lists_the_counters_in_the_order_of_the_map() {
    let payload = to_wire(&message(&[(c(), 1), (a(), 2)], vec![b()], vec![]));
    assert_eq!(payload.from, addr_to_wire(a()));
    assert_eq!(payload.gossip_counts, vec![(addr_to_wire(c()), 1), (addr_to_wire(a()), 2)]);
    assert_eq!(payload.failover_list, vec![addr_to_wire(b())]);
    assert!(payload.starting_nodes.is_empty());
}

#[test]
fn from_wire_lets_the_last_counter_of_an_address_stand() {
    let payload = WirePayload {
        from: addr_to_wire(a()),
        gossip_counts: vec![(addr_to_wire(b()), 9), (addr_to_wire(c()), 1), (addr_to_wire(b()), 2)],
        failover_list: vec![addr_to_wire(c())],
        starting_nodes: vec![],
    };
    let message = from_wire(&payload);
    assert_eq!(message.from, a());
    assert_eq!(message.gossip_counts.keys(), vec![b(), c()]);
    assert_eq!(message.gossip_counts.get(&b()), Some(&2));
    assert_eq!(message.gossip_counts.get(&c()), Some(&1));
    assert_eq!(message.failover_list, vec![c()]);
}
