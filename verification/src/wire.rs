//! Gossip messages as bytes.
//!
//! A message goes on the wire in two steps.  It is first written out as
//! plain values in the shape of the message: the sender, the counters as a
//! list of pairs in the order of the sender's table, and the two reserved
//! lists.  The plain values are then encoded by `bincode`, and decoded by it
//! on the way back.  The first step is this module's own and is verified;
//! the second is `bincode`'s and is taken on trust in the two functions that
//! call it.
//!
//! The plain values are chosen so that the bytes are what `serde` and
//! `bincode` make of a record of a socket address, a map from socket
//! addresses to counters and two lists of socket addresses: for an address
//! the number of its family in four bytes, its octets in their order, and
//! its port; for a map or a list its length in eight bytes and its items.

use vstd::prelude::*;
use crate::addr::PeerAddr;
use crate::addr_map::AddrMap;
use crate::error::Error;
use crate::events::{GossipMessage, GossipMessageView};
use crate::octets::{
    lemma_reversed128_twice, lemma_reversed32_twice, reverse128, reverse32, reversed128,
    reversed32,
};
use crate::seqs::lemma_whole_prefix;

verus! {

/// An address as plain values.
///
/// `Ok` holds an IPv4 address and `Err` an IPv6 address, each as the number
/// whose least significant byte is the first octet, beside the port.  The
/// two families are the two variants of a `Result` because that is an enum
/// of two which `serde` writes as it writes any other: the number of the
/// variant, then what the variant holds.
pub type WireAddr = Result<(u32, u16), (u128, u16)>;

/// A gossip message as plain values.
#[derive(Debug)]
pub struct WirePayload {
    pub from: WireAddr,
    pub gossip_counts: Vec<(WireAddr, u64)>,
    pub failover_list: Vec<WireAddr>,
    pub starting_nodes: Vec<WireAddr>,
}

/// What a [`WirePayload`] holds.
pub struct WirePayloadView {
    pub from: WireAddr,
    pub gossip_counts: Seq<(WireAddr, u64)>,
    pub failover_list: Seq<WireAddr>,
    pub starting_nodes: Seq<WireAddr>,
}

impl View for WirePayload {
    type V = WirePayloadView;

    open spec fn view(&self) -> WirePayloadView {
        WirePayloadView {
            from: self.from,
            gossip_counts: self.gossip_counts@,
            failover_list: self.failover_list@,
            starting_nodes: self.starting_nodes@,
        }
    }
}

/// The address `addr` as plain values.
pub open spec fn wire_addr(addr: PeerAddr) -> WireAddr {
    match addr {
        PeerAddr::V4 { ip, port } => Ok((reversed32(ip), port)),
        PeerAddr::V6 { ip, port } => Err((reversed128(ip), port)),
    }
}

/// The address that the plain values `wire` stand for.
pub open spec fn peer_addr(wire: WireAddr) -> PeerAddr {
    match wire {
        Ok((ip, port)) => PeerAddr::V4 { ip: reversed32(ip), port },
        Err((ip, port)) => PeerAddr::V6 { ip: reversed128(ip), port },
    }
}

/// The addresses `addrs` as plain values, in their order.
pub open spec fn wire_addrs(addrs: Seq<PeerAddr>) -> Seq<WireAddr> {
    Seq::new(addrs.len(), |i: int| wire_addr(addrs[i]))
}

/// The addresses that the plain values `wire` stand for, in their order.
pub open spec fn peer_addrs(wire: Seq<WireAddr>) -> Seq<PeerAddr> {
    Seq::new(wire.len(), |i: int| peer_addr(wire[i]))
}

/// The counters `counts` as a list of pairs, one for each of `keys` in their
/// order.
pub open spec fn wire_counts(keys: Seq<PeerAddr>, counts: Map<PeerAddr, u64>) -> Seq<
    (WireAddr, u64),
> {
    Seq::new(keys.len(), |i: int| (wire_addr(keys[i]), counts[keys[i]]))
}

/// The counters that the pairs `wire` stand for.  Where an address occurs
/// twice, its last counter stands.
pub open spec fn peer_counts(wire: Seq<(WireAddr, u64)>) -> Map<PeerAddr, u64>
    decreases wire.len(),
{
    if wire.len() == 0 {
        Map::empty()
    } else {
        peer_counts(wire.drop_last()).insert(peer_addr(wire.last().0), wire.last().1)
    }
}

/// The message `msg` as plain values.
pub open spec fn wire_form(msg: &GossipMessage) -> WirePayloadView {
    WirePayloadView {
        from: wire_addr(msg.from),
        gossip_counts: wire_counts(msg.gossip_counts.key_seq(), msg.gossip_counts@),
        failover_list: wire_addrs(msg.failover_list@),
        starting_nodes: wire_addrs(msg.starting_nodes@),
    }
}

/// The message that the plain values `payload` stand for.
pub open spec fn message_form(payload: WirePayloadView) -> GossipMessageView {
    GossipMessageView {
        from: peer_addr(payload.from),
        gossip_counts: peer_counts(payload.gossip_counts),
        failover_list: peer_addrs(payload.failover_list),
        starting_nodes: peer_addrs(payload.starting_nodes),
    }
}

/// An address as plain values stands for that address.
pub proof fn lemma_addr_round_trip(addr: PeerAddr)
    ensures
        peer_addr(wire_addr(addr)) == addr,
{
    match addr {
        PeerAddr::V4 { ip, .. } => lemma_reversed32_twice(ip),
        PeerAddr::V6 { ip, .. } => lemma_reversed128_twice(ip),
    }
}

/// A list of addresses as plain values stands for that list.
pub proof fn lemma_addrs_round_trip(addrs: Seq<PeerAddr>)
    ensures
        peer_addrs(wire_addrs(addrs)) == addrs,
{
    assert forall|i: int| 0 <= i < addrs.len() implies peer_addr(#[trigger] wire_addrs(addrs)[i])
        == addrs[i] by {
        lemma_addr_round_trip(addrs[i]);
    }
}

/// The pairs written for the first `n` of `keys` stand for the counters of
/// those keys.
proof fn lemma_counts_prefix(keys: Seq<PeerAddr>, counts: Map<PeerAddr, u64>, n: int)
    requires
        0 <= n <= keys.len(),
    ensures
        peer_counts(wire_counts(keys.subrange(0, n), counts)) == Map::new(
            |a: PeerAddr| keys.subrange(0, n).contains(a),
            |a: PeerAddr| counts[a],
        ),
    decreases n,
{
    if n > 0 {
        lemma_counts_prefix(keys, counts, n - 1);
        lemma_addr_round_trip(keys[n - 1]);
        assert(wire_counts(keys.subrange(0, n), counts).drop_last() =~= wire_counts(
            keys.subrange(0, n - 1),
            counts,
        ));
    }
}

/// A message written out as plain values stands for that message.
pub proof fn lemma_wire_round_trip(msg: &GossipMessage)
    requires
        msg.wf(),
    ensures
        message_form(wire_form(msg)) == msg@,
{
    let keys = msg.gossip_counts.key_seq();
    let counts = msg.gossip_counts@;
    msg.gossip_counts.lemma_key_seq();
    lemma_addr_round_trip(msg.from);
    lemma_addrs_round_trip(msg.failover_list@);
    lemma_addrs_round_trip(msg.starting_nodes@);
    lemma_counts_prefix(keys, counts, keys.len() as int);
    lemma_whole_prefix(keys);
    assert(Map::new(|a: PeerAddr| keys.contains(a), |a: PeerAddr| counts[a]) =~= counts);
}

/// The bytes that `bincode::serialize` gives for a payload, if it gives
/// any.
pub uninterp spec fn bincode_bytes(payload: WirePayloadView) -> Option<Seq<u8>>;

/// The payload that `bincode::deserialize` reads from bytes, if it reads
/// one.
pub uninterp spec fn bincode_value(bytes: Seq<u8>) -> Option<WirePayloadView>;

/// `bincode::ErrorKind`, the reason for which `bincode` gave up.  It is
/// carried from the call to the place that reports it; nothing is known of
/// what it holds.
#[verifier::external_type_specification]
#[verifier::external_body]
pub struct ExBincodeErrorKind(bincode::ErrorKind);

/// Encodes a payload with `bincode::serialize`, as the tuple of its four
/// fields in their order.
///
/// Whether bytes come back, and which, depends on the payload alone; the
/// contract names the outcome and does not describe it.  It claims one thing
/// more of the bytes: `bincode::deserialize` reads the same payload back
/// from them.  That is what `bincode` is for, and its documentation opens
/// with it: a value is serialized, deserialized, and found equal to what it
/// was.
#[verifier::external_body]
fn bincode_serialize(payload: &WirePayload) -> (result: Result<Vec<u8>, bincode::Error>)
    ensures
        match result {
            Ok(bytes) => bincode_bytes(payload@) == Some(bytes@) && bincode_value(bytes@) == Some(
                payload@,
            ),
            Err(_) => bincode_bytes(payload@) is None,
        },
{
    bincode::serialize(
        &(&payload.from, &payload.gossip_counts, &payload.failover_list, &payload.starting_nodes),
    )
}

/// Decodes a payload with `bincode::deserialize`, as the tuple of its four
/// fields in their order.
///
/// Whether a payload is read, and which, depends on the bytes alone; the
/// contract names the outcome and claims nothing else of it.
#[verifier::external_body]
fn bincode_deserialize(bytes: &[u8]) -> (result: Result<WirePayload, bincode::Error>)
    ensures
        match result {
            Ok(payload) => bincode_value(bytes@) == Some(payload@),
            Err(_) => bincode_value(bytes@) is None,
        },
{
    let fields: (WireAddr, Vec<(WireAddr, u64)>, Vec<WireAddr>, Vec<WireAddr>) =
        bincode::deserialize(bytes)?;
    Ok(
        WirePayload {
            from: fields.0,
            gossip_counts: fields.1,
            failover_list: fields.2,
            starting_nodes: fields.3,
        },
    )
}

/// What a `bincode` error says of itself, through its `Display`.  Nothing is
/// claimed of the text.
#[verifier::external_body]
fn bincode_error_text(error: &bincode::Error) -> (text: String) {
    error.to_string()
}

/// The address `addr` as plain values.
pub fn addr_to_wire(addr: PeerAddr) -> (wire: WireAddr)
    ensures
        wire == wire_addr(addr),
{
    match addr {
        PeerAddr::V4 { ip, port } => Ok((reverse32(ip), port)),
        PeerAddr::V6 { ip, port } => Err((reverse128(ip), port)),
    }
}

/// The address that the plain values `wire` stand for.
pub fn addr_from_wire(wire: WireAddr) -> (addr: PeerAddr)
    ensures
        addr == peer_addr(wire),
{
    match wire {
        Ok((ip, port)) => PeerAddr::V4 { ip: reverse32(ip), port },
        Err((ip, port)) => PeerAddr::V6 { ip: reverse128(ip), port },
    }
}

/// The addresses `addrs` as plain values, in their order.
fn addrs_to_wire(addrs: &Vec<PeerAddr>) -> (wire: Vec<WireAddr>)
    ensures
        wire@ == wire_addrs(addrs@),
{
    let mut wire: Vec<WireAddr> = Vec::new();
    let mut i: usize = 0;
    while i < addrs.len()
        invariant
            i <= addrs@.len(),
            wire@ == wire_addrs(addrs@.subrange(0, i as int)),
        decreases addrs@.len() - i,
    {
        wire.push(addr_to_wire(addrs[i]));
        i = i + 1;
    }
    wire
}

/// The addresses that the plain values `wire` stand for, in their order.
fn addrs_from_wire(wire: &Vec<WireAddr>) -> (addrs: Vec<PeerAddr>)
    ensures
        addrs@ == peer_addrs(wire@),
{
    let mut addrs: Vec<PeerAddr> = Vec::new();
    let mut i: usize = 0;
    while i < wire.len()
        invariant
            i <= wire@.len(),
            addrs@ == peer_addrs(wire@.subrange(0, i as int)),
        decreases wire@.len() - i,
    {
        addrs.push(addr_from_wire(wire[i]));
        i = i + 1;
    }
    addrs
}

/// Writes the message `msg` out as plain values.
pub fn to_wire(msg: &GossipMessage) -> (payload: WirePayload)
    requires
        msg.wf(),
    ensures
        payload@ == wire_form(msg),
{
    let keys = msg.gossip_counts.keys();
    let mut gossip_counts: Vec<(WireAddr, u64)> = Vec::new();
    let mut i: usize = 0;
    while i < keys.len()
        invariant
            msg.wf(),
            i <= keys@.len(),
            keys@.to_set() == msg.gossip_counts@.dom(),
            gossip_counts@ == wire_counts(keys@.subrange(0, i as int), msg.gossip_counts@),
        decreases keys@.len() - i,
    {
        let addr = keys[i];
        let count: u64 = match msg.gossip_counts.get(&addr) {
            Some(count) => *count,
            None => 0,
        };
        gossip_counts.push((addr_to_wire(addr), count));
        i = i + 1;
    }
    proof {
        lemma_whole_prefix(keys@);
    }
    WirePayload {
        from: addr_to_wire(msg.from),
        gossip_counts,
        failover_list: addrs_to_wire(&msg.failover_list),
        starting_nodes: addrs_to_wire(&msg.starting_nodes),
    }
}

/// Reads the message that the plain values `payload` stand for.
pub fn from_wire(payload: &WirePayload) -> (message: GossipMessage)
    ensures
        message.wf(),
        message@ == message_form(payload@),
{
    let mut gossip_counts: AddrMap<u64> = AddrMap::new();
    let mut i: usize = 0;
    while i < payload.gossip_counts.len()
        invariant
            i <= payload.gossip_counts@.len(),
            gossip_counts.wf(),
            gossip_counts@ == peer_counts(payload.gossip_counts@.subrange(0, i as int)),
        decreases payload.gossip_counts@.len() - i,
    {
        let entry = payload.gossip_counts[i];
        gossip_counts.insert(addr_from_wire(entry.0), entry.1);
        proof {
            let longer = payload.gossip_counts@.subrange(0, i as int + 1);
            assert(longer.drop_last() =~= payload.gossip_counts@.subrange(0, i as int));
        }
        i = i + 1;
    }
    proof {
        lemma_whole_prefix(payload.gossip_counts@);
    }
    GossipMessage {
        from: addr_from_wire(payload.from),
        gossip_counts,
        failover_list: addrs_from_wire(&payload.failover_list),
        starting_nodes: addrs_from_wire(&payload.starting_nodes),
    }
}

/// The message that `bytes` decode to, if they decode to one.
pub open spec fn decoded(bytes: Seq<u8>) -> Option<GossipMessageView> {
    match bincode_value(bytes) {
        Some(payload) => Some(message_form(payload)),
        None => None,
    }
}

/// Encodes the message `msg` for the wire.
///
/// The bytes are those of `bincode` for the message's plain values, and
/// [`decode`] reads the message back from them.  Where `bincode` gives no
/// bytes, that is reported as a network error.
pub fn encode(msg: &GossipMessage) -> (result: Result<Vec<u8>, Error>)
    requires
        msg.wf(),
    ensures
        match bincode_bytes(wire_form(msg)) {
            Some(encoding) => result matches Ok(bytes) && bytes@ == encoding && decoded(bytes@)
                == Some(msg@),
            None => result matches Err(error) && error is Network,
        },
{
    let payload = to_wire(msg);
    match bincode_serialize(&payload) {
        Ok(bytes) => {
            proof {
                lemma_wire_round_trip(msg);
            }
            Ok(bytes)
        },
        Err(error) => Err(Error::Network(bincode_error_text(&error))),
    }
}

/// Decodes a message from the wire.
///
/// Fails with a network error where `bincode` reads no payload from the
/// bytes, and on nothing else.
pub fn decode(bytes: &[u8]) -> (result: Result<GossipMessage, Error>)
    ensures
        match decoded(bytes@) {
            Some(message) => result matches Ok(found) && found.wf() && found@ == message,
            None => result matches Err(error) && error is Network,
        },
{
    match bincode_deserialize(bytes) {
        Ok(payload) => Ok(from_wire(&payload)),
        Err(error) => Err(Error::Network(bincode_error_text(&error))),
    }
}

} // verus!
